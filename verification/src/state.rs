use vstd::prelude::*;
use vstd::arithmetic::div_mod::{lemma_div_denominator, lemma_fundamental_div_mod, lemma_fundamental_div_mod_converse};

verus! {

/// Authoritative reserve record of one market: the shadow ledger.
///
/// It records the reserves as the cumulative effect of the initial deposit
/// plus every committed swap. It is deliberately independent of the live
/// balances of the holding accounts, so that funds pushed into those
/// accounts from outside cannot skew the swap arithmetic.
#[derive(Clone, Copy, Debug, PartialEq, Eq, Structural)]
pub struct Vault {
    pub token_x_amount: u64,
    pub token_y_amount: u64,
}

/// The little-endian bytes of a 64-bit value, least significant byte first.
pub open spec fn u64_le_bytes(v: u64) -> Seq<u8> {
    seq![
        (v % 256) as u8,
        ((v / 256) % 256) as u8,
        ((v / 0x1_0000) % 256) as u8,
        ((v / 0x100_0000) % 256) as u8,
        ((v / 0x1_0000_0000) % 256) as u8,
        ((v / 0x100_0000_0000) % 256) as u8,
        ((v / 0x1_0000_0000_0000) % 256) as u8,
        ((v / 0x100_0000_0000_0000) % 256) as u8,
    ]
}

/// The 64-bit value read from 8 little-endian bytes.
pub open spec fn u64_from_le(s: Seq<u8>) -> u64
    recommends
        s.len() == 8,
{
    (s[0] + s[1] * 256 + s[2] * 0x1_0000 + s[3] * 0x100_0000 + s[4] * 0x1_0000_0000
        + s[5] * 0x100_0000_0000 + s[6] * 0x1_0000_0000_0000
        + s[7] * 0x100_0000_0000_0000) as u64
}

/// Appends the 8 little-endian bytes of `v` to `out`.
pub fn push_u64_le(out: &mut Vec<u8>, v: u64)
    ensures
        final(out)@ == old(out)@ + u64_le_bytes(v),
{
    out.push((v % 256) as u8);
    out.push(((v / 256) % 256) as u8);
    out.push(((v / 0x1_0000) % 256) as u8);
    out.push(((v / 0x100_0000) % 256) as u8);
    out.push(((v / 0x1_0000_0000) % 256) as u8);
    out.push(((v / 0x100_0000_0000) % 256) as u8);
    out.push(((v / 0x1_0000_0000_0000) % 256) as u8);
    out.push(((v / 0x100_0000_0000_0000) % 256) as u8);
    proof {
        assert(final(out)@ =~= old(out)@ + u64_le_bytes(v));
    }
}

/// Appends a copy of `src` to `out`.
pub fn push_bytes(out: &mut Vec<u8>, src: &Vec<u8>)
    ensures
        final(out)@ == old(out)@ + src@,
{
    let mut i: usize = 0;
    while i < src.len()
        invariant
            i <= src@.len(),
            out@ == old(out)@ + src@.subrange(0, i as int),
        decreases src@.len() - i,
    {
        out.push(src[i]);
        proof {
            assert(out@ =~= old(out)@ + src@.subrange(0, i + 1));
        }
        i += 1;
    }
    proof {
        assert(out@ =~= old(out)@ + src@);
    }
}

/// The bytes of `d` from `start` up to `end`, as a fresh vector.
pub fn bytes_range(d: &[u8], start: usize, end: usize) -> (r: Vec<u8>)
    requires
        start <= end <= d@.len(),
    ensures
        r@ == d@.subrange(start as int, end as int),
{
    let mut out: Vec<u8> = Vec::new();
    let mut i: usize = start;
    while i < end
        invariant
            start <= i <= end <= d@.len(),
            out@ == d@.subrange(start as int, i as int),
        decreases end - i,
    {
        out.push(d[i]);
        proof {
            assert(out@ =~= d@.subrange(start as int, i + 1));
        }
        i += 1;
    }
    out
}

/// Reads the 64-bit little-endian value at `off`.
pub fn read_u64_le(d: &[u8], off: usize) -> (r: u64)
    requires
        off + 8 <= d@.len(),
    ensures
        r == u64_from_le(d@.subrange(off as int, off + 8)),
{
    let r: u64 = (d[off] as u64) + (d[off + 1] as u64) * 256 + (d[off + 2] as u64) * 0x1_0000
        + (d[off + 3] as u64) * 0x100_0000 + (d[off + 4] as u64) * 0x1_0000_0000
        + (d[off + 5] as u64) * 0x100_0000_0000 + (d[off + 6] as u64) * 0x1_0000_0000_0000
        + (d[off + 7] as u64) * 0x100_0000_0000_0000;
    proof {
        let s = d@.subrange(off as int, off + 8);
        assert(s[0] == d@[off as int] && s[1] == d@[off + 1] && s[2] == d@[off + 2]
            && s[3] == d@[off + 3] && s[4] == d@[off + 4] && s[5] == d@[off + 5]
            && s[6] == d@[off + 6] && s[7] == d@[off + 7]);
    }
    r
}

/// Reading back the little-endian bytes of a value gives the value.
pub proof fn lemma_u64_le_round_trip(v: u64)
    ensures
        u64_from_le(u64_le_bytes(v)) == v,
{
    let x = v as int;
    lemma_div_denominator(x, 256, 256);
    lemma_div_denominator(x, 0x1_0000, 256);
    lemma_div_denominator(x, 0x100_0000, 256);
    lemma_div_denominator(x, 0x1_0000_0000, 256);
    lemma_div_denominator(x, 0x100_0000_0000, 256);
    lemma_div_denominator(x, 0x1_0000_0000_0000, 256);
    lemma_fundamental_div_mod(x, 256);
    lemma_fundamental_div_mod(x / 256, 256);
    lemma_fundamental_div_mod(x / 0x1_0000, 256);
    lemma_fundamental_div_mod(x / 0x100_0000, 256);
    lemma_fundamental_div_mod(x / 0x1_0000_0000, 256);
    lemma_fundamental_div_mod(x / 0x100_0000_0000, 256);
    lemma_fundamental_div_mod(x / 0x1_0000_0000_0000, 256);
    lemma_fundamental_div_mod(x / 0x100_0000_0000_0000, 256);
    assert(x / 0x100_0000_0000_0000 / 256 == 0) by {
        lemma_div_denominator(x, 0x100_0000_0000_0000, 256);
    };
}

/// Writing back the value read from 8 little-endian bytes gives the bytes.
pub proof fn lemma_u64_le_bytes_of_read(s: Seq<u8>)
    requires
        s.len() == 8,
    ensures
        u64_le_bytes(u64_from_le(s)) == s,
{
    let b0 = s[0] as int;
    let b1 = s[1] as int;
    let b2 = s[2] as int;
    let b3 = s[3] as int;
    let b4 = s[4] as int;
    let b5 = s[5] as int;
    let b6 = s[6] as int;
    let b7 = s[7] as int;
    let h7 = b7;
    let h6 = b6 + 256 * h7;
    let h5 = b5 + 256 * h6;
    let h4 = b4 + 256 * h5;
    let h3 = b3 + 256 * h4;
    let h2 = b2 + 256 * h3;
    let h1 = b1 + 256 * h2;
    let h0 = b0 + 256 * h1;
    let v = u64_from_le(s) as int;
    assert(v == h0);
    lemma_fundamental_div_mod_converse(h0, 256, h1, b0);
    lemma_fundamental_div_mod_converse(h1, 256, h2, b1);
    lemma_fundamental_div_mod_converse(h2, 256, h3, b2);
    lemma_fundamental_div_mod_converse(h3, 256, h4, b3);
    lemma_fundamental_div_mod_converse(h4, 256, h5, b4);
    lemma_fundamental_div_mod_converse(h5, 256, h6, b5);
    lemma_fundamental_div_mod_converse(h6, 256, h7, b6);
    lemma_fundamental_div_mod_converse(h7, 256, 0, b7);
    lemma_div_denominator(v, 256, 256);
    lemma_div_denominator(v, 0x1_0000, 256);
    lemma_div_denominator(v, 0x100_0000, 256);
    lemma_div_denominator(v, 0x1_0000_0000, 256);
    lemma_div_denominator(v, 0x100_0000_0000, 256);
    lemma_div_denominator(v, 0x1_0000_0000_0000, 256);
    assert(v / 0x1_0000 == h2);
    assert(v / 0x100_0000 == h3);
    assert(v / 0x1_0000_0000 == h4);
    assert(v / 0x100_0000_0000 == h5);
    assert(v / 0x1_0000_0000_0000 == h6);
    assert(v / 0x100_0000_0000_0000 == h7);
    assert(u64_le_bytes(u64_from_le(s)) =~= s);
}

impl Vault {
    /// The persisted form: 16 bytes, little-endian `reserve_x` then
    /// little-endian `reserve_y`.
    pub open spec fn spec_bytes(&self) -> Seq<u8> {
        u64_le_bytes(self.token_x_amount) + u64_le_bytes(self.token_y_amount)
    }

    /// What a byte string decodes to: a record exactly when it is 16 bytes.
    pub open spec fn decode_spec(d: Seq<u8>) -> Option<Vault> {
        if d.len() == 16 {
            Some(
                Vault {
                    token_x_amount: u64_from_le(d.subrange(0, 8)),
                    token_y_amount: u64_from_le(d.subrange(8, 16)),
                },
            )
        } else {
            None
        }
    }

    /// Serializes the record to its fixed 16-byte layout.
    pub fn to_bytes(&self) -> (r: Vec<u8>)
        ensures
            r@ == self.spec_bytes(),
            r@.len() == 16,
    {
        let mut out: Vec<u8> = Vec::new();
        push_u64_le(&mut out, self.token_x_amount);
        push_u64_le(&mut out, self.token_y_amount);
        proof {
            assert(out@ =~= self.spec_bytes());
        }
        out
    }

    /// Decodes a persisted record; fails on any other length.
    pub fn try_from_bytes(d: &[u8]) -> (r: Option<Vault>)
        ensures
            r == Vault::decode_spec(d@),
    {
        if d.len() == 16 {
            let x = read_u64_le(d, 0);
            let y = read_u64_le(d, 8);
            Some(Vault { token_x_amount: x, token_y_amount: y })
        } else {
            None
        }
    }

    /// Decoding the serialized form of a record gives the record back.
    pub proof fn lemma_round_trip(v: Vault)
        ensures
            Vault::decode_spec(v.spec_bytes()) == Some(v),
    {
        lemma_u64_le_round_trip(v.token_x_amount);
        lemma_u64_le_round_trip(v.token_y_amount);
        assert(v.spec_bytes().subrange(0, 8) =~= u64_le_bytes(v.token_x_amount));
        assert(v.spec_bytes().subrange(8, 16) =~= u64_le_bytes(v.token_y_amount));
    }

    /// Serializing the record a 16-byte string decodes to gives the string
    /// back: every record has exactly one persisted form.
    pub proof fn lemma_decode_encodes_back(d: Seq<u8>)
        requires
            d.len() == 16,
        ensures
            Vault::decode_spec(d)->0.spec_bytes() == d,
    {
        lemma_u64_le_bytes_of_read(d.subrange(0, 8));
        lemma_u64_le_bytes_of_read(d.subrange(8, 16));
        assert(Vault::decode_spec(d)->0.spec_bytes() =~= d);
    }
}

} // verus!
