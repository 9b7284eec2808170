use vstd::prelude::*;

verus! {

/// A 32-byte account address: the identity of wallets, asset mints,
/// holding accounts and derived authorities.
#[derive(Debug, PartialEq, Eq)]
pub struct Addr {
    bytes: Vec<u8>,
}

impl View for Addr {
    type V = Seq<u8>;

    closed spec fn view(&self) -> Seq<u8> {
        self.bytes@
    }
}

impl Addr {
    /// Every address is exactly 32 bytes long; `use_type_invariant` recovers
    /// this fact for any value in hand.
    #[verifier::type_invariant]
    pub open spec fn wf(self) -> bool {
        self@.len() == 32
    }

    /// Builds an address from raw bytes; succeeds exactly on 32-byte input.
    pub fn new(bytes: Vec<u8>) -> (r: Option<Addr>)
        ensures
            r is Some <==> bytes@.len() == 32,
            r is Some ==> r->0@ == bytes@,
    {
        if bytes.len() == 32 {
            Some(Addr { bytes })
        } else {
            None
        }
    }

    /// The raw bytes of the address.
    pub fn as_bytes(&self) -> (r: &Vec<u8>)
        ensures
            r@ == self@,
    {
        &self.bytes
    }

    /// An independent copy of the address.
    pub fn dup(&self) -> (r: Addr)
        ensures
            r@ == self@,
    {
        proof {
            use_type_invariant(self);
        }
        let mut out: Vec<u8> = Vec::new();
        let mut i: usize = 0;
        while i < self.bytes.len()
            invariant
                i <= self.bytes@.len(),
                out@ == self.bytes@.subrange(0, i as int),
            decreases self.bytes@.len() - i,
        {
            out.push(self.bytes[i]);
            i += 1;
        }
        proof {
            assert(out@ =~= self.bytes@);
        }
        Addr { bytes: out }
    }

    /// Byte-for-byte equality of two addresses.
    pub fn equals(&self, other: &Addr) -> (r: bool)
        ensures
            r <==> self@ == other@,
    {
        proof {
            use_type_invariant(self);
            use_type_invariant(other);
        }
        let mut i: usize = 0;
        while i < 32
            invariant
                i <= 32,
                self.bytes@.len() == 32,
                other.bytes@.len() == 32,
                forall|j: int| 0 <= j < i ==> self.bytes@[j] == other.bytes@[j],
            decreases 32 - i,
        {
            if self.bytes[i] != other.bytes[i] {
                return false;
            }
            i += 1;
        }
        proof {
            assert(self@ =~= other@);
        }
        true
    }
}

} // verus!
