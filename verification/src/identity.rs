use vstd::prelude::*;

verus! {

broadcast use vstd::array::group_array_axioms;

/// A 32-byte public-key-equivalent identity, the form in which the
/// surrounding chain names accounts, programs and token mints.
#[derive(Clone, Copy, Debug)]
pub struct Identity {
    pub key: [u8; 32],
}

/// The all-zero key: the "no pending controller" sentinel.
pub open spec fn zero_key() -> Seq<u8> {
    Seq::new(32, |i: int| 0u8)
}

impl View for Identity {
    type V = Seq<u8>;

    open spec fn view(&self) -> Seq<u8> {
        self.key@
    }
}

impl Identity {
    pub fn new(key: [u8; 32]) -> (r: Identity)
        ensures
            r@ == key@,
    {
        Identity { key }
    }

    /// The all-zero identity, standing for "none".
    pub fn zeroed() -> (r: Identity)
        ensures
            r@ == zero_key(),
    {
        let key: [u8; 32] = [0u8; 32];
        proof {
            assert(key@ =~= zero_key());
        }
        Identity { key }
    }

    pub fn equals(&self, other: &Identity) -> (r: bool)
        ensures
            r == (self@ == other@),
    {
        let mut i: usize = 0;
        while i < 32
            invariant
                0 <= i <= 32,
                forall|j: int| 0 <= j < i ==> self@[j] == other@[j],
            decreases 32 - i,
        {
            if self.key[i] != other.key[i] {
                return false;
            }
            i += 1;
        }
        proof {
            assert(self@ =~= other@);
        }
        true
    }

    /// Whether this identity is the "none" sentinel.
    pub fn is_zeroed(&self) -> (r: bool)
        ensures
            r == (self@ == zero_key()),
    {
        let z = Identity::zeroed();
        self.equals(&z)
    }
}

} // verus!
