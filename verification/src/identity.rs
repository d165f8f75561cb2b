use vstd::prelude::*;

verus! {

/// Width in bytes of a program or owner identity.
pub const IDENTITY_WIDTH: usize = 32;

/// A fixed-width opaque identifier: the address under which the program
/// executes, and the authorization key recorded as an account's owner. It is
/// only ever compared for byte-exact equality.
#[derive(Debug)]
pub struct Identity {
    bytes: Vec<u8>,
}

impl View for Identity {
    type V = Seq<u8>;

    closed spec fn view(&self) -> Seq<u8> {
        self.bytes@
    }
}

impl Identity {
    /// An identity is well formed when it spans the full fixed width.
    pub open spec fn wf(&self) -> bool {
        self@.len() == IDENTITY_WIDTH
    }

    /// Build an identity from its raw bytes.
    pub fn new(bytes: Vec<u8>) -> (r: Identity)
        requires
            bytes@.len() == IDENTITY_WIDTH,
        ensures
            r@ == bytes@,
            r.wf(),
    {
        Identity { bytes }
    }

    /// The all-zero identity, the default address of the hosting runtime.
    pub fn zeroed() -> (r: Identity)
        ensures
            r.wf(),
            forall|i: int| 0 <= i < IDENTITY_WIDTH ==> r@[i] == 0u8,
    {
        let mut bytes: Vec<u8> = Vec::new();
        let mut i: usize = 0;
        while i < IDENTITY_WIDTH
            invariant
                i <= IDENTITY_WIDTH,
                bytes@.len() == i,
                forall|j: int| 0 <= j < i ==> bytes@[j] == 0u8,
            decreases IDENTITY_WIDTH - i,
        {
            bytes.push(0u8);
            i = i + 1;
        }
        Identity { bytes }
    }

    /// Byte-exact equality over the full identity width.
    pub fn equals(&self, other: &Identity) -> (r: bool)
        ensures
            r <==> self@ == other@,
    {
        if self.bytes.len() != other.bytes.len() {
            return false;
        }
        let mut i: usize = 0;
        while i < self.bytes.len()
            invariant
                i <= self.bytes@.len(),
                self.bytes@.len() == other.bytes@.len(),
                forall|j: int| 0 <= j < i ==> self.bytes@[j] == other.bytes@[j],
            decreases self.bytes@.len() - i,
        {
            if self.bytes[i] != other.bytes[i] {
                return false;
            }
            i = i + 1;
        }
        proof {
            assert(self.bytes@ =~= other.bytes@);
        }
        true
    }
}

} // verus!
