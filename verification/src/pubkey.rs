use vstd::prelude::*;

verus! {

/// The address of this program: `9HzagBuheBCfbbXWVhqkYVArBzepy8Mif5rbe7gM257n`
/// in base 58.
pub const ID: [u8; 32] = [
    123, 55, 229, 28, 104, 26, 203, 28, 142, 14, 112, 224, 217, 252, 66, 206,
    167, 105, 5, 167, 228, 104, 211, 142, 60, 83, 123, 31, 104, 233, 118, 225,
];

/// The address of an account: 32 bytes, compared byte for byte.
#[derive(Clone, Copy, Debug, Eq, Hash)]
pub struct Pubkey {
    pub bytes: [u8; 32],
}

impl View for Pubkey {
    type V = Seq<u8>;

    open spec fn view(&self) -> Seq<u8> {
        self.bytes@
    }
}

impl PartialEq for Pubkey {
    fn eq(&self, other: &Pubkey) -> (res: bool) {
        let mut i: usize = 0;
        while i < 32
            invariant
                i <= 32,
                forall|j: int| 0 <= j < i ==> self.bytes[j] == other.bytes[j],
            decreases 32 - i,
        {
            if self.bytes[i] != other.bytes[i] {
                return false;
            }
            i += 1;
        }
        assert(self.bytes =~= other.bytes);
        true
    }
}

impl vstd::std_specs::cmp::PartialEqSpecImpl for Pubkey {
    open spec fn obeys_eq_spec() -> bool {
        true
    }

    open spec fn eq_spec(&self, other: &Pubkey) -> bool {
        *self == *other
    }
}

impl Pubkey {
    /// The address made of the given bytes.
    pub fn new_from_array(bytes: [u8; 32]) -> (res: Pubkey)
        ensures
            res.bytes == bytes,
    {
        Pubkey { bytes }
    }

    /// The bytes of the address.
    pub fn to_bytes(&self) -> (res: [u8; 32])
        ensures
            res == self.bytes,
    {
        self.bytes
    }

}

/// The address of this program as a value.
pub open spec fn program_id() -> Pubkey {
    Pubkey { bytes: ID }
}

/// The address of this program.
pub fn id() -> (res: Pubkey)
    ensures
        res == program_id(),
{
    Pubkey { bytes: ID }
}

} // verus!
