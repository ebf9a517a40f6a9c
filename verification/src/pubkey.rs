//! Identities of parties, assets and accounts: 32 opaque bytes.

use vstd::prelude::*;

verus! {

/// The identity of a party, an asset or an account.
///
/// Two identities are the same exactly when their 32 bytes are the same. The
/// all-zero identity stands for "nobody" and marks a seller that has not yet
/// been set.
#[derive(Clone, Copy, Debug, Eq)]
pub struct Pubkey {
    pub bytes: [u8; 32],
}

impl View for Pubkey {
    type V = Seq<u8>;

    open spec fn view(&self) -> Seq<u8> {
        self.bytes@
    }
}

impl PartialEq for Pubkey {
    fn eq(&self, other: &Self) -> (r: bool) {
        let mut i: usize = 0;
        while i < 32
            invariant
                i <= 32,
                forall|j: int| 0 <= j < i ==> self.bytes[j] == other.bytes[j],
            decreases 32 - i,
        {
            if self.bytes[i] != other.bytes[i] {
                return false;
            }
            i += 1;
        }
        proof {
            assert(self.bytes =~= other.bytes);
        }
        true
    }
}

impl vstd::std_specs::cmp::PartialEqSpecImpl for Pubkey {
    open spec fn obeys_eq_spec() -> bool {
        true
    }

    open spec fn eq_spec(&self, other: &Self) -> bool {
        *self == *other
    }
}

impl Default for Pubkey {
    fn default() -> (r: Self)
        ensures
            r == Pubkey::nobody(),
    {
        Pubkey { bytes: [0u8; 32] }
    }
}

impl Pubkey {
    /// The "nobody" identity.
    pub open spec fn nobody() -> Pubkey {
        Pubkey { bytes: vstd::array::spec_array_fill_for_copy_type::<u8, 32>(0u8) }
    }

    /// Whether this is the "nobody" identity: every byte is zero.
    pub open spec fn is_nobody(self) -> bool {
        forall|i: int| 0 <= i < 32 ==> self.bytes[i] == 0
    }

    /// The identity made of the given bytes.
    pub fn new_from_array(bytes: [u8; 32]) -> (r: Self)
        ensures
            r.bytes == bytes,
    {
        Pubkey { bytes }
    }

    /// The bytes of this identity.
    pub fn to_bytes(&self) -> (r: [u8; 32])
        ensures
            r == self.bytes,
    {
        self.bytes
    }

    /// Whether this is the "nobody" identity.
    pub fn is_default(&self) -> (r: bool)
        ensures
            r == self.is_nobody(),
    {
        let mut i: usize = 0;
        while i < 32
            invariant
                i <= 32,
                forall|j: int| 0 <= j < i ==> self.bytes[j] == 0,
            decreases 32 - i,
        {
            if self.bytes[i] != 0 {
                return false;
            }
            i += 1;
        }
        true
    }
}

/// There is only one "nobody": an identity is all-zero exactly when it is
/// `Pubkey::nobody()`.
pub proof fn lemma_nobody_unique(a: Pubkey)
    ensures
        a.is_nobody() <==> a == Pubkey::nobody(),
{
    if a.is_nobody() {
        assert(a.bytes =~= Pubkey::nobody().bytes);
    }
}

} // verus!
