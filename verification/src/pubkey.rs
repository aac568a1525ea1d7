use vstd::prelude::*;

use crate::errors::ResolveError;

verus! {

/// What `bs58::encode(..).into_string()` returns for a byte string: its
/// base-58 text under the Bitcoin alphabet, without a checksum. The text is a
/// function of the bytes alone.
pub uninterp spec fn base58_of(bytes: Seq<u8>) -> Seq<char>;

/// Relies on `bs58::encode(..).into_string()`: the canonical base-58 text of
/// the given bytes, named `base58_of`.
#[verifier::external_body]
pub(crate) fn encode_base58(bytes: &Vec<u8>) -> (r: String)
    ensures
        r@ == base58_of(bytes@),
{
    bs58::encode(bytes).into_string()
}

/// A raw 32-byte account key.
#[derive(Clone, Debug, PartialEq, Eq)]
pub struct Pubkey {
    pub bytes: Vec<u8>,
}

impl View for Pubkey {
    type V = Seq<u8>;

    open spec fn view(&self) -> Seq<u8> {
        self.bytes@
    }
}

impl Pubkey {
    pub open spec fn wf(&self) -> bool {
        self.bytes@.len() == 32
    }
}

/// The key of the system program: 32 zero bytes.
pub open spec fn system_program_key() -> Seq<u8> {
    Seq::new(32, |i: int| 0u8)
}

/// Whether a key is the system program's own key.
pub fn is_system_program(key: &Pubkey) -> (r: bool)
    requires
        key.wf(),
    ensures
        r == (key@ == system_program_key()),
{
    let n = key.bytes.len();
    let mut i: usize = 0;
    while i < n
        invariant
            key.wf(),
            n == key.bytes@.len(),
            i <= n,
            forall|j: int| 0 <= j < i ==> key.bytes@[j] == 0u8,
        decreases n - i,
    {
        if key.bytes[i] != 0 {
            proof {
                assert(key@[i as int] != system_program_key()[i as int]);
            }
            return false;
        }
        i += 1;
    }
    proof {
        assert(key@ =~= system_program_key());
    }
    true
}

/// The per-transaction ordered table of account keys that instruction
/// account indices point into.
#[derive(Clone, Debug, PartialEq, Eq)]
pub struct AccountTable {
    pub keys: Vec<Pubkey>,
}

impl View for AccountTable {
    type V = Seq<Seq<u8>>;

    open spec fn view(&self) -> Seq<Seq<u8>> {
        self.keys@.map_values(|k: Pubkey| k@)
    }
}

impl AccountTable {
    pub open spec fn wf(&self) -> bool {
        forall|i: int| 0 <= i < self.keys@.len() ==> (#[trigger] self.keys@[i]).wf()
    }

    pub open spec fn spec_len(&self) -> nat {
        self@.len()
    }

    pub fn len(&self) -> (r: usize)
        ensures
            r == self.spec_len(),
    {
        self.keys.len()
    }

    /// Index-to-key lookup; out-of-range indices are reported, never read.
    pub fn get(&self, i: usize) -> (r: Result<&Pubkey, ResolveError>)
        ensures
            match r {
                Ok(k) => i < self@.len() && k@ == self@[i as int],
                Err(e) => i >= self@.len() && e == ResolveError::AccountIndexOutOfRange,
            },
    {
        if i < self.keys.len() {
            Ok(&self.keys[i])
        } else {
            Err(ResolveError::AccountIndexOutOfRange)
        }
    }
}

} // verus!
