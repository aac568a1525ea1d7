//! The account-role resolver: each decoded variant declares a fixed minimum
//! number of account indices and a protocol-fixed positional role mapping.
//! The resolver checks the arity, looks each used index up in the account
//! table, and returns the referenced keys as base-58 text under their role
//! names.

use vstd::prelude::*;

use crate::errors::ResolveError;
use crate::pubkey::{base58_of, encode_base58, AccountTable};
use crate::system_program::{InstructionView, SystemInstruction};

verus! {

/// The positional accounts of one instruction, resolved to key text and
/// named by their protocol roles.
#[derive(Clone, Debug, PartialEq, Eq)]
pub enum ResolvedAccounts {
    CreateAccount { funding_account: String, new_account: String },
    Assign { assigned_account: String },
    Transfer { funding_account: String, recipient_account: String },
    CreateAccountWithSeed { funding_account: String, created_account: String },
    AdvanceNonceAccount { nonce_account: String, nonce_authority: String },
    WithdrawNonceAccount { nonce_account: String, recipient_account: String, nonce_authority: String },
    InitializeNonceAccount { nonce_account: String },
    AuthorizeNonceAccount { nonce_account: String, nonce_authority: String },
    Allocate { account: String },
    AllocateWithSeed { allocated_account: String },
    AssignWithSeed { assigned_account: String },
    TransferWithSeed { funding_account: String, base_account: String, recipient_account: String },
    UpgradeNonceAccount { nonce_account: String },
}

/// The mathematical shape of resolved accounts: each role's key text.
#[verifier::ext_equal]
pub enum ResolvedView {
    CreateAccount { funding_account: Seq<char>, new_account: Seq<char> },
    Assign { assigned_account: Seq<char> },
    Transfer { funding_account: Seq<char>, recipient_account: Seq<char> },
    CreateAccountWithSeed { funding_account: Seq<char>, created_account: Seq<char> },
    AdvanceNonceAccount { nonce_account: Seq<char>, nonce_authority: Seq<char> },
    WithdrawNonceAccount { nonce_account: Seq<char>, recipient_account: Seq<char>, nonce_authority: Seq<char> },
    InitializeNonceAccount { nonce_account: Seq<char> },
    AuthorizeNonceAccount { nonce_account: Seq<char>, nonce_authority: Seq<char> },
    Allocate { account: Seq<char> },
    AllocateWithSeed { allocated_account: Seq<char> },
    AssignWithSeed { assigned_account: Seq<char> },
    TransferWithSeed { funding_account: Seq<char>, base_account: Seq<char>, recipient_account: Seq<char> },
    UpgradeNonceAccount { nonce_account: Seq<char> },
}

impl View for ResolvedAccounts {
    type V = ResolvedView;

    open spec fn view(&self) -> ResolvedView {
        match self {
            ResolvedAccounts::CreateAccount { funding_account, new_account } => (ResolvedView::CreateAccount {
                funding_account: funding_account@,
                new_account: new_account@,
            }),
            ResolvedAccounts::Assign { assigned_account } => (ResolvedView::Assign {
                assigned_account: assigned_account@,
            }),
            ResolvedAccounts::Transfer { funding_account, recipient_account } => (ResolvedView::Transfer {
                funding_account: funding_account@,
                recipient_account: recipient_account@,
            }),
            ResolvedAccounts::CreateAccountWithSeed { funding_account, created_account } => (ResolvedView::CreateAccountWithSeed {
                funding_account: funding_account@,
                created_account: created_account@,
            }),
            ResolvedAccounts::AdvanceNonceAccount { nonce_account, nonce_authority } => (ResolvedView::AdvanceNonceAccount {
                nonce_account: nonce_account@,
                nonce_authority: nonce_authority@,
            }),
            ResolvedAccounts::WithdrawNonceAccount { nonce_account, recipient_account, nonce_authority } => (ResolvedView::WithdrawNonceAccount {
                nonce_account: nonce_account@,
                recipient_account: recipient_account@,
                nonce_authority: nonce_authority@,
            }),
            ResolvedAccounts::InitializeNonceAccount { nonce_account } => (ResolvedView::InitializeNonceAccount {
                nonce_account: nonce_account@,
            }),
            ResolvedAccounts::AuthorizeNonceAccount { nonce_account, nonce_authority } => (ResolvedView::AuthorizeNonceAccount {
                nonce_account: nonce_account@,
                nonce_authority: nonce_authority@,
            }),
            ResolvedAccounts::Allocate { account } => (ResolvedView::Allocate { account: account@ }),
            ResolvedAccounts::AllocateWithSeed { allocated_account } => (ResolvedView::AllocateWithSeed {
                allocated_account: allocated_account@,
            }),
            ResolvedAccounts::AssignWithSeed { assigned_account } => (ResolvedView::AssignWithSeed {
                assigned_account: assigned_account@,
            }),
            ResolvedAccounts::TransferWithSeed { funding_account, base_account, recipient_account } => (ResolvedView::TransferWithSeed {
                funding_account: funding_account@,
                base_account: base_account@,
                recipient_account: recipient_account@,
            }),
            ResolvedAccounts::UpgradeNonceAccount { nonce_account } => (ResolvedView::UpgradeNonceAccount {
                nonce_account: nonce_account@,
            }),
        }
    }
}

/// The smallest number of account indices each variant requires.
pub open spec fn min_arity(iv: InstructionView) -> int {
    match iv {
        InstructionView::CreateAccount { .. } => 2,
        InstructionView::Assign { .. } => 1,
        InstructionView::Transfer { .. } => 2,
        InstructionView::CreateAccountWithSeed { .. } => 2,
        InstructionView::AdvanceNonceAccount => 3,
        InstructionView::WithdrawNonceAccount { .. } => 5,
        InstructionView::InitializeNonceAccount { .. } => 1,
        InstructionView::AuthorizeNonceAccount { .. } => 2,
        InstructionView::Allocate { .. } => 1,
        InstructionView::AllocateWithSeed { .. } => 1,
        InstructionView::AssignWithSeed { .. } => 1,
        InstructionView::TransferWithSeed { .. } => 3,
        InstructionView::UpgradeNonceAccount => 1,
    }
}

/// The key text the index at role position `pos` refers to, or out-of-range.
pub open spec fn key_at(indices: Seq<u32>, table: Seq<Seq<u8>>, pos: int) -> Result<
    Seq<char>,
    ResolveError,
>
    recommends
        0 <= pos < indices.len(),
{
    if indices[pos] < table.len() {
        Ok(base58_of(table[indices[pos] as int]))
    } else {
        Err(ResolveError::AccountIndexOutOfRange)
    }
}

/// One role at position `p0`, behind an arity check for `n` indices.
pub open spec fn roles1(indices: Seq<u32>, table: Seq<Seq<u8>>, n: int, p0: int) -> Result<
    Seq<char>,
    ResolveError,
> {
    if indices.len() < n {
        Err(ResolveError::AccountArityMismatch)
    } else {
        key_at(indices, table, p0)
    }
}

/// Two roles at positions `p0`, `p1`, behind an arity check for `n` indices.
pub open spec fn roles2(indices: Seq<u32>, table: Seq<Seq<u8>>, n: int, p0: int, p1: int) -> Result<
    (Seq<char>, Seq<char>),
    ResolveError,
> {
    if indices.len() < n {
        Err(ResolveError::AccountArityMismatch)
    } else {
        match (key_at(indices, table, p0), key_at(indices, table, p1)) {
            (Ok(a), Ok(b)) => Ok((a, b)),
            (Err(e), _) => Err(e),
            (_, Err(e)) => Err(e),
        }
    }
}

/// Three roles at positions `p0`, `p1`, `p2`, behind an arity check for `n`
/// indices.
pub open spec fn roles3(
    indices: Seq<u32>,
    table: Seq<Seq<u8>>,
    n: int,
    p0: int,
    p1: int,
    p2: int,
) -> Result<(Seq<char>, Seq<char>, Seq<char>), ResolveError> {
    if indices.len() < n {
        Err(ResolveError::AccountArityMismatch)
    } else {
        match (key_at(indices, table, p0), key_at(indices, table, p1), key_at(indices, table, p2)) {
            (Ok(a), Ok(b), Ok(c)) => Ok((a, b, c)),
            (Err(e), _, _) => Err(e),
            (_, Err(e), _) => Err(e),
            (_, _, Err(e)) => Err(e),
        }
    }
}

/// What resolving yields: the variant's arity check, then each used position
/// looked up in role order, then the roles of the protocol-fixed mapping.
pub open spec fn resolve_spec(iv: InstructionView, indices: Seq<u32>, table: Seq<Seq<u8>>) -> Result<
    ResolvedView,
    ResolveError,
> {
    match iv {
        InstructionView::CreateAccount { .. } => match roles2(indices, table, 2, 0, 1) {
            Ok(t) => Ok(ResolvedView::CreateAccount { funding_account: t.0, new_account: t.1 }),
            Err(e) => Err(e),
        },
        InstructionView::Assign { .. } => match roles1(indices, table, 1, 0) {
            Ok(a) => Ok(ResolvedView::Assign { assigned_account: a }),
            Err(e) => Err(e),
        },
        InstructionView::Transfer { .. } => match roles2(indices, table, 2, 0, 1) {
            Ok(t) => Ok(ResolvedView::Transfer { funding_account: t.0, recipient_account: t.1 }),
            Err(e) => Err(e),
        },
        InstructionView::CreateAccountWithSeed { .. } => match roles2(indices, table, 2, 0, 1) {
            Ok(t) => Ok(ResolvedView::CreateAccountWithSeed {
                funding_account: t.0,
                created_account: t.1,
            }),
            Err(e) => Err(e),
        },
        InstructionView::AdvanceNonceAccount => match roles2(indices, table, 3, 0, 2) {
            Ok(t) => Ok(ResolvedView::AdvanceNonceAccount { nonce_account: t.0, nonce_authority: t.1 }),
            Err(e) => Err(e),
        },
        InstructionView::WithdrawNonceAccount { .. } => match roles3(indices, table, 5, 0, 1, 4) {
            Ok(t) => Ok(ResolvedView::WithdrawNonceAccount {
                nonce_account: t.0,
                recipient_account: t.1,
                nonce_authority: t.2,
            }),
            Err(e) => Err(e),
        },
        InstructionView::InitializeNonceAccount { .. } => match roles1(indices, table, 1, 0) {
            Ok(a) => Ok(ResolvedView::InitializeNonceAccount { nonce_account: a }),
            Err(e) => Err(e),
        },
        InstructionView::AuthorizeNonceAccount { .. } => match roles2(indices, table, 2, 0, 1) {
            Ok(t) => Ok(ResolvedView::AuthorizeNonceAccount {
                nonce_account: t.0,
                nonce_authority: t.1,
            }),
            Err(e) => Err(e),
        },
        InstructionView::Allocate { .. } => match roles1(indices, table, 1, 0) {
            Ok(a) => Ok(ResolvedView::Allocate { account: a }),
            Err(e) => Err(e),
        },
        InstructionView::AllocateWithSeed { .. } => match roles1(indices, table, 1, 0) {
            Ok(a) => Ok(ResolvedView::AllocateWithSeed { allocated_account: a }),
            Err(e) => Err(e),
        },
        InstructionView::AssignWithSeed { .. } => match roles1(indices, table, 1, 0) {
            Ok(a) => Ok(ResolvedView::AssignWithSeed { assigned_account: a }),
            Err(e) => Err(e),
        },
        InstructionView::TransferWithSeed { .. } => match roles3(indices, table, 3, 0, 1, 2) {
            Ok(t) => Ok(ResolvedView::TransferWithSeed {
                funding_account: t.0,
                base_account: t.1,
                recipient_account: t.2,
            }),
            Err(e) => Err(e),
        },
        InstructionView::UpgradeNonceAccount => match roles1(indices, table, 1, 0) {
            Ok(a) => Ok(ResolvedView::UpgradeNonceAccount { nonce_account: a }),
            Err(e) => Err(e),
        },
    }
}

pub open spec fn resolve_result_view(r: Result<ResolvedAccounts, ResolveError>) -> Result<
    ResolvedView,
    ResolveError,
> {
    match r {
        Ok(ra) => Ok(ra@),
        Err(e) => Err(e),
    }
}

fn lookup_key(indices: &Vec<u32>, table: &AccountTable, pos: usize) -> (r: Result<
    String,
    ResolveError,
>)
    requires
        pos < indices@.len(),
    ensures
        match r {
            Ok(s) => key_at(indices@, table@, pos as int) == Ok::<Seq<char>, ResolveError>(s@),
            Err(e) => key_at(indices@, table@, pos as int) == Err::<Seq<char>, ResolveError>(e),
        },
{
    let idx = indices[pos];
    match table.get(idx as usize) {
        Ok(k) => Ok(encode_base58(&k.bytes)),
        Err(e) => Err(e),
    }
}

fn get1(indices: &Vec<u32>, table: &AccountTable, n: usize, p0: usize) -> (r: Result<
    String,
    ResolveError,
>)
    requires
        p0 < n,
    ensures
        match r {
            Ok(s) => roles1(indices@, table@, n as int, p0 as int) == Ok::<Seq<char>, ResolveError>(
                s@,
            ),
            Err(e) => roles1(indices@, table@, n as int, p0 as int) == Err::<
                Seq<char>,
                ResolveError,
            >(e),
        },
{
    if indices.len() < n {
        return Err(ResolveError::AccountArityMismatch);
    }
    lookup_key(indices, table, p0)
}

fn get2(indices: &Vec<u32>, table: &AccountTable, n: usize, p0: usize, p1: usize) -> (r: Result<
    (String, String),
    ResolveError,
>)
    requires
        p0 < n,
        p1 < n,
    ensures
        match r {
            Ok(t) => roles2(indices@, table@, n as int, p0 as int, p1 as int) == Ok::<
                (Seq<char>, Seq<char>),
                ResolveError,
            >((t.0@, t.1@)),
            Err(e) => roles2(indices@, table@, n as int, p0 as int, p1 as int) == Err::<
                (Seq<char>, Seq<char>),
                ResolveError,
            >(e),
        },
{
    if indices.len() < n {
        return Err(ResolveError::AccountArityMismatch);
    }
    let a = match lookup_key(indices, table, p0) {
        Ok(s) => s,
        Err(e) => return Err(e),
    };
    let b = match lookup_key(indices, table, p1) {
        Ok(s) => s,
        Err(e) => return Err(e),
    };
    Ok((a, b))
}

fn get3(indices: &Vec<u32>, table: &AccountTable, n: usize, p0: usize, p1: usize, p2: usize) -> (r:
    Result<(String, String, String), ResolveError>)
    requires
        p0 < n,
        p1 < n,
        p2 < n,
    ensures
        match r {
            Ok(t) => roles3(indices@, table@, n as int, p0 as int, p1 as int, p2 as int) == Ok::<
                (Seq<char>, Seq<char>, Seq<char>),
                ResolveError,
            >((t.0@, t.1@, t.2@)),
            Err(e) => roles3(indices@, table@, n as int, p0 as int, p1 as int, p2 as int) == Err::<
                (Seq<char>, Seq<char>, Seq<char>),
                ResolveError,
            >(e),
        },
{
    if indices.len() < n {
        return Err(ResolveError::AccountArityMismatch);
    }
    let a = match lookup_key(indices, table, p0) {
        Ok(s) => s,
        Err(e) => return Err(e),
    };
    let b = match lookup_key(indices, table, p1) {
        Ok(s) => s,
        Err(e) => return Err(e),
    };
    let c = match lookup_key(indices, table, p2) {
        Ok(s) => s,
        Err(e) => return Err(e),
    };
    Ok((a, b, c))
}

/// Resolve the positional account list of one decoded instruction through
/// the account table. The result is exactly `resolve_spec` of the views.
#[verifier::rlimit(100)]
pub fn resolve(decoded: &SystemInstruction, account_indices: &Vec<u32>, table: &AccountTable) -> (r:
    Result<ResolvedAccounts, ResolveError>)
    ensures
        resolve_result_view(r) == resolve_spec(decoded@, account_indices@, table@),
{
    match decoded {
        SystemInstruction::CreateAccount(_) => match get2(account_indices, table, 2, 0, 1) {
            Ok(t) => Ok(ResolvedAccounts::CreateAccount { funding_account: t.0, new_account: t.1 }),
            Err(e) => Err(e),
        },
        SystemInstruction::Assign(_) => match get1(account_indices, table, 1, 0) {
            Ok(a) => Ok(ResolvedAccounts::Assign { assigned_account: a }),
            Err(e) => Err(e),
        },
        SystemInstruction::Transfer(_) => match get2(account_indices, table, 2, 0, 1) {
            Ok(t) => Ok(ResolvedAccounts::Transfer { funding_account: t.0, recipient_account: t.1 }),
            Err(e) => Err(e),
        },
        SystemInstruction::CreateAccountWithSeed(_) => match get2(account_indices, table, 2, 0, 1) {
            Ok(t) => Ok(ResolvedAccounts::CreateAccountWithSeed {
                funding_account: t.0,
                created_account: t.1,
            }),
            Err(e) => Err(e),
        },
        SystemInstruction::AdvanceNonceAccount => match get2(account_indices, table, 3, 0, 2) {
            Ok(t) => Ok(ResolvedAccounts::AdvanceNonceAccount {
                nonce_account: t.0,
                nonce_authority: t.1,
            }),
            Err(e) => Err(e),
        },
        SystemInstruction::WithdrawNonceAccount(_) => match get3(account_indices, table, 5, 0, 1, 4) {
            Ok(t) => Ok(ResolvedAccounts::WithdrawNonceAccount {
                nonce_account: t.0,
                recipient_account: t.1,
                nonce_authority: t.2,
            }),
            Err(e) => Err(e),
        },
        SystemInstruction::InitializeNonceAccount(_) => match get1(account_indices, table, 1, 0) {
            Ok(a) => Ok(ResolvedAccounts::InitializeNonceAccount { nonce_account: a }),
            Err(e) => Err(e),
        },
        SystemInstruction::AuthorizeNonceAccount(_) => match get2(account_indices, table, 2, 0, 1) {
            Ok(t) => Ok(ResolvedAccounts::AuthorizeNonceAccount {
                nonce_account: t.0,
                nonce_authority: t.1,
            }),
            Err(e) => Err(e),
        },
        SystemInstruction::Allocate(_) => match get1(account_indices, table, 1, 0) {
            Ok(a) => Ok(ResolvedAccounts::Allocate { account: a }),
            Err(e) => Err(e),
        },
        SystemInstruction::AllocateWithSeed(_) => match get1(account_indices, table, 1, 0) {
            Ok(a) => Ok(ResolvedAccounts::AllocateWithSeed { allocated_account: a }),
            Err(e) => Err(e),
        },
        SystemInstruction::AssignWithSeed(_) => match get1(account_indices, table, 1, 0) {
            Ok(a) => Ok(ResolvedAccounts::AssignWithSeed { assigned_account: a }),
            Err(e) => Err(e),
        },
        SystemInstruction::TransferWithSeed(_) => match get3(account_indices, table, 3, 0, 1, 2) {
            Ok(t) => Ok(ResolvedAccounts::TransferWithSeed {
                funding_account: t.0,
                base_account: t.1,
                recipient_account: t.2,
            }),
            Err(e) => Err(e),
        },
        SystemInstruction::UpgradeNonceAccount => match get1(account_indices, table, 1, 0) {
            Ok(a) => Ok(ResolvedAccounts::UpgradeNonceAccount { nonce_account: a }),
            Err(e) => Err(e),
        },
    }
}

} // verus!
