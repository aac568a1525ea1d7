//! The event assembler: one decoded instruction and its resolved accounts
//! merge into one typed event record, with every key field rendered as
//! base-58 text. Seed text is passed through unchanged for
//! `CreateAccountWithSeed`; the sibling variants emit their seed's bytes in
//! base-58 text, reproducing the protocol's established output.

use vstd::prelude::*;
use vstd::string::StrSliceExecFns;
use vstd::utf8::encode_utf8;

use crate::pubkey::{base58_of, encode_base58};
use crate::resolver::{ResolvedAccounts, ResolvedView};
use crate::system_program::{InstructionView, SystemInstruction};

verus! {

/// One typed event: the data-derived fields of a decoded variant merged
/// with its resolved account roles, all keys as base-58 text.
#[derive(Clone, Debug, PartialEq, Eq)]
pub enum Event {
    CreateAccount {
        funding_account: String,
        new_account: String,
        lamports: u64,
        owner: String,
        space: u64,
    },
    Assign { assigned_account: String, owner: String },
    Transfer { funding_account: String, recipient_account: String, lamports: u64 },
    CreateAccountWithSeed {
        funding_account: String,
        created_account: String,
        base_account: String,
        seed: String,
        lamports: u64,
        space: u64,
        owner: String,
    },
    AdvanceNonceAccount { nonce_account: String, nonce_authority: String },
    WithdrawNonceAccount {
        nonce_account: String,
        recipient_account: String,
        nonce_authority: String,
        lamports: u64,
    },
    InitializeNonceAccount { nonce_account: String, nonce_authority: String },
    AuthorizeNonceAccount {
        nonce_account: String,
        nonce_authority: String,
        new_nonce_authority: String,
    },
    Allocate { account: String, space: u64 },
    AllocateWithSeed {
        allocated_account: String,
        base_account: String,
        seed: String,
        owner: String,
        space: u64,
    },
    AssignWithSeed { assigned_account: String, base_account: String, owner: String, seed: String },
    TransferWithSeed {
        funding_account: String,
        base_account: String,
        recipient_account: String,
        from_owner: String,
        from_seed: String,
        lamports: u64,
    },
    UpgradeNonceAccount { nonce_account: String },
}

/// The mathematical shape of an event: text fields as character sequences.
#[verifier::ext_equal]
pub enum EventView {
    CreateAccount {
        funding_account: Seq<char>,
        new_account: Seq<char>,
        lamports: u64,
        owner: Seq<char>,
        space: u64,
    },
    Assign { assigned_account: Seq<char>, owner: Seq<char> },
    Transfer { funding_account: Seq<char>, recipient_account: Seq<char>, lamports: u64 },
    CreateAccountWithSeed {
        funding_account: Seq<char>,
        created_account: Seq<char>,
        base_account: Seq<char>,
        seed: Seq<char>,
        lamports: u64,
        space: u64,
        owner: Seq<char>,
    },
    AdvanceNonceAccount { nonce_account: Seq<char>, nonce_authority: Seq<char> },
    WithdrawNonceAccount {
        nonce_account: Seq<char>,
        recipient_account: Seq<char>,
        nonce_authority: Seq<char>,
        lamports: u64,
    },
    InitializeNonceAccount { nonce_account: Seq<char>, nonce_authority: Seq<char> },
    AuthorizeNonceAccount {
        nonce_account: Seq<char>,
        nonce_authority: Seq<char>,
        new_nonce_authority: Seq<char>,
    },
    Allocate { account: Seq<char>, space: u64 },
    AllocateWithSeed {
        allocated_account: Seq<char>,
        base_account: Seq<char>,
        seed: Seq<char>,
        owner: Seq<char>,
        space: u64,
    },
    AssignWithSeed {
        assigned_account: Seq<char>,
        base_account: Seq<char>,
        owner: Seq<char>,
        seed: Seq<char>,
    },
    TransferWithSeed {
        funding_account: Seq<char>,
        base_account: Seq<char>,
        recipient_account: Seq<char>,
        from_owner: Seq<char>,
        from_seed: Seq<char>,
        lamports: u64,
    },
    UpgradeNonceAccount { nonce_account: Seq<char> },
}

impl View for Event {
    type V = EventView;

    open spec fn view(&self) -> EventView {
        match self {
            Event::CreateAccount { funding_account, new_account, lamports, owner, space } => (EventView::CreateAccount {
                funding_account: funding_account@,
                new_account: new_account@,
                lamports: *lamports,
                owner: owner@,
                space: *space,
            }),
            Event::Assign { assigned_account, owner } => (EventView::Assign {
                assigned_account: assigned_account@,
                owner: owner@,
            }),
            Event::Transfer { funding_account, recipient_account, lamports } => (EventView::Transfer {
                funding_account: funding_account@,
                recipient_account: recipient_account@,
                lamports: *lamports,
            }),
            Event::CreateAccountWithSeed {
                funding_account,
                created_account,
                base_account,
                seed,
                lamports,
                space,
                owner,
            } => (EventView::CreateAccountWithSeed {
                funding_account: funding_account@,
                created_account: created_account@,
                base_account: base_account@,
                seed: seed@,
                lamports: *lamports,
                space: *space,
                owner: owner@,
            }),
            Event::AdvanceNonceAccount { nonce_account, nonce_authority } => (EventView::AdvanceNonceAccount {
                nonce_account: nonce_account@,
                nonce_authority: nonce_authority@,
            }),
            Event::WithdrawNonceAccount {
                nonce_account,
                recipient_account,
                nonce_authority,
                lamports,
            } => (EventView::WithdrawNonceAccount {
                nonce_account: nonce_account@,
                recipient_account: recipient_account@,
                nonce_authority: nonce_authority@,
                lamports: *lamports,
            }),
            Event::InitializeNonceAccount { nonce_account, nonce_authority } => (EventView::InitializeNonceAccount {
                nonce_account: nonce_account@,
                nonce_authority: nonce_authority@,
            }),
            Event::AuthorizeNonceAccount {
                nonce_account,
                nonce_authority,
                new_nonce_authority,
            } => (EventView::AuthorizeNonceAccount {
                nonce_account: nonce_account@,
                nonce_authority: nonce_authority@,
                new_nonce_authority: new_nonce_authority@,
            }),
            Event::Allocate { account, space } => (EventView::Allocate {
                account: account@,
                space: *space,
            }),
            Event::AllocateWithSeed { allocated_account, base_account, seed, owner, space } => (EventView::AllocateWithSeed {
                allocated_account: allocated_account@,
                base_account: base_account@,
                seed: seed@,
                owner: owner@,
                space: *space,
            }),
            Event::AssignWithSeed { assigned_account, base_account, owner, seed } => (EventView::AssignWithSeed {
                assigned_account: assigned_account@,
                base_account: base_account@,
                owner: owner@,
                seed: seed@,
            }),
            Event::TransferWithSeed {
                funding_account,
                base_account,
                recipient_account,
                from_owner,
                from_seed,
                lamports,
            } => (EventView::TransferWithSeed {
                funding_account: funding_account@,
                base_account: base_account@,
                recipient_account: recipient_account@,
                from_owner: from_owner@,
                from_seed: from_seed@,
                lamports: *lamports,
            }),
            Event::UpgradeNonceAccount { nonce_account } => (EventView::UpgradeNonceAccount {
                nonce_account: nonce_account@,
            }),
        }
    }
}

/// Whether a decoded instruction and a resolved account record belong to the
/// same variant, so that they can be merged.
pub open spec fn variants_match(iv: InstructionView, rv: ResolvedView) -> bool {
    match (iv, rv) {
        (InstructionView::CreateAccount { .. }, ResolvedView::CreateAccount { .. }) => true,
        (InstructionView::Assign { .. }, ResolvedView::Assign { .. }) => true,
        (InstructionView::Transfer { .. }, ResolvedView::Transfer { .. }) => true,
        (
            InstructionView::CreateAccountWithSeed { .. },
            ResolvedView::CreateAccountWithSeed { .. },
        ) => true,
        (InstructionView::AdvanceNonceAccount, ResolvedView::AdvanceNonceAccount { .. }) => true,
        (
            InstructionView::WithdrawNonceAccount { .. },
            ResolvedView::WithdrawNonceAccount { .. },
        ) => true,
        (
            InstructionView::InitializeNonceAccount { .. },
            ResolvedView::InitializeNonceAccount { .. },
        ) => true,
        (
            InstructionView::AuthorizeNonceAccount { .. },
            ResolvedView::AuthorizeNonceAccount { .. },
        ) => true,
        (InstructionView::Allocate { .. }, ResolvedView::Allocate { .. }) => true,
        (InstructionView::AllocateWithSeed { .. }, ResolvedView::AllocateWithSeed { .. }) => true,
        (InstructionView::AssignWithSeed { .. }, ResolvedView::AssignWithSeed { .. }) => true,
        (InstructionView::TransferWithSeed { .. }, ResolvedView::TransferWithSeed { .. }) => true,
        (InstructionView::UpgradeNonceAccount, ResolvedView::UpgradeNonceAccount { .. }) => true,
        _ => false,
    }
}

/// What assembling yields for matching variants: the merge of data fields
/// and account roles, keys rendered as base-58 text. The seed of
/// `CreateAccountWithSeed` is the decoded text itself; the seeds of the
/// sibling variants are the base-58 text of the seed's UTF-8 bytes.
pub open spec fn assemble_spec(iv: InstructionView, rv: ResolvedView) -> EventView {
    match (iv, rv) {
        (
            InstructionView::CreateAccount { lamports, space, owner },
            ResolvedView::CreateAccount { funding_account, new_account },
        ) => (EventView::CreateAccount {
            funding_account,
            new_account,
            lamports,
            owner: base58_of(owner),
            space,
        }),
        (InstructionView::Assign { owner }, ResolvedView::Assign { assigned_account }) => (EventView::Assign {
            assigned_account,
            owner: base58_of(owner),
        }),
        (
            InstructionView::Transfer { lamports },
            ResolvedView::Transfer { funding_account, recipient_account },
        ) => (EventView::Transfer { funding_account, recipient_account, lamports }),
        (
            InstructionView::CreateAccountWithSeed { base, seed, lamports, space, owner },
            ResolvedView::CreateAccountWithSeed { funding_account, created_account },
        ) => (EventView::CreateAccountWithSeed {
            funding_account,
            created_account,
            base_account: base58_of(base),
            seed,
            lamports,
            space,
            owner: base58_of(owner),
        }),
        (
            InstructionView::AdvanceNonceAccount,
            ResolvedView::AdvanceNonceAccount { nonce_account, nonce_authority },
        ) => (EventView::AdvanceNonceAccount { nonce_account, nonce_authority }),
        (
            InstructionView::WithdrawNonceAccount { lamports },
            ResolvedView::WithdrawNonceAccount { nonce_account, recipient_account, nonce_authority },
        ) => (EventView::WithdrawNonceAccount {
            nonce_account,
            recipient_account,
            nonce_authority,
            lamports,
        }),
        (
            InstructionView::InitializeNonceAccount { authority },
            ResolvedView::InitializeNonceAccount { nonce_account },
        ) => (EventView::InitializeNonceAccount {
            nonce_account,
            nonce_authority: base58_of(authority),
        }),
        (
            InstructionView::AuthorizeNonceAccount { new_authority },
            ResolvedView::AuthorizeNonceAccount { nonce_account, nonce_authority },
        ) => (EventView::AuthorizeNonceAccount {
            nonce_account,
            nonce_authority,
            new_nonce_authority: base58_of(new_authority),
        }),
        (InstructionView::Allocate { space }, ResolvedView::Allocate { account }) => (EventView::Allocate {
            account,
            space,
        }),
        (
            InstructionView::AllocateWithSeed { base, seed, space, owner },
            ResolvedView::AllocateWithSeed { allocated_account },
        ) => (EventView::AllocateWithSeed {
            allocated_account,
            base_account: base58_of(base),
            seed: base58_of(encode_utf8(seed)),
            owner: base58_of(owner),
            space,
        }),
        (
            InstructionView::AssignWithSeed { base, seed, owner },
            ResolvedView::AssignWithSeed { assigned_account },
        ) => (EventView::AssignWithSeed {
            assigned_account,
            base_account: base58_of(base),
            owner: base58_of(owner),
            seed: base58_of(encode_utf8(seed)),
        }),
        (
            InstructionView::TransferWithSeed { lamports, from_seed, from_owner },
            ResolvedView::TransferWithSeed { funding_account, base_account, recipient_account },
        ) => (EventView::TransferWithSeed {
            funding_account,
            base_account,
            recipient_account,
            from_owner: base58_of(from_owner),
            from_seed: base58_of(encode_utf8(from_seed)),
            lamports,
        }),
        (
            InstructionView::UpgradeNonceAccount,
            ResolvedView::UpgradeNonceAccount { nonce_account },
        ) => (EventView::UpgradeNonceAccount { nonce_account }),
        _ => arbitrary(),
    }
}

/// The base-58 text of a seed's UTF-8 bytes.
fn seed_to_base58(seed: &String) -> (r: String)
    ensures
        r@ == base58_of(encode_utf8(seed@)),
{
    let bytes = seed.as_str().as_bytes_vec();
    encode_base58(&bytes)
}

/// Merge one decoded instruction with its resolved accounts into one event.
/// Pure combination: it never fails on matching variants.
#[verifier::rlimit(100)]
pub fn assemble(decoded: SystemInstruction, resolved: ResolvedAccounts) -> (r: Event)
    requires
        variants_match(decoded@, resolved@),
    ensures
        r@ == assemble_spec(decoded@, resolved@),
{
    match (decoded, resolved) {
        (
            SystemInstruction::CreateAccount(p),
            ResolvedAccounts::CreateAccount { funding_account, new_account },
        ) => (Event::CreateAccount {
            funding_account,
            new_account,
            lamports: p.lamports,
            owner: encode_base58(&p.owner.bytes),
            space: p.space,
        }),
        (SystemInstruction::Assign(p), ResolvedAccounts::Assign { assigned_account }) => (Event::Assign {
            assigned_account,
            owner: encode_base58(&p.owner.bytes),
        }),
        (
            SystemInstruction::Transfer(p),
            ResolvedAccounts::Transfer { funding_account, recipient_account },
        ) => (Event::Transfer { funding_account, recipient_account, lamports: p.lamports }),
        (
            SystemInstruction::CreateAccountWithSeed(p),
            ResolvedAccounts::CreateAccountWithSeed { funding_account, created_account },
        ) => (Event::CreateAccountWithSeed {
            funding_account,
            created_account,
            base_account: encode_base58(&p.base.bytes),
            seed: p.seed,
            lamports: p.lamports,
            space: p.space,
            owner: encode_base58(&p.owner.bytes),
        }),
        (
            SystemInstruction::AdvanceNonceAccount,
            ResolvedAccounts::AdvanceNonceAccount { nonce_account, nonce_authority },
        ) => (Event::AdvanceNonceAccount { nonce_account, nonce_authority }),
        (
            SystemInstruction::WithdrawNonceAccount(lamports),
            ResolvedAccounts::WithdrawNonceAccount {
                nonce_account,
                recipient_account,
                nonce_authority,
            },
        ) => (Event::WithdrawNonceAccount {
            nonce_account,
            recipient_account,
            nonce_authority,
            lamports,
        }),
        (
            SystemInstruction::InitializeNonceAccount(authority),
            ResolvedAccounts::InitializeNonceAccount { nonce_account },
        ) => (Event::InitializeNonceAccount {
            nonce_account,
            nonce_authority: encode_base58(&authority.bytes),
        }),
        (
            SystemInstruction::AuthorizeNonceAccount(new_authority),
            ResolvedAccounts::AuthorizeNonceAccount { nonce_account, nonce_authority },
        ) => (Event::AuthorizeNonceAccount {
            nonce_account,
            nonce_authority,
            new_nonce_authority: encode_base58(&new_authority.bytes),
        }),
        (SystemInstruction::Allocate(p), ResolvedAccounts::Allocate { account }) => (Event::Allocate {
            account,
            space: p.space,
        }),
        (
            SystemInstruction::AllocateWithSeed(p),
            ResolvedAccounts::AllocateWithSeed { allocated_account },
        ) => (Event::AllocateWithSeed {
            allocated_account,
            base_account: encode_base58(&p.base.bytes),
            seed: seed_to_base58(&p.seed),
            owner: encode_base58(&p.owner.bytes),
            space: p.space,
        }),
        (
            SystemInstruction::AssignWithSeed(p),
            ResolvedAccounts::AssignWithSeed { assigned_account },
        ) => (Event::AssignWithSeed {
            assigned_account,
            base_account: encode_base58(&p.base.bytes),
            owner: encode_base58(&p.owner.bytes),
            seed: seed_to_base58(&p.seed),
        }),
        (
            SystemInstruction::TransferWithSeed(p),
            ResolvedAccounts::TransferWithSeed {
                funding_account,
                base_account,
                recipient_account,
            },
        ) => (Event::TransferWithSeed {
            funding_account,
            base_account,
            recipient_account,
            from_owner: encode_base58(&p.from_owner.bytes),
            from_seed: seed_to_base58(&p.from_seed),
            lamports: p.lamports,
        }),
        (
            SystemInstruction::UpgradeNonceAccount,
            ResolvedAccounts::UpgradeNonceAccount { nonce_account },
        ) => (Event::UpgradeNonceAccount { nonce_account }),
        _ => vstd::pervasive::unreached(),
    }
}

} // verus!
