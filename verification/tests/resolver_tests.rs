use system_program_events::resolver::resolve;
use system_program_events::{
    AccountTable, Pubkey, ResolveError, ResolvedAccounts, SystemInstruction,
};
use system_program_events::system_program::Transfer;

fn table(marks: &[u8]) -> AccountTable {
    AccountTable {
        keys: marks.iter().map(|&m| Pubkey { bytes: vec![m; 32] }).collect(),
    }
}

fn text(mark: u8) -> String {
    bs58::encode(vec![mark; 32]).into_string()
}

#[test]
fn resolve_transfer_roles() {
    let decoded = SystemInstruction::Transfer(Transfer { lamports: 500 });
    let t = table(&[10, 20, 30]);
    let resolved = resolve(&decoded, &vec![2, 0], &t).unwrap();
    assert_eq!(
        resolved,
        ResolvedAccounts::Transfer {
            funding_account: text(30),
            recipient_account: text(10),
        }
    );
}

#[test]
fn resolve_arity_mismatch() {
    let decoded = SystemInstruction::Transfer(Transfer { lamports: 500 });
    let t = table(&[10, 20, 30]);
    assert_eq!(
        resolve(&decoded, &vec![0], &t),
        Err(ResolveError::AccountArityMismatch)
    );
}

#[test]
fn resolve_index_out_of_range() {
    let decoded = SystemInstruction::Transfer(Transfer { lamports: 500 });
    let t = table(&[10, 20]);
    assert_eq!(
        resolve(&decoded, &vec![0, 5], &t),
        Err(ResolveError::AccountIndexOutOfRange)
    );
}

#[test]
fn resolve_advance_nonce_skips_blockhash_position() {
    let decoded = SystemInstruction::AdvanceNonceAccount;
    let t = table(&[1, 2, 3, 4]);
    let resolved = resolve(&decoded, &vec![3, 0, 1], &t).unwrap();
    assert_eq!(
        resolved,
        ResolvedAccounts::AdvanceNonceAccount {
            nonce_account: text(4),
            nonce_authority: text(2),
        }
    );
}

#[test]
fn resolve_withdraw_nonce_requires_five() {
    let decoded = SystemInstruction::WithdrawNonceAccount(9);
    let t = table(&[1, 2, 3, 4, 5]);
    assert_eq!(
        resolve(&decoded, &vec![0, 1, 2, 3], &t),
        Err(ResolveError::AccountArityMismatch)
    );
    let resolved = resolve(&decoded, &vec![0, 1, 2, 3, 4], &t).unwrap();
    assert_eq!(
        resolved,
        ResolvedAccounts::WithdrawNonceAccount {
            nonce_account: text(1),
            recipient_account: text(2),
            nonce_authority: text(5),
        }
    );
}
