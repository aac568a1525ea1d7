use system_program_events::{
    parse_block, parse_instruction, parse_transaction, AccountTable, Event, ParseError, Pubkey,
    RawInstruction, TransactionInput,
};

const SYSTEM_PROGRAM_ID: &str = "11111111111111111111111111111111";

fn zero_key() -> Pubkey {
    Pubkey { bytes: vec![0; 32] }
}

fn mark_key(m: u8) -> Pubkey {
    Pubkey { bytes: vec![m; 32] }
}

fn text(m: u8) -> String {
    bs58::encode(vec![m; 32]).into_string()
}

fn transfer_data(lamports: u64) -> Vec<u8> {
    let mut data = 2u32.to_le_bytes().to_vec();
    data.extend(lamports.to_le_bytes());
    data
}

fn create_account_data(lamports: u64, space: u64, owner: &[u8]) -> Vec<u8> {
    let mut data = 0u32.to_le_bytes().to_vec();
    data.extend(lamports.to_le_bytes());
    data.extend(space.to_le_bytes());
    data.extend_from_slice(owner);
    data
}

#[test]
fn end_to_end_create_account() {
    // funder, new account, then the system program itself in the table
    let table = AccountTable {
        keys: vec![mark_key(1), mark_key(2), zero_key()],
    };
    let ins = RawInstruction {
        program_index: 2,
        account_indices: vec![0, 1],
        data: create_account_data(1_000_000_000, 0, &[0u8; 32]),
    };
    let event = parse_instruction(&ins, &table).unwrap().unwrap();
    assert_eq!(
        event,
        Event::CreateAccount {
            funding_account: text(1),
            new_account: text(2),
            lamports: 1_000_000_000,
            owner: SYSTEM_PROGRAM_ID.to_string(),
            space: 0,
        }
    );
}

#[test]
fn end_to_end_transfer() {
    let table = AccountTable {
        keys: vec![mark_key(7), mark_key(8), zero_key()],
    };
    let ins = RawInstruction {
        program_index: 2,
        account_indices: vec![0, 1],
        data: transfer_data(500),
    };
    let event = parse_instruction(&ins, &table).unwrap().unwrap();
    assert_eq!(
        event,
        Event::Transfer {
            funding_account: text(7),
            recipient_account: text(8),
            lamports: 500,
        }
    );
}

#[test]
fn end_to_end_allocate_with_seed_encodes_seed() {
    let table = AccountTable {
        keys: vec![mark_key(3), zero_key()],
    };
    let mut data = 9u32.to_le_bytes().to_vec();
    data.extend(vec![4u8; 32]);
    data.extend(3u64.to_le_bytes());
    data.extend_from_slice(b"abc");
    data.extend(64u64.to_le_bytes());
    data.extend(vec![5u8; 32]);
    let ins = RawInstruction {
        program_index: 1,
        account_indices: vec![0],
        data,
    };
    let event = parse_instruction(&ins, &table).unwrap().unwrap();
    assert_eq!(
        event,
        Event::AllocateWithSeed {
            allocated_account: text(3),
            base_account: text(4),
            seed: bs58::encode(b"abc").into_string(),
            owner: text(5),
            space: 64,
        }
    );
}

#[test]
fn end_to_end_create_account_with_seed_keeps_raw_seed() {
    let table = AccountTable {
        keys: vec![mark_key(3), mark_key(6), zero_key()],
    };
    let mut data = 3u32.to_le_bytes().to_vec();
    data.extend(vec![4u8; 32]);
    data.extend(3u64.to_le_bytes());
    data.extend_from_slice(b"abc");
    data.extend(11u64.to_le_bytes());
    data.extend(13u64.to_le_bytes());
    data.extend(vec![5u8; 32]);
    let ins = RawInstruction {
        program_index: 2,
        account_indices: vec![0, 1],
        data,
    };
    let event = parse_instruction(&ins, &table).unwrap().unwrap();
    assert_eq!(
        event,
        Event::CreateAccountWithSeed {
            funding_account: text(3),
            created_account: text(6),
            base_account: text(4),
            seed: "abc".to_string(),
            lamports: 11,
            space: 13,
            owner: text(5),
        }
    );
}

#[test]
fn program_mismatch_is_rejected() {
    let table = AccountTable {
        keys: vec![mark_key(1), mark_key(2), mark_key(9)],
    };
    let ins = RawInstruction {
        program_index: 2,
        account_indices: vec![0, 1],
        data: transfer_data(500),
    };
    assert_eq!(
        parse_instruction(&ins, &table),
        Err(ParseError::ProgramMismatch)
    );
}

#[test]
fn ordering_keeps_stream_positions() {
    // instruction 0 and 2 belong to the system program, instruction 1 does not
    let tx = TransactionInput {
        failed: false,
        signature: "sig-1".to_string(),
        instructions: vec![
            RawInstruction {
                program_index: 2,
                account_indices: vec![0, 1],
                data: transfer_data(1),
            },
            RawInstruction {
                program_index: 3,
                account_indices: vec![0, 1],
                data: transfer_data(2),
            },
            RawInstruction {
                program_index: 2,
                account_indices: vec![1, 0],
                data: transfer_data(3),
            },
        ],
        accounts: AccountTable {
            keys: vec![mark_key(1), mark_key(2), zero_key(), mark_key(9)],
        },
    };
    let events = parse_transaction(&tx).unwrap();
    assert_eq!(events.len(), 2);
    assert_eq!(events[0].instruction_index, 0);
    assert_eq!(
        events[0].event,
        Some(Event::Transfer {
            funding_account: text(1),
            recipient_account: text(2),
            lamports: 1,
        })
    );
    assert_eq!(events[1].instruction_index, 2);
    assert_eq!(
        events[1].event,
        Some(Event::Transfer {
            funding_account: text(2),
            recipient_account: text(1),
            lamports: 3,
        })
    );
}

#[test]
fn failed_transaction_yields_no_events() {
    let tx = TransactionInput {
        failed: true,
        signature: "sig-f".to_string(),
        instructions: vec![RawInstruction {
            program_index: 1,
            account_indices: vec![0, 0],
            data: transfer_data(5),
        }],
        accounts: AccountTable {
            keys: vec![mark_key(1), zero_key()],
        },
    };
    assert_eq!(parse_transaction(&tx), Err(ParseError::FailedTransactionSkip));
    let out = parse_block(&vec![tx]);
    assert!(out.is_empty());
}

#[test]
fn malformed_instruction_skipped_siblings_kept() {
    let tx = TransactionInput {
        failed: false,
        signature: "sig-2".to_string(),
        instructions: vec![
            RawInstruction {
                program_index: 1,
                account_indices: vec![0],
                data: 99u32.to_le_bytes().to_vec(),
            },
            RawInstruction {
                program_index: 1,
                account_indices: vec![0, 0],
                data: transfer_data(8),
            },
        ],
        accounts: AccountTable {
            keys: vec![mark_key(1), zero_key()],
        },
    };
    let events = parse_transaction(&tx).unwrap();
    assert_eq!(events.len(), 1);
    assert_eq!(events[0].instruction_index, 1);
}

#[test]
fn block_keeps_transaction_indices_and_signatures() {
    let good = |sig: &str, lamports: u64| TransactionInput {
        failed: false,
        signature: sig.to_string(),
        instructions: vec![RawInstruction {
            program_index: 1,
            account_indices: vec![0, 0],
            data: transfer_data(lamports),
        }],
        accounts: AccountTable {
            keys: vec![mark_key(1), zero_key()],
        },
    };
    let empty = TransactionInput {
        failed: false,
        signature: "sig-empty".to_string(),
        instructions: Vec::new(),
        accounts: AccountTable { keys: Vec::new() },
    };
    let out = parse_block(&vec![good("sig-a", 1), empty, good("sig-b", 2)]);
    assert_eq!(out.len(), 2);
    assert_eq!(out[0].signature, "sig-a");
    assert_eq!(out[0].transaction_index, 0);
    assert_eq!(out[0].events.len(), 1);
    assert_eq!(out[1].signature, "sig-b");
    assert_eq!(out[1].transaction_index, 2);
}

#[test]
fn base58_of_system_program_key_is_all_ones() {
    let table = AccountTable {
        keys: vec![zero_key(), zero_key()],
    };
    let ins = RawInstruction {
        program_index: 1,
        account_indices: vec![0],
        data: {
            let mut d = 1u32.to_le_bytes().to_vec();
            d.extend(vec![0u8; 32]);
            d
        },
    };
    let event = parse_instruction(&ins, &table).unwrap().unwrap();
    assert_eq!(
        event,
        Event::Assign {
            assigned_account: SYSTEM_PROGRAM_ID.to_string(),
            owner: SYSTEM_PROGRAM_ID.to_string(),
        }
    );
}
