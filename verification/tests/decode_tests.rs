use system_program_events::{DecodeError, SystemInstruction};

fn tag(t: u32) -> Vec<u8> {
    t.to_le_bytes().to_vec()
}

fn le64(v: u64) -> Vec<u8> {
    v.to_le_bytes().to_vec()
}

fn key(b: u8) -> Vec<u8> {
    vec![b; 32]
}

fn seed(text: &str) -> Vec<u8> {
    let mut out = le64(text.len() as u64);
    out.extend_from_slice(text.as_bytes());
    out
}

fn pk(b: u8) -> system_program_events::Pubkey {
    system_program_events::Pubkey { bytes: key(b) }
}

#[test]
fn decode_create_account() {
    let mut data = tag(0);
    data.extend(le64(7));
    data.extend(le64(9));
    data.extend(key(3));
    match SystemInstruction::unpack(&data).unwrap() {
        SystemInstruction::CreateAccount(p) => {
            assert_eq!(p.lamports, 7);
            assert_eq!(p.space, 9);
            assert_eq!(p.owner, pk(3));
        }
        other => panic!("wrong variant: {:?}", other),
    }
}

#[test]
fn decode_assign() {
    let mut data = tag(1);
    data.extend(key(5));
    match SystemInstruction::unpack(&data).unwrap() {
        SystemInstruction::Assign(p) => assert_eq!(p.owner, pk(5)),
        other => panic!("wrong variant: {:?}", other),
    }
}

#[test]
fn decode_transfer() {
    let mut data = tag(2);
    data.extend(le64(500));
    match SystemInstruction::unpack(&data).unwrap() {
        SystemInstruction::Transfer(p) => assert_eq!(p.lamports, 500),
        other => panic!("wrong variant: {:?}", other),
    }
}

#[test]
fn decode_create_account_with_seed() {
    let mut data = tag(3);
    data.extend(key(4));
    data.extend(seed("hello"));
    data.extend(le64(11));
    data.extend(le64(13));
    data.extend(key(6));
    match SystemInstruction::unpack(&data).unwrap() {
        SystemInstruction::CreateAccountWithSeed(p) => {
            assert_eq!(p.base, pk(4));
            assert_eq!(p.seed, "hello");
            assert_eq!(p.lamports, 11);
            assert_eq!(p.space, 13);
            assert_eq!(p.owner, pk(6));
        }
        other => panic!("wrong variant: {:?}", other),
    }
}

#[test]
fn decode_advance_nonce_account() {
    let data = tag(4);
    match SystemInstruction::unpack(&data).unwrap() {
        SystemInstruction::AdvanceNonceAccount => {}
        other => panic!("wrong variant: {:?}", other),
    }
}

#[test]
fn decode_withdraw_nonce_account() {
    let mut data = tag(5);
    data.extend(le64(42));
    match SystemInstruction::unpack(&data).unwrap() {
        SystemInstruction::WithdrawNonceAccount(lamports) => assert_eq!(lamports, 42),
        other => panic!("wrong variant: {:?}", other),
    }
}

#[test]
fn decode_initialize_nonce_account() {
    let mut data = tag(6);
    data.extend(key(8));
    match SystemInstruction::unpack(&data).unwrap() {
        SystemInstruction::InitializeNonceAccount(k) => assert_eq!(k, pk(8)),
        other => panic!("wrong variant: {:?}", other),
    }
}

#[test]
fn decode_authorize_nonce_account() {
    let mut data = tag(7);
    data.extend(key(9));
    match SystemInstruction::unpack(&data).unwrap() {
        SystemInstruction::AuthorizeNonceAccount(k) => assert_eq!(k, pk(9)),
        other => panic!("wrong variant: {:?}", other),
    }
}

#[test]
fn decode_allocate() {
    let mut data = tag(8);
    data.extend(le64(1024));
    match SystemInstruction::unpack(&data).unwrap() {
        SystemInstruction::Allocate(p) => assert_eq!(p.space, 1024),
        other => panic!("wrong variant: {:?}", other),
    }
}

#[test]
fn decode_allocate_with_seed() {
    let mut data = tag(9);
    data.extend(key(2));
    data.extend(seed("sd"));
    data.extend(le64(64));
    data.extend(key(7));
    match SystemInstruction::unpack(&data).unwrap() {
        SystemInstruction::AllocateWithSeed(p) => {
            assert_eq!(p.base, pk(2));
            assert_eq!(p.seed, "sd");
            assert_eq!(p.space, 64);
            assert_eq!(p.owner, pk(7));
        }
        other => panic!("wrong variant: {:?}", other),
    }
}

#[test]
fn decode_assign_with_seed() {
    let mut data = tag(10);
    data.extend(key(2));
    data.extend(seed("x"));
    data.extend(key(7));
    match SystemInstruction::unpack(&data).unwrap() {
        SystemInstruction::AssignWithSeed(p) => {
            assert_eq!(p.base, pk(2));
            assert_eq!(p.seed, "x");
            assert_eq!(p.owner, pk(7));
        }
        other => panic!("wrong variant: {:?}", other),
    }
}

#[test]
fn decode_transfer_with_seed() {
    let mut data = tag(11);
    data.extend(le64(77));
    data.extend(seed("from"));
    data.extend(key(7));
    match SystemInstruction::unpack(&data).unwrap() {
        SystemInstruction::TransferWithSeed(p) => {
            assert_eq!(p.lamports, 77);
            assert_eq!(p.from_seed, "from");
            assert_eq!(p.from_owner, pk(7));
        }
        other => panic!("wrong variant: {:?}", other),
    }
}

#[test]
fn decode_upgrade_nonce_account() {
    let data = tag(12);
    match SystemInstruction::unpack(&data).unwrap() {
        SystemInstruction::UpgradeNonceAccount => {}
        other => panic!("wrong variant: {:?}", other),
    }
}

#[test]
fn decode_is_deterministic() {
    let mut data = tag(3);
    data.extend(key(4));
    data.extend(seed("abc"));
    data.extend(le64(1));
    data.extend(le64(2));
    data.extend(key(6));
    let a = SystemInstruction::unpack(&data);
    let b = SystemInstruction::unpack(&data);
    assert_eq!(a, b);
}

#[test]
fn decode_unknown_discriminant() {
    assert_eq!(
        SystemInstruction::unpack(&tag(13)),
        Err(DecodeError::UnknownDiscriminant)
    );
    assert_eq!(
        SystemInstruction::unpack(&tag(9999)),
        Err(DecodeError::UnknownDiscriminant)
    );
}

#[test]
fn decode_truncated_discriminant() {
    assert_eq!(
        SystemInstruction::unpack(&vec![2, 0]),
        Err(DecodeError::TruncatedData)
    );
    assert_eq!(
        SystemInstruction::unpack(&Vec::new()),
        Err(DecodeError::TruncatedData)
    );
}

#[test]
fn decode_truncated_fixed_fields() {
    let mut data = tag(0);
    data.extend(le64(7));
    data.extend(le64(9));
    data.extend(key(3));
    for n in 0..data.len() {
        let cut = data[..n].to_vec();
        assert_eq!(
            SystemInstruction::unpack(&cut),
            Err(DecodeError::TruncatedData),
            "length {}",
            n
        );
    }
}

#[test]
fn decode_truncated_seed_variant() {
    let mut data = tag(3);
    data.extend(key(4));
    data.extend(seed("hello"));
    data.extend(le64(11));
    data.extend(le64(13));
    data.extend(key(6));
    for n in 0..data.len() {
        let cut = data[..n].to_vec();
        assert_eq!(
            SystemInstruction::unpack(&cut),
            Err(DecodeError::TruncatedData),
            "length {}",
            n
        );
    }
}

#[test]
fn decode_seed_length_exceeds_remaining() {
    let mut data = tag(10);
    data.extend(key(2));
    data.extend(le64(1000));
    data.extend_from_slice(b"xy");
    assert_eq!(
        SystemInstruction::unpack(&data),
        Err(DecodeError::TruncatedData)
    );
}

#[test]
fn decode_seed_invalid_utf8() {
    let mut data = tag(10);
    data.extend(key(2));
    data.extend(le64(2));
    data.extend_from_slice(&[0xff, 0xfe]);
    data.extend(key(7));
    assert_eq!(
        SystemInstruction::unpack(&data),
        Err(DecodeError::InvalidSeedEncoding)
    );
}

#[test]
fn decode_ignores_trailing_bytes() {
    let mut data = tag(2);
    data.extend(le64(500));
    data.extend_from_slice(&[9, 9, 9]);
    match SystemInstruction::unpack(&data).unwrap() {
        SystemInstruction::Transfer(p) => assert_eq!(p.lamports, 500),
        other => panic!("wrong variant: {:?}", other),
    }
}
