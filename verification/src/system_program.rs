//! The instruction-data decoder: a byte string becomes one of the system
//! program's thirteen instruction variants, or a decode error. The layout is
//! a 4-byte little-endian discriminant followed by the variant's fields in
//! declared order: little-endian fixed-width integers, raw 32-byte keys, and
//! length-prefixed UTF-8 seed strings (8-byte little-endian length, then
//! exactly that many bytes).

use vstd::prelude::*;
use vstd::utf8::{decode_utf8, valid_utf8};

use crate::errors::DecodeError;
use crate::pubkey::Pubkey;

verus! {

/// The value of 4 bytes read as a little-endian unsigned integer.
pub open spec fn le_u32(s: Seq<u8>) -> int
    recommends
        s.len() == 4,
{
    s[0] + s[1] * 0x100 + s[2] * 0x1_0000 + s[3] * 0x100_0000
}

/// The value of 8 bytes read as a little-endian unsigned integer.
pub open spec fn le_u64(s: Seq<u8>) -> int
    recommends
        s.len() == 8,
{
    s[0] + s[1] * 0x100 + s[2] * 0x1_0000 + s[3] * 0x100_0000 + s[4] * 0x1_0000_0000 + s[5]
        * 0x100_0000_0000 + s[6] * 0x1_0000_0000_0000 + s[7] * 0x100_0000_0000_0000
}

#[derive(Clone, Debug, PartialEq, Eq)]
pub struct CreateAccount {
    pub lamports: u64,
    pub space: u64,
    pub owner: Pubkey,
}

#[derive(Clone, Debug, PartialEq, Eq)]
pub struct Assign {
    pub owner: Pubkey,
}

#[derive(Clone, Debug, PartialEq, Eq)]
pub struct Transfer {
    pub lamports: u64,
}

#[derive(Clone, Debug, PartialEq, Eq)]
pub struct CreateAccountWithSeed {
    pub base: Pubkey,
    pub seed: String,
    pub lamports: u64,
    pub space: u64,
    pub owner: Pubkey,
}

#[derive(Clone, Debug, PartialEq, Eq)]
pub struct Allocate {
    pub space: u64,
}

#[derive(Clone, Debug, PartialEq, Eq)]
pub struct AllocateWithSeed {
    pub base: Pubkey,
    pub seed: String,
    pub space: u64,
    pub owner: Pubkey,
}

#[derive(Clone, Debug, PartialEq, Eq)]
pub struct AssignWithSeed {
    pub base: Pubkey,
    pub seed: String,
    pub owner: Pubkey,
}

#[derive(Clone, Debug, PartialEq, Eq)]
pub struct TransferWithSeed {
    pub lamports: u64,
    pub from_seed: String,
    pub from_owner: Pubkey,
}

/// The closed set of decoded instruction variants, carrying only the fields
/// read from the instruction data.
#[derive(Clone, Debug, PartialEq, Eq)]
pub enum SystemInstruction {
    CreateAccount(CreateAccount),
    Assign(Assign),
    Transfer(Transfer),
    CreateAccountWithSeed(CreateAccountWithSeed),
    AdvanceNonceAccount,
    WithdrawNonceAccount(u64),
    InitializeNonceAccount(Pubkey),
    AuthorizeNonceAccount(Pubkey),
    Allocate(Allocate),
    AllocateWithSeed(AllocateWithSeed),
    AssignWithSeed(AssignWithSeed),
    TransferWithSeed(TransferWithSeed),
    UpgradeNonceAccount,
}

/// The mathematical shape of a decoded instruction: keys as byte sequences,
/// seeds as character sequences.
#[verifier::ext_equal]
pub enum InstructionView {
    CreateAccount { lamports: u64, space: u64, owner: Seq<u8> },
    Assign { owner: Seq<u8> },
    Transfer { lamports: u64 },
    CreateAccountWithSeed { base: Seq<u8>, seed: Seq<char>, lamports: u64, space: u64, owner: Seq<u8> },
    AdvanceNonceAccount,
    WithdrawNonceAccount { lamports: u64 },
    InitializeNonceAccount { authority: Seq<u8> },
    AuthorizeNonceAccount { new_authority: Seq<u8> },
    Allocate { space: u64 },
    AllocateWithSeed { base: Seq<u8>, seed: Seq<char>, space: u64, owner: Seq<u8> },
    AssignWithSeed { base: Seq<u8>, seed: Seq<char>, owner: Seq<u8> },
    TransferWithSeed { lamports: u64, from_seed: Seq<char>, from_owner: Seq<u8> },
    UpgradeNonceAccount,
}

impl View for SystemInstruction {
    type V = InstructionView;

    open spec fn view(&self) -> InstructionView {
        match self {
            SystemInstruction::CreateAccount(p) => (InstructionView::CreateAccount {
                lamports: p.lamports,
                space: p.space,
                owner: p.owner@,
            }),
            SystemInstruction::Assign(p) => (InstructionView::Assign { owner: p.owner@ }),
            SystemInstruction::Transfer(p) => (InstructionView::Transfer { lamports: p.lamports }),
            SystemInstruction::CreateAccountWithSeed(p) => (InstructionView::CreateAccountWithSeed {
                base: p.base@,
                seed: p.seed@,
                lamports: p.lamports,
                space: p.space,
                owner: p.owner@,
            }),
            SystemInstruction::AdvanceNonceAccount => InstructionView::AdvanceNonceAccount,
            SystemInstruction::WithdrawNonceAccount(lamports) => (InstructionView::WithdrawNonceAccount {
                lamports: *lamports,
            }),
            SystemInstruction::InitializeNonceAccount(k) => (InstructionView::InitializeNonceAccount {
                authority: k@,
            }),
            SystemInstruction::AuthorizeNonceAccount(k) => (InstructionView::AuthorizeNonceAccount {
                new_authority: k@,
            }),
            SystemInstruction::Allocate(p) => (InstructionView::Allocate { space: p.space }),
            SystemInstruction::AllocateWithSeed(p) => (InstructionView::AllocateWithSeed {
                base: p.base@,
                seed: p.seed@,
                space: p.space,
                owner: p.owner@,
            }),
            SystemInstruction::AssignWithSeed(p) => (InstructionView::AssignWithSeed {
                base: p.base@,
                seed: p.seed@,
                owner: p.owner@,
            }),
            SystemInstruction::TransferWithSeed(p) => (InstructionView::TransferWithSeed {
                lamports: p.lamports,
                from_seed: p.from_seed@,
                from_owner: p.from_owner@,
            }),
            SystemInstruction::UpgradeNonceAccount => InstructionView::UpgradeNonceAccount,
        }
    }
}

/// A length-prefixed seed read at byte offset `off`: an 8-byte little-endian
/// length, then that many bytes of UTF-8 text. On success, the text and the
/// offset just past it.
pub open spec fn dec_seed(data: Seq<u8>, off: int) -> Result<(Seq<char>, int), DecodeError> {
    if data.len() < off + 8 {
        Err(DecodeError::TruncatedData)
    } else {
        let l = le_u64(data.subrange(off, off + 8));
        if l > data.len() - (off + 8) {
            Err(DecodeError::TruncatedData)
        } else if !valid_utf8(data.subrange(off + 8, off + 8 + l)) {
            Err(DecodeError::InvalidSeedEncoding)
        } else {
            Ok((decode_utf8(data.subrange(off + 8, off + 8 + l)), off + 8 + l))
        }
    }
}

pub open spec fn dec_create_account(data: Seq<u8>) -> Result<InstructionView, DecodeError> {
    if data.len() < 52 {
        Err(DecodeError::TruncatedData)
    } else {
        Ok(InstructionView::CreateAccount {
            lamports: le_u64(data.subrange(4, 12)) as u64,
            space: le_u64(data.subrange(12, 20)) as u64,
            owner: data.subrange(20, 52),
        })
    }
}

pub open spec fn dec_assign(data: Seq<u8>) -> Result<InstructionView, DecodeError> {
    if data.len() < 36 {
        Err(DecodeError::TruncatedData)
    } else {
        Ok(InstructionView::Assign { owner: data.subrange(4, 36) })
    }
}

pub open spec fn dec_transfer(data: Seq<u8>) -> Result<InstructionView, DecodeError> {
    if data.len() < 12 {
        Err(DecodeError::TruncatedData)
    } else {
        Ok(InstructionView::Transfer { lamports: le_u64(data.subrange(4, 12)) as u64 })
    }
}

pub open spec fn dec_create_account_with_seed(data: Seq<u8>) -> Result<InstructionView, DecodeError> {
    if data.len() < 36 {
        Err(DecodeError::TruncatedData)
    } else {
        match dec_seed(data, 36) {
            Err(e) => Err(e),
            Ok(se) => {
                if data.len() < se.1 + 48 {
                    Err(DecodeError::TruncatedData)
                } else {
                    Ok(InstructionView::CreateAccountWithSeed {
                        base: data.subrange(4, 36),
                        seed: se.0,
                        lamports: le_u64(data.subrange(se.1, se.1 + 8)) as u64,
                        space: le_u64(data.subrange(se.1 + 8, se.1 + 16)) as u64,
                        owner: data.subrange(se.1 + 16, se.1 + 48),
                    })
                }
            },
        }
    }
}

pub open spec fn dec_withdraw_nonce_account(data: Seq<u8>) -> Result<InstructionView, DecodeError> {
    if data.len() < 12 {
        Err(DecodeError::TruncatedData)
    } else {
        Ok(InstructionView::WithdrawNonceAccount { lamports: le_u64(data.subrange(4, 12)) as u64 })
    }
}

pub open spec fn dec_initialize_nonce_account(data: Seq<u8>) -> Result<InstructionView, DecodeError> {
    if data.len() < 36 {
        Err(DecodeError::TruncatedData)
    } else {
        Ok(InstructionView::InitializeNonceAccount { authority: data.subrange(4, 36) })
    }
}

pub open spec fn dec_authorize_nonce_account(data: Seq<u8>) -> Result<InstructionView, DecodeError> {
    if data.len() < 36 {
        Err(DecodeError::TruncatedData)
    } else {
        Ok(InstructionView::AuthorizeNonceAccount { new_authority: data.subrange(4, 36) })
    }
}

pub open spec fn dec_allocate(data: Seq<u8>) -> Result<InstructionView, DecodeError> {
    if data.len() < 12 {
        Err(DecodeError::TruncatedData)
    } else {
        Ok(InstructionView::Allocate { space: le_u64(data.subrange(4, 12)) as u64 })
    }
}

pub open spec fn dec_allocate_with_seed(data: Seq<u8>) -> Result<InstructionView, DecodeError> {
    if data.len() < 36 {
        Err(DecodeError::TruncatedData)
    } else {
        match dec_seed(data, 36) {
            Err(e) => Err(e),
            Ok(se) => {
                if data.len() < se.1 + 40 {
                    Err(DecodeError::TruncatedData)
                } else {
                    Ok(InstructionView::AllocateWithSeed {
                        base: data.subrange(4, 36),
                        seed: se.0,
                        space: le_u64(data.subrange(se.1, se.1 + 8)) as u64,
                        owner: data.subrange(se.1 + 8, se.1 + 40),
                    })
                }
            },
        }
    }
}

pub open spec fn dec_assign_with_seed(data: Seq<u8>) -> Result<InstructionView, DecodeError> {
    if data.len() < 36 {
        Err(DecodeError::TruncatedData)
    } else {
        match dec_seed(data, 36) {
            Err(e) => Err(e),
            Ok(se) => {
                if data.len() < se.1 + 32 {
                    Err(DecodeError::TruncatedData)
                } else {
                    Ok(InstructionView::AssignWithSeed {
                        base: data.subrange(4, 36),
                        seed: se.0,
                        owner: data.subrange(se.1, se.1 + 32),
                    })
                }
            },
        }
    }
}

pub open spec fn dec_transfer_with_seed(data: Seq<u8>) -> Result<InstructionView, DecodeError> {
    if data.len() < 12 {
        Err(DecodeError::TruncatedData)
    } else {
        match dec_seed(data, 12) {
            Err(e) => Err(e),
            Ok(se) => {
                if data.len() < se.1 + 32 {
                    Err(DecodeError::TruncatedData)
                } else {
                    Ok(InstructionView::TransferWithSeed {
                        lamports: le_u64(data.subrange(4, 12)) as u64,
                        from_seed: se.0,
                        from_owner: data.subrange(se.1, se.1 + 32),
                    })
                }
            },
        }
    }
}

/// What decoding a byte string yields: the variant selected by the leading
/// little-endian discriminant with its fields read in declared order, or the
/// first error met in that order.
pub open spec fn decode_spec(data: Seq<u8>) -> Result<InstructionView, DecodeError> {
    if data.len() < 4 {
        Err(DecodeError::TruncatedData)
    } else {
        let tag = le_u32(data.subrange(0, 4));
        if tag == 0 {
            dec_create_account(data)
        } else if tag == 1 {
            dec_assign(data)
        } else if tag == 2 {
            dec_transfer(data)
        } else if tag == 3 {
            dec_create_account_with_seed(data)
        } else if tag == 4 {
            Ok(InstructionView::AdvanceNonceAccount)
        } else if tag == 5 {
            dec_withdraw_nonce_account(data)
        } else if tag == 6 {
            dec_initialize_nonce_account(data)
        } else if tag == 7 {
            dec_authorize_nonce_account(data)
        } else if tag == 8 {
            dec_allocate(data)
        } else if tag == 9 {
            dec_allocate_with_seed(data)
        } else if tag == 10 {
            dec_assign_with_seed(data)
        } else if tag == 11 {
            dec_transfer_with_seed(data)
        } else if tag == 12 {
            Ok(InstructionView::UpgradeNonceAccount)
        } else {
            Err(DecodeError::UnknownDiscriminant)
        }
    }
}

/// The number of bytes a successfully decoded instruction consumes: the
/// discriminant, the fixed-width fields, and any seed with its length
/// prefix.
pub open spec fn required_len(data: Seq<u8>) -> int
    recommends
        decode_spec(data) is Ok,
{
    let t = le_u32(data.subrange(0, 4));
    if t == 0 {
        52
    } else if t == 1 {
        36
    } else if t == 2 {
        12
    } else if t == 3 {
        92 + le_u64(data.subrange(36, 44))
    } else if t == 4 {
        4
    } else if t == 5 {
        12
    } else if t == 6 {
        36
    } else if t == 7 {
        36
    } else if t == 8 {
        12
    } else if t == 9 {
        84 + le_u64(data.subrange(36, 44))
    } else if t == 10 {
        76 + le_u64(data.subrange(36, 44))
    } else if t == 11 {
        52 + le_u64(data.subrange(12, 20))
    } else {
        4
    }
}

/// Decoding is deterministic: the same bytes always yield the same result.
pub proof fn lemma_decode_deterministic(d1: Seq<u8>, d2: Seq<u8>)
    requires
        d1 == d2,
    ensures
        decode_spec(d1) == decode_spec(d2),
{
}

/// A discriminant outside the thirteen known values yields
/// `UnknownDiscriminant`.
pub proof fn lemma_unknown_discriminant(data: Seq<u8>)
    requires
        data.len() >= 4,
        le_u32(data.subrange(0, 4)) > 12,
    ensures
        decode_spec(data) == Err::<InstructionView, DecodeError>(DecodeError::UnknownDiscriminant),
{
}

/// For every seed-carrying variant: a seed length prefix whose value
/// exceeds the remaining byte count yields `TruncatedData`, and a fully
/// present seed region that is not valid UTF-8 yields
/// `InvalidSeedEncoding`.
pub proof fn lemma_seed_errors(data: Seq<u8>)
    requires
        data.len() >= 4,
        ({
            let t = le_u32(data.subrange(0, 4));
            t == 3 || t == 9 || t == 10 || t == 11
        }),
    ensures
        ({
            let t = le_u32(data.subrange(0, 4));
            let off: int = if t == 11 {
                12
            } else {
                36
            };
            &&& (data.len() >= off + 8 && le_u64(data.subrange(off, off + 8)) > data.len() - (off
                + 8) ==> decode_spec(data) == Err::<InstructionView, DecodeError>(
                DecodeError::TruncatedData,
            ))
            &&& (data.len() >= off + 8 && le_u64(data.subrange(off, off + 8)) <= data.len() - (off
                + 8) && !valid_utf8(
                data.subrange(off + 8, off + 8 + le_u64(data.subrange(off, off + 8))),
            ) ==> decode_spec(data) == Err::<InstructionView, DecodeError>(
                DecodeError::InvalidSeedEncoding,
            ))
        }),
{
}

/// Truncating a well-formed instruction's data to fewer bytes than its
/// variant requires yields `TruncatedData`.
#[verifier::rlimit(100)]
pub proof fn lemma_truncation(data: Seq<u8>, n: int)
    requires
        decode_spec(data) is Ok,
        0 <= n < required_len(data),
    ensures
        decode_spec(data.take(n)) == Err::<InstructionView, DecodeError>(DecodeError::TruncatedData),
{
    let d = data.take(n);
    if n >= 4 {
        assert(d.subrange(0, 4) =~= data.subrange(0, 4));
        let t = le_u32(data.subrange(0, 4));
        if t == 3 || t == 9 || t == 10 || t == 11 {
            let off: int = if t == 11 {
                12
            } else {
                36
            };
            let l = le_u64(data.subrange(off, off + 8));
            let end = off + 8 + l;
            if n >= off + 8 {
                assert(d.subrange(off, off + 8) =~= data.subrange(off, off + 8));
                if n >= end {
                    assert(d.subrange(off + 8, off + 8 + l) =~= data.subrange(
                        off + 8,
                        off + 8 + l,
                    ));
                }
            }
        }
    }
}

pub open spec fn decode_result_view(r: Result<SystemInstruction, DecodeError>) -> Result<
    InstructionView,
    DecodeError,
> {
    match r {
        Ok(si) => Ok(si@),
        Err(e) => Err(e),
    }
}

fn read_u32_le(data: &Vec<u8>, off: usize) -> (r: u32)
    requires
        off + 4 <= data@.len(),
    ensures
        r as int == le_u32(data@.subrange(off as int, off as int + 4)),
{
    let _n: usize = data.len();
    let b0 = data[off] as u32;
    let b1 = data[off + 1] as u32;
    let b2 = data[off + 2] as u32;
    let b3 = data[off + 3] as u32;
    proof {
        let s = data@.subrange(off as int, off as int + 4);
        assert(s[0] == data@[off as int]);
        assert(s[1] == data@[off as int + 1]);
        assert(s[2] == data@[off as int + 2]);
        assert(s[3] == data@[off as int + 3]);
    }
    b0 + b1 * 0x100 + b2 * 0x1_0000 + b3 * 0x100_0000
}

fn read_u64_le(data: &Vec<u8>, off: usize) -> (r: u64)
    requires
        off + 8 <= data@.len(),
    ensures
        r as int == le_u64(data@.subrange(off as int, off as int + 8)),
{
    let _n: usize = data.len();
    let b0 = data[off] as u64;
    let b1 = data[off + 1] as u64;
    let b2 = data[off + 2] as u64;
    let b3 = data[off + 3] as u64;
    let b4 = data[off + 4] as u64;
    let b5 = data[off + 5] as u64;
    let b6 = data[off + 6] as u64;
    let b7 = data[off + 7] as u64;
    proof {
        let s = data@.subrange(off as int, off as int + 8);
        assert(s[0] == data@[off as int]);
        assert(s[1] == data@[off as int + 1]);
        assert(s[2] == data@[off as int + 2]);
        assert(s[3] == data@[off as int + 3]);
        assert(s[4] == data@[off as int + 4]);
        assert(s[5] == data@[off as int + 5]);
        assert(s[6] == data@[off as int + 6]);
        assert(s[7] == data@[off as int + 7]);
    }
    b0 + b1 * 0x100 + b2 * 0x1_0000 + b3 * 0x100_0000 + b4 * 0x1_0000_0000 + b5 * 0x100_0000_0000
        + b6 * 0x1_0000_0000_0000 + b7 * 0x100_0000_0000_0000
}

fn copy_range(data: &Vec<u8>, start: usize, end: usize) -> (r: Vec<u8>)
    requires
        start <= end <= data@.len(),
    ensures
        r@ == data@.subrange(start as int, end as int),
{
    let mut out: Vec<u8> = Vec::new();
    let mut i: usize = start;
    while i < end
        invariant
            start <= i <= end <= data@.len(),
            out@ == data@.subrange(start as int, i as int),
        decreases end - i,
    {
        out.push(data[i]);
        i += 1;
        proof {
            assert(out@ =~= data@.subrange(start as int, i as int));
        }
    }
    out
}

fn read_pubkey(data: &Vec<u8>, off: usize) -> (r: Pubkey)
    requires
        off + 32 <= data@.len(),
    ensures
        r@ == data@.subrange(off as int, off as int + 32),
        r.wf(),
{
    let _n: usize = data.len();
    Pubkey { bytes: copy_range(data, off, off + 32) }
}

/// Relies on `String::from_utf8`: it returns `Ok` exactly on valid UTF-8,
/// with the text those bytes encode.
#[verifier::external_body]
fn bytes_to_utf8(v: Vec<u8>) -> (r: Option<String>)
    ensures
        r matches Some(s) ==> valid_utf8(v@) && s@ == decode_utf8(v@),
        r is None ==> !valid_utf8(v@),
{
    match String::from_utf8(v) {
        Ok(s) => Some(s),
        Err(_) => None,
    }
}

fn read_seed(data: &Vec<u8>, off: usize) -> (r: Result<(String, usize), DecodeError>)
    requires
        off <= data@.len(),
    ensures
        match r {
            Ok(se) => ({
                &&& dec_seed(data@, off as int) == Ok::<(Seq<char>, int), DecodeError>(
                    (se.0@, se.1 as int),
                )
                &&& off + 8 <= se.1 <= data@.len()
            }),
            Err(e) => dec_seed(data@, off as int) == Err::<(Seq<char>, int), DecodeError>(e),
        },
{
    if data.len() - off < 8 {
        return Err(DecodeError::TruncatedData);
    }
    let l = read_u64_le(data, off);
    let rem = data.len() - (off + 8);
    if l > rem as u64 {
        return Err(DecodeError::TruncatedData);
    }
    let l_us = l as usize;
    let bytes = copy_range(data, off + 8, off + 8 + l_us);
    match bytes_to_utf8(bytes) {
        Some(s) => Ok((s, off + 8 + l_us)),
        None => Err(DecodeError::InvalidSeedEncoding),
    }
}

impl SystemInstruction {
    /// Decode one instruction-data byte string. Pure and deterministic: the
    /// result is exactly `decode_spec` of the bytes.
    pub fn unpack(data: &Vec<u8>) -> (r: Result<SystemInstruction, DecodeError>)
        ensures
            decode_result_view(r) == decode_spec(data@),
    {
        if data.len() < 4 {
            return Err(DecodeError::TruncatedData);
        }
        let tag = read_u32_le(data, 0);
        if tag == 0 {
            if data.len() < 52 {
                return Err(DecodeError::TruncatedData);
            }
            let lamports = read_u64_le(data, 4);
            let space = read_u64_le(data, 12);
            let owner = read_pubkey(data, 20);
            Ok(SystemInstruction::CreateAccount(CreateAccount { lamports, space, owner }))
        } else if tag == 1 {
            if data.len() < 36 {
                return Err(DecodeError::TruncatedData);
            }
            let owner = read_pubkey(data, 4);
            Ok(SystemInstruction::Assign(Assign { owner }))
        } else if tag == 2 {
            if data.len() < 12 {
                return Err(DecodeError::TruncatedData);
            }
            let lamports = read_u64_le(data, 4);
            Ok(SystemInstruction::Transfer(Transfer { lamports }))
        } else if tag == 3 {
            if data.len() < 36 {
                return Err(DecodeError::TruncatedData);
            }
            let base = read_pubkey(data, 4);
            match read_seed(data, 36) {
                Err(e) => Err(e),
                Ok((seed, end)) => {
                    if data.len() - end < 48 {
                        return Err(DecodeError::TruncatedData);
                    }
                    let lamports = read_u64_le(data, end);
                    let space = read_u64_le(data, end + 8);
                    let owner = read_pubkey(data, end + 16);
                    Ok(SystemInstruction::CreateAccountWithSeed(CreateAccountWithSeed {
                        base,
                        seed,
                        lamports,
                        space,
                        owner,
                    }))
                },
            }
        } else if tag == 4 {
            Ok(SystemInstruction::AdvanceNonceAccount)
        } else if tag == 5 {
            if data.len() < 12 {
                return Err(DecodeError::TruncatedData);
            }
            let lamports = read_u64_le(data, 4);
            Ok(SystemInstruction::WithdrawNonceAccount(lamports))
        } else if tag == 6 {
            if data.len() < 36 {
                return Err(DecodeError::TruncatedData);
            }
            let authority = read_pubkey(data, 4);
            Ok(SystemInstruction::InitializeNonceAccount(authority))
        } else if tag == 7 {
            if data.len() < 36 {
                return Err(DecodeError::TruncatedData);
            }
            let new_authority = read_pubkey(data, 4);
            Ok(SystemInstruction::AuthorizeNonceAccount(new_authority))
        } else if tag == 8 {
            if data.len() < 12 {
                return Err(DecodeError::TruncatedData);
            }
            let space = read_u64_le(data, 4);
            Ok(SystemInstruction::Allocate(Allocate { space }))
        } else if tag == 9 {
            if data.len() < 36 {
                return Err(DecodeError::TruncatedData);
            }
            let base = read_pubkey(data, 4);
            match read_seed(data, 36) {
                Err(e) => Err(e),
                Ok((seed, end)) => {
                    if data.len() - end < 40 {
                        return Err(DecodeError::TruncatedData);
                    }
                    let space = read_u64_le(data, end);
                    let owner = read_pubkey(data, end + 8);
                    Ok(SystemInstruction::AllocateWithSeed(AllocateWithSeed {
                        base,
                        seed,
                        space,
                        owner,
                    }))
                },
            }
        } else if tag == 10 {
            if data.len() < 36 {
                return Err(DecodeError::TruncatedData);
            }
            let base = read_pubkey(data, 4);
            match read_seed(data, 36) {
                Err(e) => Err(e),
                Ok((seed, end)) => {
                    if data.len() - end < 32 {
                        return Err(DecodeError::TruncatedData);
                    }
                    let owner = read_pubkey(data, end);
                    Ok(SystemInstruction::AssignWithSeed(AssignWithSeed { base, seed, owner }))
                },
            }
        } else if tag == 11 {
            if data.len() < 12 {
                return Err(DecodeError::TruncatedData);
            }
            let lamports = read_u64_le(data, 4);
            match read_seed(data, 12) {
                Err(e) => Err(e),
                Ok((from_seed, end)) => {
                    if data.len() - end < 32 {
                        return Err(DecodeError::TruncatedData);
                    }
                    let from_owner = read_pubkey(data, end);
                    Ok(SystemInstruction::TransferWithSeed(TransferWithSeed {
                        lamports,
                        from_seed,
                        from_owner,
                    }))
                },
            }
        } else if tag == 12 {
            Ok(SystemInstruction::UpgradeNonceAccount)
        } else {
            Err(DecodeError::UnknownDiscriminant)
        }
    }
}

} // verus!
