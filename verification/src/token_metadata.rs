//! Account-state tags of the token-metadata program: the discriminator key
//! written at the start of each account's data, the token standard, and the
//! checks the account loaders run before deserializing.

use vstd::prelude::*;

verus! {

/// The discriminator tag stored in an account's first data byte.
#[derive(Clone, Copy, Debug, PartialEq, Eq, Structural)]
pub enum Key {
    Uninitialized,
    EditionV1,
    MasterEditionV1,
    ReservationListV1,
    MetadataV1,
    ReservationListV2,
    MasterEditionV2,
    EditionMarker,
    UseAuthorityRecord,
    CollectionAuthorityRecord,
    TokenOwnedEscrow,
    TokenRecord,
    MetadataDelegate,
    EditionMarkerV2,
    HolderDelegate,
}

/// The token standard an asset conforms to.
#[derive(Clone, Copy, Debug, PartialEq, Eq, Structural)]
pub enum TokenStandard {
    NonFungible,
    FungibleAsset,
    Fungible,
    NonFungibleEdition,
    ProgrammableNonFungible,
    ProgrammableNonFungibleEdition,
}

/// Failure of the account-state helpers.
#[derive(Clone, Copy, Debug, PartialEq, Eq, Structural)]
pub enum TokenMetadataError {
    NumericalOverflowError,
}

/// The key a discriminator byte denotes, if any: the keys in declared
/// order, numbered from zero.
pub open spec fn key_from_u8_spec(v: u8) -> Option<Key> {
    if v == 0 {
        Some(Key::Uninitialized)
    } else if v == 1 {
        Some(Key::EditionV1)
    } else if v == 2 {
        Some(Key::MasterEditionV1)
    } else if v == 3 {
        Some(Key::ReservationListV1)
    } else if v == 4 {
        Some(Key::MetadataV1)
    } else if v == 5 {
        Some(Key::ReservationListV2)
    } else if v == 6 {
        Some(Key::MasterEditionV2)
    } else if v == 7 {
        Some(Key::EditionMarker)
    } else if v == 8 {
        Some(Key::UseAuthorityRecord)
    } else if v == 9 {
        Some(Key::CollectionAuthorityRecord)
    } else if v == 10 {
        Some(Key::TokenOwnedEscrow)
    } else if v == 11 {
        Some(Key::TokenRecord)
    } else if v == 12 {
        Some(Key::MetadataDelegate)
    } else if v == 13 {
        Some(Key::EditionMarkerV2)
    } else if v == 14 {
        Some(Key::HolderDelegate)
    } else {
        None
    }
}

impl Key {
    /// The key a discriminator byte denotes, if any.
    pub fn from_u8(v: u8) -> (r: Option<Key>)
        ensures
            r == key_from_u8_spec(v),
    {
        if v == 0 {
            Some(Key::Uninitialized)
        } else if v == 1 {
            Some(Key::EditionV1)
        } else if v == 2 {
            Some(Key::MasterEditionV1)
        } else if v == 3 {
            Some(Key::ReservationListV1)
        } else if v == 4 {
            Some(Key::MetadataV1)
        } else if v == 5 {
            Some(Key::ReservationListV2)
        } else if v == 6 {
            Some(Key::MasterEditionV2)
        } else if v == 7 {
            Some(Key::EditionMarker)
        } else if v == 8 {
            Some(Key::UseAuthorityRecord)
        } else if v == 9 {
            Some(Key::CollectionAuthorityRecord)
        } else if v == 10 {
            Some(Key::TokenOwnedEscrow)
        } else if v == 11 {
            Some(Key::TokenRecord)
        } else if v == 12 {
            Some(Key::MetadataDelegate)
        } else if v == 13 {
            Some(Key::EditionMarkerV2)
        } else if v == 14 {
            Some(Key::HolderDelegate)
        } else {
            None
        }
    }
}

/// Whether account data carries the expected discriminator key (or the
/// uninitialized key) and, when a fixed size is demanded, exactly that size.
pub open spec fn is_correct_account_type_spec(data: Seq<u8>, data_type: Key, data_size: int) -> bool {
    data.len() > 0 && match key_from_u8_spec(data[0]) {
        Some(k) => (k == data_type || k == Key::Uninitialized) && (data.len() == data_size
            || data_size == 0),
        None => false,
    }
}

/// The account loaders' pre-check before deserializing account data.
pub fn is_correct_account_type(data: &Vec<u8>, data_type: Key, data_size: usize) -> (r: bool)
    ensures
        r == is_correct_account_type_spec(data@, data_type, data_size as int),
{
    if data.len() == 0 {
        return false;
    }
    match Key::from_u8(data[0]) {
        Some(key) => (key == data_type || key == Key::Uninitialized) && (data.len() == data_size
            || data_size == 0),
        None => false,
    }
}

/// Pad a serialized account buffer with zero bytes up to `size`; a buffer
/// already longer than `size` is an overflow and is left unchanged.
pub fn pad_length(buf: &mut Vec<u8>, size: usize) -> (r: Result<(), TokenMetadataError>)
    ensures
        match r {
            Ok(()) => old(buf)@.len() <= size && final(buf)@ == old(buf)@ + Seq::new(
                (size - old(buf)@.len()) as nat,
                |i: int| 0u8,
            ),
            Err(e) => old(buf)@.len() > size && e == TokenMetadataError::NumericalOverflowError
                && final(buf)@ == old(buf)@,
        },
{
    if buf.len() > size {
        return Err(TokenMetadataError::NumericalOverflowError);
    }
    let ghost start = buf@;
    while buf.len() < size
        invariant
            start.len() <= size,
            start.len() <= buf@.len() <= size,
            buf@ == start + Seq::new((buf@.len() - start.len()) as nat, |i: int| 0u8),
        decreases size - buf@.len(),
    {
        buf.push(0);
        proof {
            assert(buf@ =~= start + Seq::new((buf@.len() - start.len()) as nat, |i: int| 0u8));
        }
    }
    Ok(())
}

} // verus!
