//! Guards on the accounts a handler was handed, and the well-known program
//! addresses they are held against.
use vstd::prelude::*;

use crate::plan::{AccountSnapshot, FlashSaleError, Pubkey};

verus! {

/// The system program's address.
pub open spec fn system_program_address() -> Seq<u8> {
    Seq::new(32, |i: int| 0u8)
}

/// The classic token program's address.
pub open spec fn token_program_address() -> Seq<u8> {
    seq![
        6u8, 221, 246, 225, 215, 101, 161, 147, 217, 203, 225, 70, 206, 235, 121, 172,
        28, 180, 133, 237, 95, 91, 55, 145, 58, 140, 245, 133, 126, 255, 0, 169,
    ]
}

/// The token-2022 program's address.
pub open spec fn token_2022_program_address() -> Seq<u8> {
    seq![
        6u8, 221, 246, 225, 238, 117, 143, 222, 24, 66, 93, 188, 228, 108, 205, 218,
        182, 26, 252, 77, 131, 185, 13, 39, 254, 189, 249, 40, 216, 161, 139, 252,
    ]
}

/// Either of the two token programs.
pub open spec fn is_token_program(k: Seq<u8>) -> bool {
    k == token_program_address() || k == token_2022_program_address()
}

/// Relies on pinocchio_system::ID, the system program's address.
#[verifier::external_body]
pub(crate) fn system_program_id() -> (r: Pubkey)
    ensures
        r@ == system_program_address(),
{
    pinocchio_system::ID
}

/// Relies on pinocchio_token::ID, the classic token program's address.
#[verifier::external_body]
pub(crate) fn token_program_id() -> (r: Pubkey)
    ensures
        r@ == token_program_address(),
{
    pinocchio_token::ID
}

/// Relies on spl_token_2022::id(), the token-2022 program's address.
#[verifier::external_body]
pub(crate) fn token_2022_program_id() -> (r: Pubkey)
    ensures
        r@ == token_2022_program_address(),
{
    spl_token_2022::id().to_bytes()
}

/// Compares two addresses byte by byte.
pub fn keys_equal(a: &Pubkey, b: &Pubkey) -> (r: bool)
    ensures
        r == (a@ == b@),
{
    let mut i: usize = 0;
    while i < 32
        invariant
            i <= 32,
            a@.len() == 32,
            b@.len() == 32,
            forall|j: int| 0 <= j < i ==> a@[j] == b@[j],
        decreases 32 - i,
    {
        if a[i] != b[i] {
            return false;
        }
        i = i + 1;
    }
    assert(a@ =~= b@);
    true
}

/// Succeeds exactly when the account is controlled by `expected_owner`.
pub fn check_owner(account: &AccountSnapshot, expected_owner: Pubkey) -> (r: Result<(), FlashSaleError>)
    ensures
        r is Ok <==> account.owner@ == expected_owner@,
        r is Err ==> r == Err::<(), FlashSaleError>(FlashSaleError::IllegalOwner),
{
    if keys_equal(&account.owner, &expected_owner) {
        Ok(())
    } else {
        Err(FlashSaleError::IllegalOwner)
    }
}

/// Succeeds exactly when the account's address is `expected_address`.
pub fn check_address(account: &AccountSnapshot, expected_address: Pubkey) -> (r: Result<(), FlashSaleError>)
    ensures
        r is Ok <==> account.key@ == expected_address@,
        r is Err ==> r == Err::<(), FlashSaleError>(FlashSaleError::IllegalAddress),
{
    if keys_equal(&account.key, &expected_address) {
        Ok(())
    } else {
        Err(FlashSaleError::IllegalAddress)
    }
}

/// Succeeds exactly when the account's address is one of `allowed_addresses`.
pub fn check_address_is_any(account: &AccountSnapshot, allowed_addresses: &[Pubkey]) -> (r: Result<(), FlashSaleError>)
    ensures
        r is Ok <==> exists|i: int| 0 <= i < allowed_addresses@.len() && #[trigger] allowed_addresses@[i]@ == account.key@,
        r is Err ==> r == Err::<(), FlashSaleError>(FlashSaleError::IllegalAddress),
{
    let mut i: usize = 0;
    while i < allowed_addresses.len()
        invariant
            i <= allowed_addresses@.len(),
            forall|j: int| 0 <= j < i ==> #[trigger] allowed_addresses@[j]@ != account.key@,
        decreases allowed_addresses@.len() - i,
    {
        if keys_equal(&allowed_addresses[i], &account.key) {
            return Ok(());
        }
        i = i + 1;
    }
    Err(FlashSaleError::IllegalAddress)
}

} // verus!
