//! Closing a sale: the owner takes back the escrowed units and the sale
//! account's balance.
use vstd::prelude::*;

use crate::address::{
    deposit_namespace, deposit_namespace_bytes, derive_address, derived, sale_namespace, sale_namespace_bytes,
    sale_seeds, seeds_view,
};
use crate::init_flash_sale::{decodable, stored_mint, stored_name, stored_owner, FlashSale, SALE_UNITS, TOKEN_DECIMALS};
use crate::plan::{is_transfer_checked, transfer_checked, AccountSnapshot, Action, FlashSaleError, Pubkey};
use crate::utils::{check_owner, is_token_program, keys_equal};

verus! {

/// Why closing fails, checked in this order, or none.
pub open spec fn close_failure(a: Seq<AccountSnapshot>, p: Seq<u8>) -> Option<FlashSaleError> {
    if a.len() < 8 {
        Some(FlashSaleError::NotEnoughAccountKeys)
    } else if !decodable(a[5].data@) {
        Some(FlashSaleError::InvalidAccountData)
    } else if !a[0].is_signer {
        Some(FlashSaleError::MissingRequiredSignature)
    } else if stored_mint(a[5].data@) != a[2].key@ {
        Some(FlashSaleError::InvalidArgument)
    } else if stored_owner(a[5].data@) != a[0].key@ {
        Some(FlashSaleError::InvalidArgument)
    } else if a[5].owner@ != p {
        Some(FlashSaleError::IllegalOwner)
    } else if stored_name(a[5].data@).len() > 32 || derived(deposit_namespace(), stored_name(a[5].data@), a[2].key@, a[0].key@, p) is None {
        Some(FlashSaleError::DerivationFailed)
    } else if derived(deposit_namespace(), stored_name(a[5].data@), a[2].key@, a[0].key@, p)->Some_0.0 != a[3].key@ {
        Some(FlashSaleError::InvalidArgument)
    } else if derived(sale_namespace(), stored_name(a[5].data@), a[2].key@, a[0].key@, p) is None {
        Some(FlashSaleError::DerivationFailed)
    } else if derived(sale_namespace(), stored_name(a[5].data@), a[2].key@, a[0].key@, p)->Some_0.0 != a[5].key@ {
        Some(FlashSaleError::InvalidArgument)
    } else if !is_token_program(a[7].key@) {
        Some(FlashSaleError::IncorrectProgramId)
    } else {
        None
    }
}

/// The operations of a close, in order: the program moves the escrowed unit
/// from the deposit's token account to the receiver's, signing for the
/// deposit account; then, if the sale account holds any balance, all of it
/// goes to the owner.
pub open spec fn close_plan(a: Seq<AccountSnapshot>, p: Seq<u8>, acts: Seq<Action>) -> bool {
    let record = a[5].data@;
    let deposit = derived(deposit_namespace(), stored_name(record), a[2].key@, a[0].key@, p)->Some_0;
    &&& acts.len() == if a[5].lamports == 0 { 1int } else { 2int }
    &&& acts[0] matches Action::InvokeToken { instruction, accounts, signer }
        && is_transfer_checked(instruction, a[7].key@, a[4].key@, a[2].key@, a[1].key@, a[3].key@,
            SALE_UNITS, TOKEN_DECIMALS)
        && accounts@ == seq![4usize, 2, 1, 3, 7]
        && signer is Some
        && seeds_view(signer->Some_0@) == sale_seeds(deposit_namespace(), stored_name(record), a[2].key@, a[0].key@).push(seq![deposit.1])
    &&& a[5].lamports > 0 ==> acts[1] == Action::Sweep { from: 5, to: 0, lamports: a[5].lamports }
}

/// The error of the first failing check, or the plan of the close.
pub open spec fn close_outcome(a: Seq<AccountSnapshot>, p: Seq<u8>, r: Result<Vec<Action>, FlashSaleError>) -> bool {
    match close_failure(a, p) {
        Some(e) => r == Err::<Vec<Action>, FlashSaleError>(e),
        None => r matches Ok(acts) && close_plan(a, p, acts@),
    }
}

/// A close signed by anyone but the sale's owner is refused, as a missing
/// signature or as a mismatch, and plans no transfer.
pub proof fn lemma_close_by_non_owner(a: Seq<AccountSnapshot>, p: Seq<u8>)
    requires
        a.len() >= 8,
        decodable(a[5].data@),
        !a[0].is_signer || a[0].key@ != stored_owner(a[5].data@),
    ensures
        close_failure(a, p) == Some(FlashSaleError::MissingRequiredSignature) || close_failure(a, p) == Some(
            FlashSaleError::InvalidArgument,
        ),
        forall|r: Result<Vec<Action>, FlashSaleError>| close_outcome(a, p, r) ==> r is Err,
{
}

/// A close by the sale's owner that passes the guards sweeps the whole
/// balance of the sale account to the owner.
pub proof fn lemma_close_by_owner_sweeps(a: Seq<AccountSnapshot>, p: Seq<u8>, r: Result<Vec<Action>, FlashSaleError>)
    requires
        close_failure(a, p) is None,
        close_outcome(a, p, r),
        a[5].lamports > 0,
    ensures
        r is Ok,
        r->Ok_0@.len() == 2,
        r->Ok_0@[1] == (Action::Sweep { from: 5, to: 0, lamports: a[5].lamports }),
        a[0].key@ == stored_owner(a[5].data@),
{
}

/// Empties the account at `index` into the one at `receiver`, if it holds
/// any balance. The account stays under this program's control: once empty,
/// the host may reclaim it.
fn deinit_account_if_exists(account: &AccountSnapshot, index: usize, receiver: usize) -> (r: Option<Action>)
    ensures
        account.lamports == 0 ==> r is None,
        account.lamports > 0 ==> r == Some((Action::Sweep { from: index, to: receiver, lamports: account.lamports })),
{
    let lamports = account.lamports;
    if lamports == 0 {
        return None;
    }
    Some(Action::Sweep { from: index, to: receiver, lamports })
}

/// Closes a sale: `accounts` are the owner, the receiver's token account, the
/// mint, the deposit account and its token account, the sale account, the
/// system program and the token program. The argument bytes are not read.
/// One unit, `SALE_UNITS`, goes back to the owner, as it was escrowed.
pub fn close_sale(accounts: &[AccountSnapshot], instruction_data: &[u8], program_id: &Pubkey) -> (r: Result<
    Vec<Action>,
    FlashSaleError,
>)
    ensures
        close_outcome(accounts@, program_id@, r),
{
    if accounts.len() < 8 {
        return Err(FlashSaleError::NotEnoughAccountKeys);
    }
    let owner = &accounts[0];
    let receiver_token_ata = &accounts[1];
    let token_mint = &accounts[2];
    let token_deposit_pda = &accounts[3];
    let token_deposit_ata = &accounts[4];
    let flash_sale_pda = &accounts[5];
    let token_program = &accounts[7];

    let args = match FlashSale::try_from(flash_sale_pda.data.as_slice()) {
        Ok(s) => s,
        Err(_) => return Err(FlashSaleError::InvalidAccountData),
    };
    if !owner.is_signer {
        return Err(FlashSaleError::MissingRequiredSignature);
    }
    if !keys_equal(&args.mint_address, &token_mint.key) {
        return Err(FlashSaleError::InvalidArgument);
    }
    if !keys_equal(&args.owner_address, &owner.key) {
        return Err(FlashSaleError::InvalidArgument);
    }
    check_owner(flash_sale_pda, *program_id)?;

    let deposit = derive_address(&deposit_namespace_bytes(), &args.item_name, &token_mint.key, &owner.key, program_id)?;
    if !keys_equal(&deposit.address, &token_deposit_pda.key) {
        return Err(FlashSaleError::InvalidArgument);
    }
    let sale = derive_address(&sale_namespace_bytes(), &args.item_name, &token_mint.key, &owner.key, program_id)?;
    if !keys_equal(&sale.address, &flash_sale_pda.key) {
        return Err(FlashSaleError::InvalidArgument);
    }

    let transfer_tokens_instruction = match transfer_checked(
        &token_program.key,
        &token_deposit_ata.key,
        &token_mint.key,
        &receiver_token_ata.key,
        &token_deposit_pda.key,
        SALE_UNITS,
        TOKEN_DECIMALS,
    ) {
        Some(ix) => ix,
        None => return Err(FlashSaleError::IncorrectProgramId),
    };

    let mut plan: Vec<Action> = Vec::new();
    plan.push(Action::InvokeToken {
        instruction: transfer_tokens_instruction,
        accounts: vec![4usize, 2, 1, 3, 7],
        signer: Some(deposit.signer_seeds),
    });
    match deinit_account_if_exists(flash_sale_pda, 5, 0) {
        Some(sweep) => plan.push(sweep),
        None => {},
    }
    Ok(plan)
}

} // verus!
