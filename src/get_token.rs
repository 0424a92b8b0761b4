//! Redeeming units of a sale: the payer pays the price of the amount to the
//! owner and receives that amount out of the escrow.
use vstd::prelude::*;

use crate::address::{
    deposit_namespace, deposit_namespace_bytes, derive_address, derived, sale_namespace, sale_namespace_bytes,
    sale_seeds, seeds_view,
};
use crate::bytes::{le_value, lemma_le_value_bound, pow256, read_le};
use crate::init_flash_sale::{
    decodable, encoding, lemma_encoding_decodes, open_failure, open_name, open_plan, stored_mint,
    stored_name, stored_owner, stored_price, FlashSale, FLASH_SALE_ACCOUNT_SIZE,
};
use crate::plan::{is_transfer_checked, transfer_checked, AccountSnapshot, Action, FlashSaleError, Pubkey};
use crate::utils::{
    check_address, check_address_is_any, check_owner, is_token_program, keys_equal, system_program_address,
    system_program_id, token_2022_program_address, token_2022_program_id, token_program_address, token_program_id,
};

verus! {

/// The arguments of a redemption.
pub struct GetTokenArgs {
    pub amount: u64,
    pub decimals: u8,
}

impl GetTokenArgs {
    /// Decodes the amount, 8 bytes little-endian, and the decimals byte.
    pub fn try_from(data: &[u8]) -> (r: Result<GetTokenArgs, FlashSaleError>)
        ensures
            match r {
                Ok(a) => data@.len() >= 9 && a.amount as nat == le_value(data@.subrange(0, 8))
                    && a.decimals == data@[8],
                Err(e) => data@.len() < 9 && e == FlashSaleError::InvalidInstructionData,
            },
    {
        if data.len() < 9 {
            return Err(FlashSaleError::InvalidInstructionData);
        }
        let amount = read_le(data, 0, 8);
        let decimals = data[8];
        Ok(GetTokenArgs { amount, decimals })
    }
}

/// The amount a redemption asks for.
pub open spec fn redeem_amount(d: Seq<u8>) -> nat {
    le_value(d.subrange(0, 8))
}

/// Why a redemption fails, checked in this order, or none.
pub open spec fn redeem_failure(a: Seq<AccountSnapshot>, d: Seq<u8>, p: Seq<u8>) -> Option<FlashSaleError> {
    if a.len() < 9 {
        Some(FlashSaleError::NotEnoughAccountKeys)
    } else if !decodable(a[6].data@) {
        Some(FlashSaleError::InvalidInstructionData)
    } else if d.len() < 9 {
        Some(FlashSaleError::InvalidInstructionData)
    } else if stored_mint(a[6].data@) != a[2].key@ {
        Some(FlashSaleError::InvalidArgument)
    } else if stored_owner(a[6].data@) != a[5].key@ {
        Some(FlashSaleError::InvalidArgument)
    } else if a[7].key@ != system_program_address() {
        Some(FlashSaleError::IllegalAddress)
    } else if !is_token_program(a[8].key@) {
        Some(FlashSaleError::IllegalAddress)
    } else if a[6].owner@ != p {
        Some(FlashSaleError::IllegalOwner)
    } else if stored_price(a[6].data@) * redeem_amount(d) > u64::MAX {
        Some(FlashSaleError::ArithmeticOverflow)
    } else if stored_name(a[6].data@).len() > 32 || derived(deposit_namespace(), stored_name(a[6].data@), a[2].key@, a[5].key@, p) is None {
        Some(FlashSaleError::DerivationFailed)
    } else if derived(deposit_namespace(), stored_name(a[6].data@), a[2].key@, a[5].key@, p)->Some_0.0 != a[3].key@ {
        Some(FlashSaleError::InvalidArgument)
    } else if derived(sale_namespace(), stored_name(a[6].data@), a[2].key@, a[5].key@, p) is None {
        Some(FlashSaleError::DerivationFailed)
    } else if derived(sale_namespace(), stored_name(a[6].data@), a[2].key@, a[5].key@, p)->Some_0.0 != a[6].key@ {
        Some(FlashSaleError::InvalidArgument)
    } else {
        None
    }
}

/// The operations of a redemption, in order: the payer pays `price * amount`
/// to the owner, then the program moves `amount` from the deposit's token
/// account to the receiver's, signing for the deposit account.
pub open spec fn redeem_plan(a: Seq<AccountSnapshot>, d: Seq<u8>, p: Seq<u8>, acts: Seq<Action>) -> bool {
    let record = a[6].data@;
    let deposit = derived(deposit_namespace(), stored_name(record), a[2].key@, a[5].key@, p)->Some_0;
    &&& acts.len() == 2
    &&& acts[0] == Action::Transfer { from: 0, to: 5, lamports: (stored_price(record) * redeem_amount(d)) as u64 }
    &&& acts[1] matches Action::InvokeToken { instruction, accounts, signer }
        && is_transfer_checked(instruction, a[8].key@, a[4].key@, a[2].key@, a[1].key@, a[3].key@,
            redeem_amount(d) as u64, d[8])
        && accounts@ == seq![4usize, 2, 1, 3, 8]
        && signer is Some
        && seeds_view(signer->Some_0@) == sale_seeds(deposit_namespace(), stored_name(record), a[2].key@, a[5].key@).push(seq![deposit.1])
}

/// The error of the first failing check, or the plan of the redemption.
pub open spec fn redeem_outcome(
    a: Seq<AccountSnapshot>,
    d: Seq<u8>,
    p: Seq<u8>,
    r: Result<Vec<Action>, FlashSaleError>,
) -> bool {
    match redeem_failure(a, d, p) {
        Some(e) => r == Err::<Vec<Action>, FlashSaleError>(e),
        None => r matches Ok(acts) && redeem_plan(a, d, p, acts@),
    }
}

/// A redemption whose sale record names another mint or another owner than
/// the accounts handed in is refused as a mismatch, and plans no transfer.
pub proof fn lemma_redeem_identity_mismatch(a: Seq<AccountSnapshot>, d: Seq<u8>, p: Seq<u8>)
    requires
        a.len() >= 9,
        decodable(a[6].data@),
        d.len() >= 9,
        stored_mint(a[6].data@) != a[2].key@ || stored_owner(a[6].data@) != a[5].key@,
    ensures
        redeem_failure(a, d, p) == Some(FlashSaleError::InvalidArgument),
        forall|r: Result<Vec<Action>, FlashSaleError>| redeem_outcome(a, d, p, r)
            ==> r == Err::<Vec<Action>, FlashSaleError>(FlashSaleError::InvalidArgument),
{
}

/// A redemption whose price times amount does not fit in 64 bits is refused,
/// never planned with a wrapped amount; when the accounts pass every guard,
/// the refusal is the overflow error.
pub proof fn lemma_redeem_overflow(a: Seq<AccountSnapshot>, d: Seq<u8>, p: Seq<u8>)
    requires
        a.len() >= 9,
        decodable(a[6].data@),
        d.len() >= 9,
        stored_price(a[6].data@) * redeem_amount(d) > u64::MAX,
    ensures
        redeem_failure(a, d, p) is Some,
        stored_mint(a[6].data@) == a[2].key@ && stored_owner(a[6].data@) == a[5].key@
            && a[7].key@ == system_program_address() && is_token_program(a[8].key@) && a[6].owner@ == p
            ==> redeem_failure(a, d, p) == Some(FlashSaleError::ArithmeticOverflow),
        forall|r: Result<Vec<Action>, FlashSaleError>| redeem_outcome(a, d, p, r) ==> r is Err,
{
}

/// A redemption plan that charges `price` per unit and moves the amount of
/// `mint` out of the token account of `deposit`.
pub open spec fn redeem_pays(acts: Seq<Action>, ra: Seq<AccountSnapshot>, rd: Seq<u8>, price: nat, mint: Seq<u8>, deposit: Seq<u8>) -> bool {
    &&& acts[0] == Action::Transfer { from: 0, to: 5, lamports: (price * redeem_amount(rd)) as u64 }
    &&& acts[1] matches Action::InvokeToken { instruction, accounts, signer }
        && is_transfer_checked(instruction, ra[8].key@, ra[4].key@, mint, ra[1].key@, deposit,
        redeem_amount(rd) as u64, rd[8])
}

/// Redeeming right after opening succeeds. Take a successful open, and a
/// redemption whose sale account is the open's, holds what the open stored
/// and is controlled by the program, which names the open's mint, owner and deposit account
/// and the system and a token program, for an amount whose price fits in 64
/// bits. The redemption passes every guard, charges the payer the open's
/// price times the amount for the owner, and moves the amount from the
/// deposit's token account to the receiver's.
pub proof fn lemma_open_then_redeem(
    oa: Seq<AccountSnapshot>,
    od: Seq<u8>,
    p: Seq<u8>,
    ts: i64,
    rent: u64,
    open_acts: Seq<Action>,
    ra: Seq<AccountSnapshot>,
    rd: Seq<u8>,
)
    requires
        open_failure(oa, od, p) is None,
        open_plan(oa, od, p, ts, rent, open_acts),
        ra.len() >= 9,
        open_acts[3] is WriteData,
        ra[6].data@ == open_acts[3]->WriteData_data@,
        ra[6].owner@ == p,
        ra[2].key@ == oa[1].key@,
        ra[5].key@ == oa[0].key@,
        ra[3].key@ == oa[3].key@,
        ra[6].key@ == oa[5].key@,
        ra[7].key@ == system_program_address(),
        is_token_program(ra[8].key@),
        rd.len() >= 9,
        le_value(od.subrange(0, 8)) * redeem_amount(rd) <= u64::MAX,
    ensures
        redeem_failure(ra, rd, p) is None,
        forall|acts: Seq<Action>| #[trigger] redeem_plan(ra, rd, p, acts) ==> redeem_pays(acts, ra, rd,
            le_value(od.subrange(0, 8)), oa[1].key@, oa[3].key@),
{
    let name = open_name(od);
    let price = le_value(od.subrange(0, 8));
    lemma_le_value_bound(od.subrange(0, 8));
    lemma_le_value_bound(od.subrange(24, 28));
    reveal_with_fuel(pow256, 9);
    let rec = encoding(name, price as u64, ts, oa[1].key@, oa[0].key@);
    let tail = Seq::new((FLASH_SALE_ACCOUNT_SIZE - rec.len()) as nat, |i: int| 0u8);
    lemma_encoding_decodes(name, price as u64, ts, oa[1].key@, oa[0].key@, tail);
}

/// Redeems units of a sale: `accounts` are the payer, the receiver's token
/// account, the mint, the deposit account and its token account, the sale's
/// owner, the sale account, the system program and the token program. The
/// deposit and sale accounts must be the addresses derived from the record's
/// name, mint and owner.
pub fn get_token(accounts: &[AccountSnapshot], instruction_data: &[u8], program_id: &Pubkey) -> (r: Result<
    Vec<Action>,
    FlashSaleError,
>)
    ensures
        redeem_outcome(accounts@, instruction_data@, program_id@, r),
{
    if accounts.len() < 9 {
        return Err(FlashSaleError::NotEnoughAccountKeys);
    }
    let receiver_token_ata = &accounts[1];
    let token_mint = &accounts[2];
    let token_deposit_pda = &accounts[3];
    let token_deposit_ata = &accounts[4];
    let flash_sale_owner = &accounts[5];
    let flash_sale_pda = &accounts[6];
    let system_program = &accounts[7];
    let token_program = &accounts[8];

    let flash_sale_settings = match FlashSale::try_from(flash_sale_pda.data.as_slice()) {
        Ok(s) => s,
        Err(_) => return Err(FlashSaleError::InvalidInstructionData),
    };
    let args = GetTokenArgs::try_from(instruction_data)?;

    if !keys_equal(&flash_sale_settings.mint_address, &token_mint.key) {
        return Err(FlashSaleError::InvalidArgument);
    }
    if !keys_equal(&flash_sale_settings.owner_address, &flash_sale_owner.key) {
        return Err(FlashSaleError::InvalidArgument);
    }
    check_address(system_program, system_program_id())?;
    let allowed = [token_program_id(), token_2022_program_id()];
    proof {
        assert(allowed@[0]@ == token_program_address());
        assert(allowed@[1]@ == token_2022_program_address());
        if is_token_program(token_program.key@) {
            if token_program.key@ == token_program_address() {
                assert(allowed@[0]@ == token_program.key@);
            } else {
                assert(allowed@[1]@ == token_program.key@);
            }
        }
    }
    check_address_is_any(token_program, allowed.as_slice())?;
    check_owner(flash_sale_pda, *program_id)?;

    let price = match flash_sale_settings.price.checked_mul(args.amount) {
        Some(v) => v,
        None => return Err(FlashSaleError::ArithmeticOverflow),
    };

    let deposit = derive_address(
        &deposit_namespace_bytes(),
        &flash_sale_settings.item_name,
        &token_mint.key,
        &flash_sale_owner.key,
        program_id,
    )?;
    if !keys_equal(&deposit.address, &token_deposit_pda.key) {
        return Err(FlashSaleError::InvalidArgument);
    }
    let sale = derive_address(
        &sale_namespace_bytes(),
        &flash_sale_settings.item_name,
        &token_mint.key,
        &flash_sale_owner.key,
        program_id,
    )?;
    if !keys_equal(&sale.address, &flash_sale_pda.key) {
        return Err(FlashSaleError::InvalidArgument);
    }
    let stake_ix = match transfer_checked(
        &token_program.key,
        &token_deposit_ata.key,
        &token_mint.key,
        &receiver_token_ata.key,
        &token_deposit_pda.key,
        args.amount,
        args.decimals,
    ) {
        Some(ix) => ix,
        None => return Err(FlashSaleError::IncorrectProgramId),
    };

    let mut plan: Vec<Action> = Vec::new();
    plan.push(Action::Transfer { from: 0, to: 5, lamports: price });
    plan.push(Action::InvokeToken {
        instruction: stake_ix,
        accounts: vec![4usize, 2, 1, 3, 8],
        signer: Some(deposit.signer_seeds),
    });
    Ok(plan)
}

} // verus!
