//! Escrow for a flash sale of a fungible token: the sale record codec, the
//! account guards, and the three lifecycle handlers, each of which turns a
//! snapshot of the accounts it was handed into a plan of host operations.
use vstd::prelude::*;

pub mod address;
pub mod bytes;
pub mod close_sale;
pub mod get_token;
pub mod init_flash_sale;
pub mod plan;
pub mod utils;

use crate::close_sale::{close_outcome, close_sale};
use crate::get_token::{get_token, redeem_outcome, GetTokenArgs};
use crate::init_flash_sale::{copy_range, init_flash_sale, open_outcome, InitFlashSaleArgs};
use crate::plan::{AccountSnapshot, Action, FlashSaleError, Pubkey};

verus! {

/// The program's instructions, by opcode: open, close, redeem.
pub enum CloseSale {
    InitInstruction(InitFlashSaleArgs),
    CloseSale(GetTokenArgs),
    GetToken(GetTokenArgs),
}

/// Routes an instruction by its first byte: `0` opens a sale, `1` closes
/// one, `2` redeems from one; the rest of the bytes are the handler's
/// arguments. An empty instruction or another opcode is rejected.
pub fn process_instruction(
    program_id: &Pubkey,
    accounts: &[AccountSnapshot],
    instruction_data: &[u8],
    unix_timestamp: i64,
    sale_rent: u64,
) -> (r: Result<Vec<Action>, FlashSaleError>)
    ensures
        instruction_data@.len() == 0 ==> r == Err::<Vec<Action>, FlashSaleError>(FlashSaleError::InvalidInstructionData),
        instruction_data@.len() > 0 ==> {
            let rest = instruction_data@.drop_first();
            match instruction_data@[0] {
                0u8 => open_outcome(accounts@, rest, program_id@, unix_timestamp, sale_rent, r),
                1u8 => close_outcome(accounts@, program_id@, r),
                2u8 => redeem_outcome(accounts@, rest, program_id@, r),
                _ => r == Err::<Vec<Action>, FlashSaleError>(FlashSaleError::InvalidInstructionData),
            }
        },
{
    let len = instruction_data.len();
    if len == 0 {
        return Err(FlashSaleError::InvalidInstructionData);
    }
    let rest = copy_range(instruction_data, 1, len);
    assert(rest@ =~= instruction_data@.drop_first());
    let opcode = instruction_data[0];
    if opcode == 0 {
        init_flash_sale(accounts, rest.as_slice(), program_id, unix_timestamp, sale_rent)
    } else if opcode == 1 {
        close_sale(accounts, rest.as_slice(), program_id)
    } else if opcode == 2 {
        get_token(accounts, rest.as_slice(), program_id)
    } else {
        Err(FlashSaleError::InvalidInstructionData)
    }
}

} // verus!
