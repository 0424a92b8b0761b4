//! What a handler sees of the accounts it was handed, the errors it reports,
//! and the host operations it asks for.
use vstd::prelude::*;

use crate::bytes::le_bytes;
use crate::utils::is_token_program;

verus! {

/// A 32-byte account address.
pub type Pubkey = [u8; 32];

/// What a handler reads of one account it was handed.
pub struct AccountSnapshot {
    /// The account's address.
    pub key: Pubkey,
    /// The program that controls the account.
    pub owner: Pubkey,
    /// Whether the account signed the transaction.
    pub is_signer: bool,
    /// The account's native-currency balance.
    pub lamports: u64,
    /// The account's stored bytes.
    pub data: Vec<u8>,
}

/// Why a handler rejected the transition.
#[derive(Debug, Clone, Copy, PartialEq, Eq, Structural)]
pub enum FlashSaleError {
    /// Fewer accounts than the handler's positional list.
    NotEnoughAccountKeys,
    /// The argument bytes are too short, or name a length past their end.
    InvalidInstructionData,
    /// A stored sale record could not be decoded.
    InvalidAccountData,
    /// A buffer is too small for the record written into it.
    AccountDataTooSmall,
    /// A required signature is missing.
    MissingRequiredSignature,
    /// An account is not controlled by the expected program.
    IllegalOwner,
    /// An account's address is not the expected one.
    IllegalAddress,
    /// A supplied account does not match the sale record or a derived address.
    InvalidArgument,
    /// The token program handed in is neither of the token programs.
    IncorrectProgramId,
    /// The price of the redeemed amount does not fit in 64 bits.
    ArithmeticOverflow,
    /// No bump byte gives a program address for the seeds.
    DerivationFailed,
}

/// One account of an instruction to another program.
pub struct InstructionAccount {
    pub pubkey: Pubkey,
    pub is_signer: bool,
    pub is_writable: bool,
}

/// An instruction to a token program.
pub struct TokenInstruction {
    pub program_id: Pubkey,
    pub accounts: Vec<InstructionAccount>,
    pub data: Vec<u8>,
}

/// One host operation of a plan. Accounts are positions in the list the
/// handler was handed.
pub enum Action {
    /// Moves native currency from `from` to `to` through the system program,
    /// on `from`'s signature.
    Transfer { from: usize, to: usize, lamports: u64 },
    /// Creates the associated token account `account` of `wallet` for `mint`,
    /// funded by `funding_account`, the program signing for `wallet`.
    CreateTokenAccount {
        funding_account: usize,
        account: usize,
        wallet: usize,
        mint: usize,
        system_program: usize,
        token_program: usize,
        signer_seeds: Vec<Vec<u8>>,
    },
    /// Creates `to` with room for `space` bytes and a balance of `lamports`
    /// paid by `from`, controlled by `owner`, the program signing for `to`.
    CreateAccount {
        from: usize,
        to: usize,
        space: u64,
        lamports: u64,
        owner: Pubkey,
        signer_seeds: Vec<Vec<u8>>,
    },
    /// Stores `data` at the front of the account's bytes.
    WriteData { account: usize, data: Vec<u8> },
    /// Invokes a token program with the accounts listed, the program signing
    /// for the seeds when there are any.
    InvokeToken {
        instruction: TokenInstruction,
        accounts: Vec<usize>,
        signer: Option<Vec<Vec<u8>>>,
    },
    /// Moves the whole balance `lamports` of `from`, an account of this
    /// program, to `to`, leaving `from` empty.
    Sweep { from: usize, to: usize, lamports: u64 },
}

/// The tag of a checked token transfer.
pub open spec fn transfer_checked_tag() -> u8 {
    12
}

/// An account entry with the given address and flags.
pub open spec fn is_entry(m: InstructionAccount, key: Seq<u8>, is_signer: bool, is_writable: bool) -> bool {
    m.pubkey@ == key && m.is_signer == is_signer && m.is_writable == is_writable
}

/// A checked transfer of `amount` at `decimals` from `source` to
/// `destination`, authorised by `authority`, addressed to `program`.
pub open spec fn is_transfer_checked(
    ix: TokenInstruction,
    program: Seq<u8>,
    source: Seq<u8>,
    mint: Seq<u8>,
    destination: Seq<u8>,
    authority: Seq<u8>,
    amount: u64,
    decimals: u8,
) -> bool {
    &&& ix.program_id@ == program
    &&& ix.data@ == seq![transfer_checked_tag()] + le_bytes(amount as nat, 8) + seq![decimals]
    &&& ix.accounts@.len() == 4
    &&& is_entry(ix.accounts@[0], source, false, true)
    &&& is_entry(ix.accounts@[1], mint, false, false)
    &&& is_entry(ix.accounts@[2], destination, false, true)
    &&& is_entry(ix.accounts@[3], authority, true, false)
}

/// Relies on spl_token_2022's `instruction::transfer_checked` with no
/// multisignature signers: it refuses a program id that is neither token
/// program, and otherwise packs the tag, the amount and the decimals over the
/// four accounts in order.
#[verifier::external_body]
pub(crate) fn transfer_checked(
    token_program: &Pubkey,
    source: &Pubkey,
    mint: &Pubkey,
    destination: &Pubkey,
    authority: &Pubkey,
    amount: u64,
    decimals: u8,
) -> (r: Option<TokenInstruction>)
    ensures
        r is Some <==> is_token_program(token_program@),
        r matches Some(ix) ==> is_transfer_checked(ix, token_program@, source@, mint@, destination@, authority@, amount, decimals),
{
    let k = solana_program::pubkey::Pubkey::new_from_array;
    let ix = spl_token_2022::instruction::transfer_checked(
        &k(*token_program), &k(*source), &k(*mint), &k(*destination), &k(*authority), &[], amount, decimals,
    ).ok()?;
    let accounts = ix.accounts.iter().map(|m| InstructionAccount {
        pubkey: m.pubkey.to_bytes(), is_signer: m.is_signer, is_writable: m.is_writable,
    }).collect();
    Some(TokenInstruction { program_id: ix.program_id.to_bytes(), accounts, data: ix.data })
}

} // verus!
