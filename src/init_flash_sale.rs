//! The sale record and its encoding, the arguments of the open operation, and
//! the open operation itself.
use vstd::prelude::*;

use crate::bytes::{
    i64_bits, i64_of_bits, le_bytes, le_value, lemma_le_bytes_len, lemma_le_round_trip,
    lemma_le_value_bound, pow256, push_le, read_le,
};
use crate::address::{
    deposit_namespace, deposit_namespace_bytes, derive_address, derived, sale_namespace,
    sale_namespace_bytes, sale_seeds, seeds_view,
};
use crate::plan::{
    is_transfer_checked, transfer_checked, AccountSnapshot, Action, FlashSaleError, Pubkey,
};
use crate::utils::{is_token_program, keys_equal};

verus! {

/// Longest item name that a sale account has room for.
pub const MAX_NAME_LENGTH: usize = 32;

/// Size of a sale account: length prefix, name budget, price, timestamp and
/// the two addresses.
pub const FLASH_SALE_ACCOUNT_SIZE: usize = 4 + MAX_NAME_LENGTH + 8 + 8 + 32 + 32;

/// The persisted sale record.
pub struct FlashSale {
    /// The item name, one byte per character.
    pub item_name: Vec<u8>,
    /// Native-currency units charged per redeemed unit.
    pub price: u64,
    /// Ledger time at which the sale was opened.
    pub init_timestamp: i64,
    /// The token mint being sold.
    pub mint_address: Pubkey,
    /// The owner of the sale.
    pub owner_address: Pubkey,
}

/// The record's layout: a 4-byte little-endian name length, the name, then
/// price, timestamp, mint and owner.
pub open spec fn encoding(name: Seq<u8>, price: u64, ts: i64, mint: Seq<u8>, owner: Seq<u8>) -> Seq<u8> {
    le_bytes(name.len(), 4) + name + le_bytes(price as nat, 8) + le_bytes(i64_bits(ts), 8) + mint + owner
}

/// The name length that a buffer's prefix declares.
pub open spec fn declared_name_len(d: Seq<u8>) -> nat {
    le_value(d.subrange(0, 4))
}

/// A buffer holds a whole record: the prefix, the declared name and the
/// 80 bytes of fixed fields.
pub open spec fn decodable(d: Seq<u8>) -> bool {
    d.len() >= 4 && d.len() >= 4 + declared_name_len(d) + 80
}

/// The field of `n` bytes at `off` after the name.
pub open spec fn field_after_name(d: Seq<u8>, off: nat, n: nat) -> Seq<u8> {
    let start = 4 + declared_name_len(d) + off;
    d.subrange(start as int, start + n as int)
}

/// The item name a decodable buffer holds.
pub open spec fn stored_name(d: Seq<u8>) -> Seq<u8> {
    d.subrange(4, 4 + declared_name_len(d) as int)
}

/// The price a decodable buffer holds.
pub open spec fn stored_price(d: Seq<u8>) -> nat {
    le_value(field_after_name(d, 0, 8))
}

/// The mint a decodable buffer holds.
pub open spec fn stored_mint(d: Seq<u8>) -> Seq<u8> {
    field_after_name(d, 16, 32)
}

/// The owner a decodable buffer holds.
pub open spec fn stored_owner(d: Seq<u8>) -> Seq<u8> {
    field_after_name(d, 48, 32)
}

impl FlashSale {
    pub open spec fn encoded(&self) -> Seq<u8> {
        encoding(self.item_name@, self.price, self.init_timestamp, self.mint_address@, self.owner_address@)
    }

    /// The record that a decodable buffer holds.
    pub open spec fn decodes_to(&self, d: Seq<u8>) -> bool {
        &&& decodable(d)
        &&& self.item_name@ == stored_name(d)
        &&& self.price as nat == stored_price(d)
        &&& self.init_timestamp as int == i64_of_bits(le_value(field_after_name(d, 8, 8)))
        &&& self.mint_address@ == stored_mint(d)
        &&& self.owner_address@ == stored_owner(d)
    }

    /// Decodes a record from the front of `data`; fails when the buffer ends
    /// before the prefix, the declared name or the fixed fields.
    pub fn try_from(data: &[u8]) -> (r: Result<FlashSale, FlashSaleError>)
        ensures
            match r {
                Ok(s) => s.decodes_to(data@),
                Err(e) => !decodable(data@) && e == FlashSaleError::InvalidAccountData,
            },
    {
        let len = data.len();
        if len < 4 {
            return Err(FlashSaleError::InvalidAccountData);
        }
        let prefix = read_le(data, 0, 4);
        proof {
            lemma_le_value_bound(data@.subrange(0, 4));
            reveal_with_fuel(pow256, 5);
        }
        let name_len = prefix as usize;
        if len - 4 < name_len || len - 4 - name_len < 80 {
            return Err(FlashSaleError::InvalidAccountData);
        }
        let item_name = copy_range(data, 4, 4 + name_len);
        let off = 4 + name_len;
        let price = read_le(data, off, 8);
        let ts_bits = read_le(data, off + 8, 8);
        let init_timestamp = timestamp_of_bits(ts_bits);
        let mint_address = read_key(data, off + 16);
        let owner_address = read_key(data, off + 48);
        Ok(FlashSale { item_name, price, init_timestamp, mint_address, owner_address })
    }

    /// The record's bytes.
    pub fn to_bytes(&self) -> (r: Vec<u8>)
        requires
            self.item_name@.len() <= u32::MAX,
        ensures
            r@ == self.encoded(),
    {
        let mut out: Vec<u8> = Vec::new();
        push_le(&mut out, self.item_name.len() as u64, 4);
        let mut i: usize = 0;
        let ghost head = out@;
        while i < self.item_name.len()
            invariant
                i <= self.item_name@.len(),
                out@ == head + self.item_name@.subrange(0, i as int),
            decreases self.item_name@.len() - i,
        {
            out.push(self.item_name[i]);
            i = i + 1;
            proof {
                assert(out@ =~= head + self.item_name@.subrange(0, i as int));
            }
        }
        assert(self.item_name@.subrange(0, self.item_name@.len() as int) =~= self.item_name@);
        push_le(&mut out, self.price, 8);
        push_le(&mut out, timestamp_bits(self.init_timestamp), 8);
        push_key(&mut out, &self.mint_address);
        push_key(&mut out, &self.owner_address);
        proof {
            assert(out@ =~= self.encoded());
        }
        out
    }

    /// Writes the record at the front of `buf`, leaving the rest as it was;
    /// fails, writing nothing, when `buf` is shorter than the record.
    pub fn write_to_slice(&self, buf: &mut Vec<u8>) -> (r: Result<(), FlashSaleError>)
        requires
            self.item_name@.len() <= u32::MAX,
        ensures
            old(buf)@.len() >= self.encoded().len() ==> r is Ok && final(buf)@ == self.encoded()
                + old(buf)@.subrange(self.encoded().len() as int, old(buf)@.len() as int),
            old(buf)@.len() < self.encoded().len() ==> r == Err::<(), FlashSaleError>(
                FlashSaleError::AccountDataTooSmall,
            ) && final(buf)@ == old(buf)@,
    {
        let bytes = self.to_bytes();
        if buf.len() < bytes.len() {
            return Err(FlashSaleError::AccountDataTooSmall);
        }
        let ghost orig = buf@;
        let mut i: usize = 0;
        while i < bytes.len()
            invariant
                i <= bytes@.len(),
                bytes@.len() <= orig.len(),
                buf@.len() == orig.len(),
                forall|j: int| 0 <= j < i ==> buf@[j] == bytes@[j],
                forall|j: int| i <= j < orig.len() ==> buf@[j] == orig[j],
            decreases bytes@.len() - i,
        {
            buf[i] = bytes[i];
            i = i + 1;
        }
        proof {
            assert(buf@ =~= bytes@ + orig.subrange(bytes@.len() as int, orig.len() as int));
        }
        Ok(())
    }
}

/// A buffer that starts with a record's encoding decodes to that record's
/// fields, whatever follows it.
pub proof fn lemma_encoding_decodes(name: Seq<u8>, price: u64, ts: i64, mint: Seq<u8>, owner: Seq<u8>, tail: Seq<u8>)
    requires
        name.len() <= u32::MAX,
        mint.len() == 32,
        owner.len() == 32,
    ensures
        ({
            let d = encoding(name, price, ts, mint, owner) + tail;
            &&& decodable(d)
            &&& stored_name(d) == name
            &&& stored_price(d) == price as nat
            &&& i64_of_bits(le_value(field_after_name(d, 8, 8))) == ts as int
            &&& stored_mint(d) == mint
            &&& stored_owner(d) == owner
        }),
{
    let l = name.len();
    let a = le_bytes(l, 4);
    let p = le_bytes(price as nat, 8);
    let t = le_bytes(i64_bits(ts), 8);
    let d = encoding(name, price, ts, mint, owner) + tail;
    reveal_with_fuel(pow256, 9);
    lemma_le_bytes_len(l, 4);
    lemma_le_bytes_len(price as nat, 8);
    lemma_le_bytes_len(i64_bits(ts), 8);
    lemma_le_round_trip(l, 4);
    lemma_le_round_trip(price as nat, 8);
    lemma_le_round_trip(i64_bits(ts), 8);
    assert(d.subrange(0, 4) =~= a);
    assert(declared_name_len(d) == l);
    assert(d.subrange(4, 4 + l as int) =~= name);
    assert(field_after_name(d, 0, 8) =~= p);
    assert(field_after_name(d, 8, 8) =~= t);
    assert(field_after_name(d, 16, 32) =~= mint);
    assert(field_after_name(d, 48, 32) =~= owner);
}

/// Decoding what a record encodes to gives back that record: the buffer is
/// decodable, and every record it decodes to has the same fields.
pub proof fn lemma_round_trip(s: FlashSale, r: FlashSale)
    requires
        s.item_name@.len() <= MAX_NAME_LENGTH,
    ensures
        decodable(s.encoded()),
        s.decodes_to(s.encoded()),
        r.decodes_to(s.encoded()) ==> r.item_name@ == s.item_name@ && r.price == s.price
            && r.init_timestamp == s.init_timestamp && r.mint_address == s.mint_address
            && r.owner_address == s.owner_address,
{
    let d = s.encoded();
    lemma_encoding_decodes(s.item_name@, s.price, s.init_timestamp, s.mint_address@, s.owner_address@, Seq::empty());
    assert(d + Seq::<u8>::empty() =~= d);
    if r.decodes_to(d) {
        assert(r.mint_address@ =~= s.mint_address@);
        assert(r.owner_address@ =~= s.owner_address@);
    }
}

/// The arguments of the open operation.
pub struct InitFlashSaleArgs {
    pub initial_price: u64,
    pub sale_duration: u64,
    pub amount: u64,
    /// The item name, one byte per character.
    pub item_name: Vec<u8>,
}

/// The name length that the open arguments declare.
pub open spec fn open_name_len(d: Seq<u8>) -> nat {
    le_value(d.subrange(24, 28))
}

/// The argument bytes hold three 8-byte integers, the 4-byte name length and
/// the whole name.
pub open spec fn open_args_decodable(d: Seq<u8>) -> bool {
    d.len() >= 28 && d.len() >= 28 + open_name_len(d)
}

/// The item name of decodable open arguments.
pub open spec fn open_name(d: Seq<u8>) -> Seq<u8> {
    d.subrange(28, 28 + open_name_len(d) as int)
}

impl InitFlashSaleArgs {
    /// Decodes the arguments: price, duration and amount as 8-byte
    /// little-endian integers, then a 4-byte name length and the name.
    pub fn try_from(data: &[u8]) -> (r: Result<InitFlashSaleArgs, FlashSaleError>)
        ensures
            match r {
                Ok(a) => {
                    &&& open_args_decodable(data@)
                    &&& a.initial_price as nat == le_value(data@.subrange(0, 8))
                    &&& a.sale_duration as nat == le_value(data@.subrange(8, 16))
                    &&& a.amount as nat == le_value(data@.subrange(16, 24))
                    &&& a.item_name@ == open_name(data@)
                },
                Err(e) => !open_args_decodable(data@) && e == FlashSaleError::InvalidInstructionData,
            },
    {
        let len = data.len();
        if len < 28 {
            return Err(FlashSaleError::InvalidInstructionData);
        }
        let initial_price = read_le(data, 0, 8);
        let sale_duration = read_le(data, 8, 8);
        let amount = read_le(data, 16, 8);
        let prefix = read_le(data, 24, 4);
        proof {
            lemma_le_value_bound(data@.subrange(24, 28));
            reveal_with_fuel(pow256, 5);
        }
        let name_len = prefix as usize;
        if len - 28 < name_len {
            return Err(FlashSaleError::InvalidInstructionData);
        }
        let item_name = copy_range(data, 28, 28 + name_len);
        Ok(InitFlashSaleArgs { initial_price, sale_duration, amount, item_name })
    }
}

/// The instruction that opens a sale.
pub enum InitInstruction {
    InitInstruction(InitFlashSaleArgs),
}

/// Native currency with which the deposit account is funded before its
/// token account is created.
pub const DEPOSIT_FUNDING: u64 = 10_000_000;

/// Token units moved per transfer: each sale escrows, and hands out, one
/// unit at a time.
pub const SALE_UNITS: u64 = 1;

/// Decimal places stated in the fixed-unit transfers.
pub const TOKEN_DECIMALS: u8 = 9;

/// Why opening fails, checked in this order, or none.
pub open spec fn open_failure(a: Seq<AccountSnapshot>, d: Seq<u8>, p: Seq<u8>) -> Option<FlashSaleError> {
    if a.len() < 8 {
        Some(FlashSaleError::NotEnoughAccountKeys)
    } else if !open_args_decodable(d) {
        Some(FlashSaleError::InvalidInstructionData)
    } else if !a[0].is_signer {
        Some(FlashSaleError::MissingRequiredSignature)
    } else if open_name(d).len() > MAX_NAME_LENGTH {
        Some(FlashSaleError::AccountDataTooSmall)
    } else if derived(deposit_namespace(), open_name(d), a[1].key@, a[0].key@, p) is None {
        Some(FlashSaleError::DerivationFailed)
    } else if derived(deposit_namespace(), open_name(d), a[1].key@, a[0].key@, p)->Some_0.0 != a[3].key@ {
        Some(FlashSaleError::InvalidArgument)
    } else if derived(sale_namespace(), open_name(d), a[1].key@, a[0].key@, p) is None {
        Some(FlashSaleError::DerivationFailed)
    } else if derived(sale_namespace(), open_name(d), a[1].key@, a[0].key@, p)->Some_0.0 != a[5].key@ {
        Some(FlashSaleError::InvalidArgument)
    } else if !is_token_program(a[7].key@) {
        Some(FlashSaleError::IncorrectProgramId)
    } else {
        None
    }
}

/// The operations that open a sale, in order: fund the deposit account,
/// create its token account, create the sale account, store the record, and
/// move the escrowed units in from the owner's source account.
pub open spec fn open_plan(a: Seq<AccountSnapshot>, d: Seq<u8>, p: Seq<u8>, ts: i64, rent: u64, acts: Seq<Action>) -> bool {
    let name = open_name(d);
    let mint = a[1].key@;
    let owner = a[0].key@;
    let deposit = derived(deposit_namespace(), name, mint, owner, p)->Some_0;
    let sale = derived(sale_namespace(), name, mint, owner, p)->Some_0;
    let record = encoding(name, le_value(d.subrange(0, 8)) as u64, ts, mint, owner);
    &&& acts.len() == 5
    &&& acts[0] == Action::Transfer { from: 0, to: 3, lamports: DEPOSIT_FUNDING }
    &&& acts[1] matches Action::CreateTokenAccount {
        funding_account, account, wallet, mint, system_program, token_program, signer_seeds }
        && funding_account == 0 && account == 4 && wallet == 3 && mint == 1 && system_program == 6
        && token_program == 7
        && seeds_view(signer_seeds@) == sale_seeds(deposit_namespace(), name, a[1].key@, owner).push(seq![deposit.1])
    &&& acts[2] matches Action::CreateAccount { from, to, space, lamports, owner: controller, signer_seeds }
        && from == 0 && to == 5 && space == FLASH_SALE_ACCOUNT_SIZE && lamports == rent && controller@ == p
        && seeds_view(signer_seeds@) == sale_seeds(sale_namespace(), name, a[1].key@, owner).push(seq![sale.1])
    &&& acts[3] matches Action::WriteData { account, data } && account == 5
        && data@ == record + Seq::new((FLASH_SALE_ACCOUNT_SIZE - record.len()) as nat, |i: int| 0u8)
    &&& acts[4] matches Action::InvokeToken { instruction, accounts, signer }
        && is_transfer_checked(instruction, a[7].key@, a[2].key@, a[1].key@, a[4].key@, owner, SALE_UNITS, TOKEN_DECIMALS)
        && accounts@ == seq![2usize, 1, 4, 0, 7] && signer is None
}

/// The error of the first failing check, or the plan that opens the sale.
pub open spec fn open_outcome(
    a: Seq<AccountSnapshot>,
    d: Seq<u8>,
    p: Seq<u8>,
    ts: i64,
    rent: u64,
    r: Result<Vec<Action>, FlashSaleError>,
) -> bool {
    match open_failure(a, d, p) {
        Some(e) => r == Err::<Vec<Action>, FlashSaleError>(e),
        None => r matches Ok(acts) && open_plan(a, d, p, ts, rent, acts@),
    }
}

/// A buffer of `n` zero bytes.
fn zeroed(n: usize) -> (r: Vec<u8>)
    ensures
        r@ == Seq::new(n as nat, |i: int| 0u8),
{
    let mut out: Vec<u8> = Vec::new();
    let mut i: usize = 0;
    while i < n
        invariant
            i <= n,
            out@ =~= Seq::new(i as nat, |j: int| 0u8),
        decreases n - i,
    {
        out.push(0u8);
        i = i + 1;
    }
    out
}

/// Opens a sale: `accounts` are the owner, the mint, the owner's source token
/// account, the deposit account and its token account, the sale account, the
/// system program and the token program. The deposit and sale accounts must
/// be the addresses derived from `("deposit" | "sale", item_name, mint,
/// owner)` under `program_id`. A name longer than `MAX_NAME_LENGTH` does not
/// fit the sale account and is refused. `unix_timestamp` is the ledger time and
/// `sale_rent` the balance that keeps a sale account alive. The quantity and
/// duration arguments are decoded but not acted on: a sale escrows
/// `SALE_UNITS` at `TOKEN_DECIMALS`.
pub fn init_flash_sale(
    accounts: &[AccountSnapshot],
    instruction_data: &[u8],
    program_id: &Pubkey,
    unix_timestamp: i64,
    sale_rent: u64,
) -> (r: Result<Vec<Action>, FlashSaleError>)
    ensures
        open_outcome(accounts@, instruction_data@, program_id@, unix_timestamp, sale_rent, r),
{
    if accounts.len() < 8 {
        return Err(FlashSaleError::NotEnoughAccountKeys);
    }
    let owner = &accounts[0];
    let token_mint = &accounts[1];
    let source_token_account = &accounts[2];
    let token_deposit_pda = &accounts[3];
    let token_deposit_ata = &accounts[4];
    let flash_sale_pda = &accounts[5];
    let token_program = &accounts[7];

    let args = InitFlashSaleArgs::try_from(instruction_data)?;
    if !owner.is_signer {
        return Err(FlashSaleError::MissingRequiredSignature);
    }
    if args.item_name.len() > MAX_NAME_LENGTH {
        return Err(FlashSaleError::AccountDataTooSmall);
    }
    let deposit = derive_address(&deposit_namespace_bytes(), &args.item_name, &token_mint.key, &owner.key, program_id)?;
    if !keys_equal(&deposit.address, &token_deposit_pda.key) {
        return Err(FlashSaleError::InvalidArgument);
    }
    let sale = derive_address(&sale_namespace_bytes(), &args.item_name, &token_mint.key, &owner.key, program_id)?;
    if !keys_equal(&sale.address, &flash_sale_pda.key) {
        return Err(FlashSaleError::InvalidArgument);
    }
    let stake_ix = match transfer_checked(
        &token_program.key,
        &source_token_account.key,
        &token_mint.key,
        &token_deposit_ata.key,
        &owner.key,
        SALE_UNITS,
        TOKEN_DECIMALS,
    ) {
        Some(ix) => ix,
        None => return Err(FlashSaleError::IncorrectProgramId),
    };

    let record = FlashSale {
        item_name: args.item_name,
        price: args.initial_price,
        init_timestamp: unix_timestamp,
        mint_address: token_mint.key,
        owner_address: owner.key,
    };
    let mut flash_sale_data = zeroed(FLASH_SALE_ACCOUNT_SIZE);
    proof {
        lemma_le_bytes_len(record.item_name@.len(), 4);
        lemma_le_bytes_len(record.price as nat, 8);
        lemma_le_bytes_len(i64_bits(record.init_timestamp), 8);
    }
    let written = record.write_to_slice(&mut flash_sale_data);
    proof {
        let e = record.encoded().len() as int;
        assert(Seq::new(FLASH_SALE_ACCOUNT_SIZE as nat, |i: int| 0u8).subrange(e, FLASH_SALE_ACCOUNT_SIZE as int)
            =~= Seq::new((FLASH_SALE_ACCOUNT_SIZE - e) as nat, |i: int| 0u8));
    }

    let mut plan: Vec<Action> = Vec::new();
    plan.push(Action::Transfer { from: 0, to: 3, lamports: DEPOSIT_FUNDING });
    plan.push(Action::CreateTokenAccount {
        funding_account: 0,
        account: 4,
        wallet: 3,
        mint: 1,
        system_program: 6,
        token_program: 7,
        signer_seeds: deposit.signer_seeds,
    });
    plan.push(Action::CreateAccount {
        from: 0,
        to: 5,
        space: FLASH_SALE_ACCOUNT_SIZE as u64,
        lamports: sale_rent,
        owner: *program_id,
        signer_seeds: sale.signer_seeds,
    });
    plan.push(Action::WriteData { account: 5, data: flash_sale_data });
    plan.push(Action::InvokeToken { instruction: stake_ix, accounts: vec![2usize, 1, 4, 0, 7], signer: None });
    Ok(plan)
}

/// Copies `data[lo .. hi]`.
pub fn copy_range(data: &[u8], lo: usize, hi: usize) -> (r: Vec<u8>)
    requires
        lo <= hi <= data@.len(),
    ensures
        r@ == data@.subrange(lo as int, hi as int),
{
    let mut out: Vec<u8> = Vec::new();
    let mut i: usize = lo;
    while i < hi
        invariant
            lo <= i <= hi,
            hi <= data@.len(),
            out@ == data@.subrange(lo as int, i as int),
        decreases hi - i,
    {
        out.push(data[i]);
        i = i + 1;
        proof {
            assert(out@ =~= data@.subrange(lo as int, i as int));
        }
    }
    out
}

/// Reads the 32-byte address at `data[off ..]`.
fn read_key(data: &[u8], off: usize) -> (r: Pubkey)
    requires
        off + 32 <= data@.len(),
    ensures
        r@ == data@.subrange(off as int, off + 32),
{
    let len = data.len();
    let mut k: Pubkey = [0u8; 32];
    let mut i: usize = 0;
    while i < 32
        invariant
            i <= 32,
            off + 32 <= data@.len(),
            len == data@.len(),
            forall|j: int| 0 <= j < i ==> k@[j] == data@[off + j],
        decreases 32 - i,
    {
        k[i] = data[off + i];
        i = i + 1;
    }
    assert(k@ =~= data@.subrange(off as int, off + 32));
    k
}

/// Appends the 32 bytes of `k` to `out`.
fn push_key(out: &mut Vec<u8>, k: &Pubkey)
    ensures
        final(out)@ == old(out)@ + k@,
{
    let ghost start = out@;
    let mut i: usize = 0;
    while i < 32
        invariant
            i <= 32,
            k@.len() == 32,
            out@ == start + k@.subrange(0, i as int),
        decreases 32 - i,
    {
        out.push(k[i]);
        i = i + 1;
        proof {
            assert(out@ =~= start + k@.subrange(0, i as int));
        }
    }
    assert(k@.subrange(0, 32) =~= k@);
}

/// The two's-complement bits of a timestamp.
fn timestamp_bits(t: i64) -> (r: u64)
    ensures
        r as nat == i64_bits(t),
{
    if t >= 0 {
        t as u64
    } else {
        u64::MAX - ((-(t + 1)) as u64)
    }
}

/// The timestamp whose two's-complement bits are `u`.
fn timestamp_of_bits(u: u64) -> (r: i64)
    ensures
        r as int == i64_of_bits(u as nat),
{
    if u < 0x8000_0000_0000_0000 {
        u as i64
    } else {
        -((u64::MAX - u) as i64) - 1
    }
}

} // verus!
