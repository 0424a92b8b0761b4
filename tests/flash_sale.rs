use flash_sale::address::{derive_address, deposit_namespace_bytes, sale_namespace_bytes};
use flash_sale::close_sale::close_sale;
use flash_sale::get_token::{get_token, GetTokenArgs};
use flash_sale::init_flash_sale::{
    init_flash_sale, FlashSale, InitFlashSaleArgs, DEPOSIT_FUNDING, FLASH_SALE_ACCOUNT_SIZE,
};
use flash_sale::plan::{AccountSnapshot, Action, FlashSaleError, Pubkey};
use flash_sale::process_instruction;
use flash_sale::utils::{check_address, check_address_is_any, check_owner, keys_equal};

const PROGRAM: Pubkey = [
    120, 51, 231, 143, 150, 55, 38, 95, 214, 94, 76, 73, 248, 6, 33, 177, 222, 3, 144, 128, 185, 37,
    202, 240, 104, 182, 68, 181, 163, 18, 70, 117,
];
const TOKEN: Pubkey = [
    6, 221, 246, 225, 215, 101, 161, 147, 217, 203, 225, 70, 206, 235, 121, 172, 28, 180, 133, 237,
    95, 91, 55, 145, 58, 140, 245, 133, 126, 255, 0, 169,
];
const TOKEN_2022: Pubkey = [
    6, 221, 246, 225, 238, 117, 143, 222, 24, 66, 93, 188, 228, 108, 205, 218, 182, 26, 252, 77,
    131, 185, 13, 39, 254, 189, 249, 40, 216, 161, 139, 252,
];
const SYSTEM: Pubkey = [0; 32];
const OWNER: Pubkey = [7; 32];
const MINT: Pubkey = [9; 32];
const PAYER: Pubkey = [3; 32];

fn acct(key: Pubkey, owner: Pubkey, is_signer: bool, lamports: u64, data: Vec<u8>) -> AccountSnapshot {
    AccountSnapshot { key, owner, is_signer, lamports, data }
}

fn plain(key: Pubkey) -> AccountSnapshot {
    acct(key, SYSTEM, false, 0, Vec::new())
}

fn deposit_of(name: &[u8], mint: &Pubkey, owner: &Pubkey) -> Pubkey {
    derive_address(&deposit_namespace_bytes(), &name.to_vec(), mint, owner, &PROGRAM)
        .ok()
        .unwrap()
        .address
}

fn sale_of(name: &[u8], mint: &Pubkey, owner: &Pubkey) -> Pubkey {
    derive_address(&sale_namespace_bytes(), &name.to_vec(), mint, owner, &PROGRAM)
        .ok()
        .unwrap()
        .address
}

fn record(name: &[u8], price: u64, ts: i64) -> FlashSale {
    FlashSale {
        item_name: name.to_vec(),
        price,
        init_timestamp: ts,
        mint_address: MINT,
        owner_address: OWNER,
    }
}

fn sale_data(rec: &FlashSale) -> Vec<u8> {
    let mut buf = vec![0u8; FLASH_SALE_ACCOUNT_SIZE];
    assert!(rec.write_to_slice(&mut buf).is_ok());
    buf
}

fn open_args(price: u64, duration: u64, amount: u64, name: &[u8]) -> Vec<u8> {
    let mut d = Vec::new();
    d.extend_from_slice(&price.to_le_bytes());
    d.extend_from_slice(&duration.to_le_bytes());
    d.extend_from_slice(&amount.to_le_bytes());
    d.extend_from_slice(&(name.len() as u32).to_le_bytes());
    d.extend_from_slice(name);
    d
}

fn redeem_args(amount: u64, decimals: u8) -> Vec<u8> {
    let mut d = amount.to_le_bytes().to_vec();
    d.push(decimals);
    d
}

fn open_accounts(name: &[u8]) -> Vec<AccountSnapshot> {
    vec![
        acct(OWNER, SYSTEM, true, 1_000_000_000, Vec::new()),
        plain(MINT),
        plain([11; 32]),
        plain(deposit_of(name, &MINT, &OWNER)),
        plain([12; 32]),
        plain(sale_of(name, &MINT, &OWNER)),
        plain(SYSTEM),
        plain(TOKEN),
    ]
}

fn redeem_accounts(name: &[u8], data: Vec<u8>) -> Vec<AccountSnapshot> {
    vec![
        acct(PAYER, SYSTEM, true, 1_000_000_000, Vec::new()),
        plain([13; 32]),
        plain(MINT),
        plain(deposit_of(name, &MINT, &OWNER)),
        plain([12; 32]),
        plain(OWNER),
        acct(sale_of(name, &MINT, &OWNER), PROGRAM, false, 2_000_000, data),
        plain(SYSTEM),
        plain(TOKEN),
    ]
}

fn close_accounts(name: &[u8], data: Vec<u8>, sale_lamports: u64) -> Vec<AccountSnapshot> {
    vec![
        acct(OWNER, SYSTEM, true, 0, Vec::new()),
        plain([14; 32]),
        plain(MINT),
        plain(deposit_of(name, &MINT, &OWNER)),
        plain([12; 32]),
        acct(sale_of(name, &MINT, &OWNER), PROGRAM, false, sale_lamports, data),
        plain(SYSTEM),
        plain(TOKEN),
    ]
}

fn err_of(r: Result<Vec<Action>, FlashSaleError>) -> FlashSaleError {
    match r {
        Err(e) => e,
        Ok(_) => panic!("expected an error"),
    }
}

#[test]
fn record_round_trip() {
    let rec = record(b"sneakers", 250, -1_700_000_000);
    let bytes = rec.to_bytes();
    assert_eq!(bytes.len(), 4 + 8 + 80);
    let back = FlashSale::try_from(&bytes).ok().unwrap();
    assert_eq!(back.item_name, b"sneakers".to_vec());
    assert_eq!(back.price, 250);
    assert_eq!(back.init_timestamp, -1_700_000_000);
    assert_eq!(back.mint_address, MINT);
    assert_eq!(back.owner_address, OWNER);
}

#[test]
fn record_layout_is_little_endian() {
    let rec = record(b"ab", 0x0102, 1);
    let bytes = rec.to_bytes();
    assert_eq!(&bytes[..6], &[2, 0, 0, 0, b'a', b'b']);
    assert_eq!(&bytes[6..14], &[2, 1, 0, 0, 0, 0, 0, 0]);
    assert_eq!(&bytes[14..22], &[1, 0, 0, 0, 0, 0, 0, 0]);
    assert_eq!(&bytes[22..54], &MINT);
    assert_eq!(&bytes[54..86], &OWNER);
}

#[test]
fn record_round_trip_empty_name_and_extremes() {
    let rec = record(b"", u64::MAX, i64::MIN);
    let back = FlashSale::try_from(&rec.to_bytes()).ok().unwrap();
    assert!(back.item_name.is_empty());
    assert_eq!(back.price, u64::MAX);
    assert_eq!(back.init_timestamp, i64::MIN);
    let full = record(&[b'x'; 32], 1, i64::MAX);
    let back = FlashSale::try_from(&sale_data(&full)).ok().unwrap();
    assert_eq!(back.item_name, vec![b'x'; 32]);
    assert_eq!(back.init_timestamp, i64::MAX);
}

#[test]
fn decode_fails_on_truncated_buffers() {
    let bytes = record(b"shoe", 5, 9).to_bytes();
    for cut in 0..bytes.len() {
        assert!(matches!(
            FlashSale::try_from(&bytes[..cut]),
            Err(FlashSaleError::InvalidAccountData)
        ));
    }
    assert!(FlashSale::try_from(&bytes).is_ok());
}

#[test]
fn decode_fails_when_declared_name_overruns() {
    let mut bytes = record(b"shoe", 5, 9).to_bytes();
    bytes[0] = 200;
    assert!(matches!(FlashSale::try_from(&bytes), Err(FlashSaleError::InvalidAccountData)));
    let empty = vec![0u8; 0];
    assert!(FlashSale::try_from(&empty).is_err());
}

#[test]
fn decode_of_emptied_account_fails() {
    let zeroed = vec![0u8; 10];
    assert!(FlashSale::try_from(&zeroed).is_err());
}

#[test]
fn write_to_slice_refuses_small_buffer() {
    let rec = record(b"shoe", 5, 9);
    let mut small = vec![0xAAu8; 50];
    assert!(matches!(rec.write_to_slice(&mut small), Err(FlashSaleError::AccountDataTooSmall)));
    assert_eq!(small, vec![0xAAu8; 50]);
    let mut big = vec![0xAAu8; 100];
    assert!(rec.write_to_slice(&mut big).is_ok());
    assert_eq!(&big[..88], &rec.to_bytes()[..]);
    assert_eq!(&big[88..], &[0xAA; 12]);
}

#[test]
fn open_args_decode() {
    let d = open_args(100, 3600, 5, b"cap");
    let a = InitFlashSaleArgs::try_from(&d).ok().unwrap();
    assert_eq!(a.initial_price, 100);
    assert_eq!(a.sale_duration, 3600);
    assert_eq!(a.amount, 5);
    assert_eq!(a.item_name, b"cap".to_vec());
    assert!(InitFlashSaleArgs::try_from(&d[..30]).is_err());
    assert!(InitFlashSaleArgs::try_from(&d[..20]).is_err());
}

#[test]
fn redeem_args_decode() {
    let a = GetTokenArgs::try_from(&redeem_args(258, 6)).ok().unwrap();
    assert_eq!(a.amount, 258);
    assert_eq!(a.decimals, 6);
    assert!(matches!(
        GetTokenArgs::try_from(&[1, 2, 3]),
        Err(FlashSaleError::InvalidInstructionData)
    ));
}

#[test]
fn derivation_is_deterministic() {
    let a = derive_address(&deposit_namespace_bytes(), &b"hat".to_vec(), &MINT, &OWNER, &PROGRAM).ok().unwrap();
    let b = derive_address(&deposit_namespace_bytes(), &b"hat".to_vec(), &MINT, &OWNER, &PROGRAM).ok().unwrap();
    assert_eq!(a.address, b.address);
    assert_eq!(a.signer_seeds, b.signer_seeds);
    assert_eq!(a.signer_seeds.len(), 5);
    assert_eq!(a.signer_seeds[0], b"deposit".to_vec());
    let other_mint = deposit_of(b"hat", &[10; 32], &OWNER);
    let other_owner = deposit_of(b"hat", &MINT, &[8; 32]);
    let other_name = deposit_of(b"hut", &MINT, &OWNER);
    let other_space = sale_of(b"hat", &MINT, &OWNER);
    for k in [other_mint, other_owner, other_name, other_space] {
        assert_ne!(k, a.address);
    }
}

#[test]
fn derivation_refuses_long_seed() {
    let long = vec![b'n'; 33];
    assert!(matches!(
        derive_address(&sale_namespace_bytes(), &long, &MINT, &OWNER, &PROGRAM),
        Err(FlashSaleError::DerivationFailed)
    ));
}

#[test]
fn guards() {
    let a = acct([5; 32], PROGRAM, false, 0, Vec::new());
    assert!(check_owner(&a, PROGRAM).is_ok());
    assert!(matches!(check_owner(&a, SYSTEM), Err(FlashSaleError::IllegalOwner)));
    assert!(check_address(&a, [5; 32]).is_ok());
    assert!(matches!(check_address(&a, [6; 32]), Err(FlashSaleError::IllegalAddress)));
    assert!(check_address_is_any(&a, &[[1; 32], [5; 32]]).is_ok());
    assert!(matches!(check_address_is_any(&a, &[[1; 32]]), Err(FlashSaleError::IllegalAddress)));
    assert!(check_address_is_any(&a, &[]).is_err());
    assert!(keys_equal(&MINT, &MINT));
    assert!(!keys_equal(&MINT, &OWNER));
}

#[test]
fn open_plans_the_sale() {
    let name = b"jacket";
    let accounts = open_accounts(name);
    let plan = init_flash_sale(&accounts, &open_args(40, 60, 3, name), &PROGRAM, 1_700_000_000, 1_500_000)
        .ok()
        .unwrap();
    assert_eq!(plan.len(), 5);
    assert!(matches!(plan[0], Action::Transfer { from: 0, to: 3, lamports: DEPOSIT_FUNDING }));
    match &plan[1] {
        Action::CreateTokenAccount { funding_account, account, wallet, mint, signer_seeds, .. } => {
            assert_eq!((*funding_account, *account, *wallet, *mint), (0, 4, 3, 1));
            assert_eq!(signer_seeds[0], b"deposit".to_vec());
            assert_eq!(signer_seeds[1], name.to_vec());
            assert_eq!(signer_seeds[2], MINT.to_vec());
            assert_eq!(signer_seeds[3], OWNER.to_vec());
        }
        _ => panic!("expected the token account creation"),
    }
    match &plan[2] {
        Action::CreateAccount { from, to, space, lamports, owner, signer_seeds } => {
            assert_eq!((*from, *to, *space, *lamports), (0, 5, 116, 1_500_000));
            assert_eq!(*owner, PROGRAM);
            assert_eq!(signer_seeds[0], b"sale".to_vec());
        }
        _ => panic!("expected the sale account creation"),
    }
    match &plan[3] {
        Action::WriteData { account, data } => {
            assert_eq!(*account, 5);
            assert_eq!(data.len(), FLASH_SALE_ACCOUNT_SIZE);
            let rec = FlashSale::try_from(data).ok().unwrap();
            assert_eq!(rec.item_name, name.to_vec());
            assert_eq!(rec.price, 40);
            assert_eq!(rec.init_timestamp, 1_700_000_000);
            assert_eq!(rec.mint_address, MINT);
            assert_eq!(rec.owner_address, OWNER);
        }
        _ => panic!("expected the record write"),
    }
    match &plan[4] {
        Action::InvokeToken { instruction, accounts, signer } => {
            assert_eq!(instruction.program_id, TOKEN);
            let mut expected = vec![12u8];
            expected.extend_from_slice(&1u64.to_le_bytes());
            expected.push(9);
            assert_eq!(instruction.data, expected);
            assert_eq!(instruction.accounts.len(), 4);
            assert_eq!(instruction.accounts[0].pubkey, [11; 32]);
            assert!(instruction.accounts[0].is_writable && !instruction.accounts[0].is_signer);
            assert_eq!(instruction.accounts[3].pubkey, OWNER);
            assert!(instruction.accounts[3].is_signer && !instruction.accounts[3].is_writable);
            assert_eq!(*accounts, vec![2, 1, 4, 0, 7]);
            assert!(signer.is_none());
        }
        _ => panic!("expected the token transfer"),
    }
}

#[test]
fn open_rejections() {
    let name = b"jacket";
    let args = open_args(40, 60, 3, name);
    let accounts = open_accounts(name);
    assert_eq!(
        err_of(init_flash_sale(&accounts[..7], &args, &PROGRAM, 0, 1)),
        FlashSaleError::NotEnoughAccountKeys
    );
    assert_eq!(
        err_of(init_flash_sale(&accounts, &args[..29], &PROGRAM, 0, 1)),
        FlashSaleError::InvalidInstructionData
    );
    let mut unsigned = open_accounts(name);
    unsigned[0].is_signer = false;
    assert_eq!(
        err_of(init_flash_sale(&unsigned, &args, &PROGRAM, 0, 1)),
        FlashSaleError::MissingRequiredSignature
    );
    let mut wrong_deposit = open_accounts(name);
    wrong_deposit[3].key = [1; 32];
    assert_eq!(
        err_of(init_flash_sale(&wrong_deposit, &args, &PROGRAM, 0, 1)),
        FlashSaleError::InvalidArgument
    );
    let mut wrong_sale = open_accounts(name);
    wrong_sale[5].key = [1; 32];
    assert_eq!(
        err_of(init_flash_sale(&wrong_sale, &args, &PROGRAM, 0, 1)),
        FlashSaleError::InvalidArgument
    );
    let mut wrong_program = open_accounts(name);
    wrong_program[7].key = [1; 32];
    assert_eq!(
        err_of(init_flash_sale(&wrong_program, &args, &PROGRAM, 0, 1)),
        FlashSaleError::IncorrectProgramId
    );
    let long = vec![b'z'; 33];
    let mut long_accounts = open_accounts(name);
    long_accounts[3].key = [1; 32];
    assert_eq!(
        err_of(init_flash_sale(&long_accounts, &open_args(1, 1, 1, &long), &PROGRAM, 0, 1)),
        FlashSaleError::AccountDataTooSmall
    );
}

#[test]
fn redeem_plans_payment_then_release() {
    let name = b"lamp";
    let rec = record(name, 30, 5);
    let accounts = redeem_accounts(name, sale_data(&rec));
    let plan = get_token(&accounts, &redeem_args(4, 9), &PROGRAM).ok().unwrap();
    assert_eq!(plan.len(), 2);
    assert!(matches!(plan[0], Action::Transfer { from: 0, to: 5, lamports: 120 }));
    match &plan[1] {
        Action::InvokeToken { instruction, accounts, signer } => {
            let mut expected = vec![12u8];
            expected.extend_from_slice(&4u64.to_le_bytes());
            expected.push(9);
            assert_eq!(instruction.data, expected);
            assert_eq!(instruction.accounts[0].pubkey, [12; 32]);
            assert_eq!(instruction.accounts[2].pubkey, [13; 32]);
            assert_eq!(instruction.accounts[3].pubkey, deposit_of(name, &MINT, &OWNER));
            assert_eq!(*accounts, vec![4, 2, 1, 3, 8]);
            let seeds = signer.as_ref().unwrap();
            assert_eq!(seeds.len(), 5);
            assert_eq!(seeds[0], b"deposit".to_vec());
        }
        _ => panic!("expected the token transfer"),
    }
}

#[test]
fn redeem_accepts_token_2022() {
    let name = b"lamp";
    let mut accounts = redeem_accounts(name, sale_data(&record(name, 30, 5)));
    accounts[8].key = TOKEN_2022;
    let plan = get_token(&accounts, &redeem_args(1, 0), &PROGRAM).ok().unwrap();
    match &plan[1] {
        Action::InvokeToken { instruction, .. } => assert_eq!(instruction.program_id, TOKEN_2022),
        _ => panic!("expected the token transfer"),
    }
}

#[test]
fn redeem_identity_mismatch() {
    let name = b"lamp";
    let data = sale_data(&record(name, 30, 5));
    let mut wrong_mint = redeem_accounts(name, data.clone());
    wrong_mint[2].key = [10; 32];
    assert_eq!(err_of(get_token(&wrong_mint, &redeem_args(1, 9), &PROGRAM)), FlashSaleError::InvalidArgument);
    let mut wrong_owner = redeem_accounts(name, data.clone());
    wrong_owner[5].key = [8; 32];
    assert_eq!(err_of(get_token(&wrong_owner, &redeem_args(1, 9), &PROGRAM)), FlashSaleError::InvalidArgument);
    let mut wrong_deposit = redeem_accounts(name, data.clone());
    wrong_deposit[3].key = [1; 32];
    assert_eq!(err_of(get_token(&wrong_deposit, &redeem_args(1, 9), &PROGRAM)), FlashSaleError::InvalidArgument);
    let mut wrong_sale = redeem_accounts(name, data);
    wrong_sale[6].key = [1; 32];
    assert_eq!(err_of(get_token(&wrong_sale, &redeem_args(1, 9), &PROGRAM)), FlashSaleError::InvalidArgument);
}

#[test]
fn stored_name_too_long_to_derive() {
    let long = [b'q'; 33];
    let data = record(&long, 30, 5).to_bytes();
    let mut raccounts = redeem_accounts(b"lamp", data.clone());
    raccounts[6].owner = PROGRAM;
    assert_eq!(err_of(get_token(&raccounts, &redeem_args(1, 9), &PROGRAM)), FlashSaleError::DerivationFailed);
    let caccounts = close_accounts(b"lamp", data, 10);
    assert_eq!(err_of(close_sale(&caccounts, &[], &PROGRAM)), FlashSaleError::DerivationFailed);
}

#[test]
fn redeem_overflow() {
    let name = b"lamp";
    let accounts = redeem_accounts(name, sale_data(&record(name, u64::MAX / 2 + 1, 5)));
    assert_eq!(err_of(get_token(&accounts, &redeem_args(2, 9), &PROGRAM)), FlashSaleError::ArithmeticOverflow);
    let plan = get_token(&accounts, &redeem_args(1, 9), &PROGRAM).ok().unwrap();
    assert!(matches!(plan[0], Action::Transfer { lamports, .. } if lamports == u64::MAX / 2 + 1));
}

#[test]
fn redeem_guard_rejections() {
    let name = b"lamp";
    let data = sale_data(&record(name, 30, 5));
    let accounts = redeem_accounts(name, data.clone());
    assert_eq!(err_of(get_token(&accounts[..8], &redeem_args(1, 9), &PROGRAM)), FlashSaleError::NotEnoughAccountKeys);
    assert_eq!(err_of(get_token(&accounts, &[1, 2], &PROGRAM)), FlashSaleError::InvalidInstructionData);
    let mut bad_system = redeem_accounts(name, data.clone());
    bad_system[7].key = [1; 32];
    assert_eq!(err_of(get_token(&bad_system, &redeem_args(1, 9), &PROGRAM)), FlashSaleError::IllegalAddress);
    let mut bad_token = redeem_accounts(name, data.clone());
    bad_token[8].key = [1; 32];
    assert_eq!(err_of(get_token(&bad_token, &redeem_args(1, 9), &PROGRAM)), FlashSaleError::IllegalAddress);
    let mut foreign = redeem_accounts(name, data);
    foreign[6].owner = SYSTEM;
    assert_eq!(err_of(get_token(&foreign, &redeem_args(1, 9), &PROGRAM)), FlashSaleError::IllegalOwner);
    let empty = redeem_accounts(name, vec![0u8; 3]);
    assert_eq!(err_of(get_token(&empty, &redeem_args(1, 9), &PROGRAM)), FlashSaleError::InvalidInstructionData);
}

#[test]
fn close_by_owner_sweeps_sale_balance() {
    let name = b"desk";
    let accounts = close_accounts(name, sale_data(&record(name, 30, 5)), 1_447_680);
    let plan = close_sale(&accounts, &[], &PROGRAM).ok().unwrap();
    assert_eq!(plan.len(), 2);
    match &plan[0] {
        Action::InvokeToken { instruction, accounts, signer } => {
            let mut expected = vec![12u8];
            expected.extend_from_slice(&1u64.to_le_bytes());
            expected.push(9);
            assert_eq!(instruction.data, expected);
            assert_eq!(instruction.accounts[2].pubkey, [14; 32]);
            assert_eq!(*accounts, vec![4, 2, 1, 3, 7]);
            assert!(signer.is_some());
        }
        _ => panic!("expected the token transfer"),
    }
    assert!(matches!(plan[1], Action::Sweep { from: 5, to: 0, lamports: 1_447_680 }));
}

#[test]
fn close_of_empty_sale_account_sweeps_nothing() {
    let name = b"desk";
    let accounts = close_accounts(name, sale_data(&record(name, 30, 5)), 0);
    let plan = close_sale(&accounts, &[], &PROGRAM).ok().unwrap();
    assert_eq!(plan.len(), 1);
}

#[test]
fn close_by_non_owner_fails() {
    let name = b"desk";
    let data = sale_data(&record(name, 30, 5));
    let mut stranger = close_accounts(name, data.clone(), 10);
    stranger[0].key = [8; 32];
    assert_eq!(err_of(close_sale(&stranger, &[], &PROGRAM)), FlashSaleError::InvalidArgument);
    let mut unsigned = close_accounts(name, data.clone(), 10);
    unsigned[0].is_signer = false;
    assert_eq!(err_of(close_sale(&unsigned, &[], &PROGRAM)), FlashSaleError::MissingRequiredSignature);
    let mut foreign = close_accounts(name, data.clone(), 10);
    foreign[5].owner = SYSTEM;
    assert_eq!(err_of(close_sale(&foreign, &[], &PROGRAM)), FlashSaleError::IllegalOwner);
    let mut wrong_sale = close_accounts(name, data, 10);
    wrong_sale[5].key = [1; 32];
    assert_eq!(err_of(close_sale(&wrong_sale, &[], &PROGRAM)), FlashSaleError::InvalidArgument);
    let garbage = close_accounts(name, vec![1, 0, 0], 10);
    assert_eq!(err_of(close_sale(&garbage, &[], &PROGRAM)), FlashSaleError::InvalidAccountData);
}

#[test]
fn dispatch_by_opcode() {
    let name = b"desk";
    let accounts = close_accounts(name, sale_data(&record(name, 30, 5)), 0);
    assert_eq!(err_of(process_instruction(&PROGRAM, &accounts, &[], 0, 0)), FlashSaleError::InvalidInstructionData);
    assert_eq!(err_of(process_instruction(&PROGRAM, &accounts, &[3], 0, 0)), FlashSaleError::InvalidInstructionData);
    assert_eq!(process_instruction(&PROGRAM, &accounts, &[1], 0, 0).ok().unwrap().len(), 1);
    let mut args = vec![0u8];
    args.extend_from_slice(&open_args(40, 60, 3, name));
    assert_eq!(process_instruction(&PROGRAM, &open_accounts(name), &args, 0, 1).ok().unwrap().len(), 5);
    let mut redeem = vec![2u8];
    redeem.extend_from_slice(&redeem_args(2, 9));
    let raccounts = redeem_accounts(name, sale_data(&record(name, 30, 5)));
    let plan = process_instruction(&PROGRAM, &raccounts, &redeem, 0, 0).ok().unwrap();
    assert!(matches!(plan[0], Action::Transfer { lamports: 60, .. }));
}

/// Balances kept by the host and the token program, enough to run plans.
struct Ledger {
    lamports: Vec<u64>,
    tokens: Vec<u64>,
}

impl Ledger {
    /// Runs a plan against the accounts of one invocation, all or nothing.
    fn run(&mut self, plan: &[Action], keys: &[Pubkey]) -> Result<(), &'static str> {
        let mut lamports = self.lamports.clone();
        let mut tokens = self.tokens.clone();
        for action in plan {
            match action {
                Action::Transfer { from, to, lamports: n } => {
                    lamports[*from] = lamports[*from].checked_sub(*n).ok_or("insufficient lamports")?;
                    lamports[*to] += n;
                }
                Action::InvokeToken { instruction, .. } => {
                    let amount = u64::from_le_bytes(instruction.data[1..9].try_into().unwrap());
                    let src = keys.iter().position(|k| *k == instruction.accounts[0].pubkey).unwrap();
                    let dst = keys.iter().position(|k| *k == instruction.accounts[2].pubkey).unwrap();
                    tokens[src] = tokens[src].checked_sub(amount).ok_or("insufficient funds")?;
                    tokens[dst] += amount;
                }
                Action::Sweep { from, to, lamports: n } => {
                    lamports[*from] -= n;
                    lamports[*to] += n;
                }
                _ => {}
            }
        }
        self.lamports = lamports;
        self.tokens = tokens;
        Ok(())
    }
}

#[test]
fn open_then_redeem_moves_balances() {
    let name = b"poster";
    let oaccounts = open_accounts(name);
    let oplan = init_flash_sale(&oaccounts, &open_args(25, 60, 1, name), &PROGRAM, 100, 1_000).ok().unwrap();
    let stored = match &oplan[3] {
        Action::WriteData { data, .. } => data.clone(),
        _ => panic!("expected the record write"),
    };
    let raccounts = redeem_accounts(name, stored);
    let keys: Vec<Pubkey> = raccounts.iter().map(|a| a.key).collect();
    let mut ledger = Ledger { lamports: vec![500, 0, 0, 0, 0, 40, 0, 0, 0], tokens: vec![0, 0, 0, 0, 1, 0, 0, 0, 0] };
    let rplan = get_token(&raccounts, &redeem_args(1, 9), &PROGRAM).ok().unwrap();
    assert!(ledger.run(&rplan, &keys).is_ok());
    assert_eq!(ledger.lamports[0], 475);
    assert_eq!(ledger.lamports[5], 65);
    assert_eq!(ledger.tokens[4], 0);
    assert_eq!(ledger.tokens[1], 1);
}

#[test]
fn racing_redeems_for_the_last_unit() {
    let name = b"poster";
    let raccounts = redeem_accounts(name, sale_data(&record(name, 25, 0)));
    let keys: Vec<Pubkey> = raccounts.iter().map(|a| a.key).collect();
    let mut ledger = Ledger { lamports: vec![500, 0, 0, 0, 0, 0, 0, 0, 0], tokens: vec![0, 0, 0, 0, 1, 0, 0, 0, 0] };
    let first = get_token(&raccounts, &redeem_args(1, 9), &PROGRAM).ok().unwrap();
    let second = get_token(&raccounts, &redeem_args(1, 9), &PROGRAM).ok().unwrap();
    assert!(ledger.run(&first, &keys).is_ok());
    assert_eq!(ledger.run(&second, &keys), Err("insufficient funds"));
    assert_eq!(ledger.tokens[4], 0);
    assert_eq!(ledger.tokens[1], 1);
    assert_eq!(ledger.lamports[0], 475);
}
