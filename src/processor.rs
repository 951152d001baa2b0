use vstd::prelude::*;

use crate::error::{PoCError, ProcessError};
use crate::instruction::{unpacked, PoCInstruction};
use crate::key::{AccountView, DepositKeys, Invocation};
use crate::lending::{
    is_lending_deposit, lending_deposit_instruction, lending_market_accepts, reserve_accepts,
    reserve_market_field, unpack_lending_market, unpack_reserve_market,
};

verus! {

/// Position of the source liquidity token account.
pub const SOURCE_LIQUIDITY: usize = 0;
/// Position of the destination collateral token account.
pub const DESTINATION_COLLATERAL: usize = 1;
/// Position of the reserve account.
pub const RESERVE: usize = 2;
/// Position of the reserve liquidity supply account.
pub const RESERVE_LIQUIDITY_SUPPLY: usize = 3;
/// Position of the reserve collateral mint account.
pub const RESERVE_COLLATERAL_MINT: usize = 4;
/// Position of the lending market account.
pub const LENDING_MARKET: usize = 5;
/// Position of the user transfer authority account.
pub const USER_TRANSFER_AUTHORITY: usize = 6;
/// Position of the lending program account.
pub const LENDING_PROGRAM: usize = 7;
/// Number of accounts that a deposit needs.
pub const DEPOSIT_ACCOUNTS: usize = 8;

/// What validation decides of a deposit request.
pub enum Verdict {
    /// The request is refused with this error.
    Reject(ProcessError),
    /// An account's data does not decode as the expected record.
    MalformedAccount,
    /// The request is valid.
    Accept,
}

/// The identities of the deposit's accounts, taken by position.
pub open spec fn deposit_keys_of(a: Seq<AccountView>) -> DepositKeys
    recommends
        a.len() >= DEPOSIT_ACCOUNTS,
{
    DepositKeys {
        source_liquidity: a[SOURCE_LIQUIDITY as int].key,
        destination_collateral: a[DESTINATION_COLLATERAL as int].key,
        reserve: a[RESERVE as int].key,
        reserve_liquidity_supply: a[RESERVE_LIQUIDITY_SUPPLY as int].key,
        reserve_collateral_mint: a[RESERVE_COLLATERAL_MINT as int].key,
        lending_market: a[LENDING_MARKET as int].key,
        user_transfer_authority: a[USER_TRANSFER_AUTHORITY as int].key,
    }
}

/// The checks of a deposit, in order; the first that fails decides.
pub open spec fn deposit_verdict(amount: u64, a: Seq<AccountView>) -> Verdict {
    if amount == 0 {
        Verdict::Reject(ProcessError::Program(PoCError::InvalidAmount))
    } else if a.len() < DEPOSIT_ACCOUNTS {
        Verdict::Reject(ProcessError::NotEnoughAccountKeys)
    } else {
        let market = a[LENDING_MARKET as int];
        let reserve = a[RESERVE as int];
        let program = a[LENDING_PROGRAM as int].key.bytes@;
        if !lending_market_accepts(market.data@) {
            Verdict::MalformedAccount
        } else if market.owner.bytes@ != program {
            Verdict::Reject(ProcessError::InvalidAccountOwner)
        } else if !reserve_accepts(reserve.data@) {
            Verdict::MalformedAccount
        } else if reserve.owner.bytes@ != program {
            Verdict::Reject(ProcessError::InvalidAccountOwner)
        } else if reserve_market_field(reserve.data@) != market.key.bytes@ {
            Verdict::Reject(ProcessError::InvalidAccountInput)
        } else {
            Verdict::Accept
        }
    }
}

/// Whether `r` is what a deposit of `amount` with accounts `a` returns: the refusal that
/// validation decides, or else the lending program's deposit instruction for those accounts.
pub open spec fn deposit_outcome(r: Result<Invocation, ProcessError>, amount: u64, a: Seq<AccountView>) -> bool {
    match deposit_verdict(amount, a) {
        Verdict::Reject(e) => r == Err::<Invocation, ProcessError>(e),
        Verdict::MalformedAccount => r is Err && r->Err_0 is AccountData,
        Verdict::Accept => r is Ok && is_lending_deposit(
            r->Ok_0,
            a[LENDING_PROGRAM as int].key.bytes@,
            amount,
            deposit_keys_of(a),
        ),
    }
}

/// Decodes an instruction, validates its accounts and builds the call into the lending
/// program that carries it out.
pub fn process_instruction(instruction_data: &[u8], accounts: &Vec<AccountView>) -> (r: Result<
    Invocation,
    ProcessError,
>)
    ensures
        match unpacked(instruction_data@) {
            None => r == Err::<Invocation, ProcessError>(
                ProcessError::Program(PoCError::InvalidInstruction),
            ),
            Some(PoCInstruction::DepositReserveLiquidity { liquidity_amount }) => deposit_outcome(
                r,
                liquidity_amount,
                accounts@,
            ),
        },
{
    match PoCInstruction::unpack(instruction_data) {
        Err(e) => Err(ProcessError::Program(e)),
        Ok(PoCInstruction::DepositReserveLiquidity { liquidity_amount }) => {
            process_deposit_reserve_liquidity(liquidity_amount, accounts)
        },
    }
}

/// Validates a deposit of `liquidity_amount` and builds the lending program's deposit
/// instruction for it.
pub fn process_deposit_reserve_liquidity(liquidity_amount: u64, accounts: &Vec<AccountView>) -> (r:
    Result<Invocation, ProcessError>)
    ensures
        deposit_outcome(r, liquidity_amount, accounts@),
{
    if liquidity_amount == 0 {
        return Err(ProcessError::Program(PoCError::InvalidAmount));
    }
    if accounts.len() < DEPOSIT_ACCOUNTS {
        return Err(ProcessError::NotEnoughAccountKeys);
    }
    let market = &accounts[LENDING_MARKET];
    let reserve = &accounts[RESERVE];
    let program = &accounts[LENDING_PROGRAM].key;

    if let Err(e) = unpack_lending_market(market.data.as_slice()) {
        return Err(ProcessError::AccountData(e));
    }
    if !market.owner.same(program) {
        return Err(ProcessError::InvalidAccountOwner);
    }
    let reserve_market = match unpack_reserve_market(reserve.data.as_slice()) {
        Ok(k) => k,
        Err(e) => return Err(ProcessError::AccountData(e)),
    };
    if !reserve.owner.same(program) {
        return Err(ProcessError::InvalidAccountOwner);
    }
    if !reserve_market.same(&market.key) {
        return Err(ProcessError::InvalidAccountInput);
    }

    let keys = DepositKeys {
        source_liquidity: accounts[SOURCE_LIQUIDITY].key,
        destination_collateral: accounts[DESTINATION_COLLATERAL].key,
        reserve: reserve.key,
        reserve_liquidity_supply: accounts[RESERVE_LIQUIDITY_SUPPLY].key,
        reserve_collateral_mint: accounts[RESERVE_COLLATERAL_MINT].key,
        lending_market: market.key,
        user_transfer_authority: accounts[USER_TRANSFER_AUTHORITY].key,
    };
    Ok(lending_deposit_instruction(program, liquidity_amount, &keys))
}

/// A deposit of zero is refused with `InvalidAmount`, whatever the accounts hold.
pub proof fn lemma_zero_amount_rejected(r: Result<Invocation, ProcessError>, accounts: Seq<AccountView>)
    requires
        deposit_outcome(r, 0, accounts),
    ensures
        r == Err::<Invocation, ProcessError>(ProcessError::Program(PoCError::InvalidAmount)),
{
}

/// A well-formed lending market that the named lending program does not own is refused
/// with `InvalidAccountOwner`, so no call into the lending program is built.
pub proof fn lemma_foreign_market_rejected(
    r: Result<Invocation, ProcessError>,
    amount: u64,
    accounts: Seq<AccountView>,
)
    requires
        deposit_outcome(r, amount, accounts),
        amount != 0,
        accounts.len() >= DEPOSIT_ACCOUNTS,
        lending_market_accepts(accounts[LENDING_MARKET as int].data@),
        accounts[LENDING_MARKET as int].owner.bytes@ != accounts[LENDING_PROGRAM as int].key.bytes@,
    ensures
        r == Err::<Invocation, ProcessError>(ProcessError::InvalidAccountOwner),
{
}

/// A reserve that records another lending market than the one supplied is refused with
/// `InvalidAccountInput` once the earlier checks pass, so no call into the lending program
/// is built.
pub proof fn lemma_reserve_of_other_market_rejected(
    r: Result<Invocation, ProcessError>,
    amount: u64,
    accounts: Seq<AccountView>,
)
    requires
        deposit_outcome(r, amount, accounts),
        amount != 0,
        accounts.len() >= DEPOSIT_ACCOUNTS,
        lending_market_accepts(accounts[LENDING_MARKET as int].data@),
        accounts[LENDING_MARKET as int].owner.bytes@ == accounts[LENDING_PROGRAM as int].key.bytes@,
        reserve_accepts(accounts[RESERVE as int].data@),
        accounts[RESERVE as int].owner.bytes@ == accounts[LENDING_PROGRAM as int].key.bytes@,
        reserve_market_field(accounts[RESERVE as int].data@) != accounts[LENDING_MARKET as int].key.bytes@,
    ensures
        r == Err::<Invocation, ProcessError>(ProcessError::InvalidAccountInput),
{
}

} // verus!
