use vstd::prelude::*;

use solana_program::program_error::ProgramError;
use spl_token_lending::solana_program::program_pack::Pack;
use spl_token_lending::state::{LendingMarket, Reserve};

use crate::instruction::le_bytes;
use crate::key::{meta_is, AccountMetaView, DepositKeys, Invocation, Key};

verus! {

#[verifier::external_type_specification]
#[verifier::external_body]
pub struct ExProgramError(ProgramError);

/// Packed length of a lending market record.
pub const LENDING_MARKET_LEN: usize = 258;

/// Packed length of a reserve record.
pub const RESERVE_LEN: usize = 571;

/// Tag byte of the lending program's deposit instruction.
pub const LENDING_DEPOSIT_TAG: u8 = 4;

/// Identity of the lending program.
pub open spec fn lending_program_key() -> Seq<u8> {
    seq![81u8, 48u8, 150u8, 225u8, 252u8, 70u8, 100u8, 67u8, 215u8, 140u8, 172u8, 49u8, 220u8, 195u8, 59u8, 25u8, 190u8, 144u8, 98u8, 179u8, 32u8, 237u8, 87u8, 200u8, 240u8, 219u8, 83u8, 137u8, 167u8, 8u8, 65u8, 236u8]
}

/// Identity of the token program.
pub open spec fn token_program_key() -> Seq<u8> {
    seq![6u8, 221u8, 246u8, 225u8, 215u8, 101u8, 161u8, 147u8, 217u8, 203u8, 225u8, 70u8, 206u8, 235u8, 121u8, 172u8, 28u8, 180u8, 133u8, 237u8, 95u8, 91u8, 55u8, 145u8, 58u8, 140u8, 245u8, 133u8, 126u8, 255u8, 0u8, 169u8]
}

/// Identity of the clock sysvar.
pub open spec fn clock_sysvar_key() -> Seq<u8> {
    seq![6u8, 167u8, 213u8, 23u8, 24u8, 199u8, 116u8, 201u8, 40u8, 86u8, 99u8, 152u8, 105u8, 29u8, 94u8, 182u8, 139u8, 94u8, 184u8, 163u8, 155u8, 75u8, 109u8, 92u8, 115u8, 85u8, 91u8, 33u8, 0u8, 0u8, 0u8, 0u8]
}

/// Whether the lending program accepts `data` as an initialized lending market record.
pub uninterp spec fn lending_market_accepts(data: Seq<u8>) -> bool;

/// Whether the lending program accepts `data` as an initialized reserve record.
pub uninterp spec fn reserve_accepts(data: Seq<u8>) -> bool;

/// The address that the lending program derives for the authority of a lending market.
pub uninterp spec fn market_authority(program_id: Seq<u8>, lending_market: Seq<u8>) -> Seq<u8>;

/// The bytes of the lending market that a reserve record names as its owner.
pub open spec fn reserve_market_field(data: Seq<u8>) -> Seq<u8> {
    data.subrange(10, 42)
}

/// Whether `c` is the lending program's deposit instruction for `program_id`, `amount`
/// and the accounts `k`.
pub open spec fn is_lending_deposit(c: Invocation, program_id: Seq<u8>, amount: u64, k: DepositKeys) -> bool {
    &&& c.program_id.bytes@ == program_id
    &&& c.data@ == seq![LENDING_DEPOSIT_TAG].add(le_bytes(amount))
    &&& c.accounts@.len() == 10
    &&& meta_is(c.accounts@[0], k.source_liquidity.bytes@, false, true)
    &&& meta_is(c.accounts@[1], k.destination_collateral.bytes@, false, true)
    &&& meta_is(c.accounts@[2], k.reserve.bytes@, false, true)
    &&& meta_is(c.accounts@[3], k.reserve_liquidity_supply.bytes@, false, true)
    &&& meta_is(c.accounts@[4], k.reserve_collateral_mint.bytes@, false, true)
    &&& meta_is(c.accounts@[5], k.lending_market.bytes@, false, false)
    &&& meta_is(c.accounts@[6], market_authority(program_id, k.lending_market.bytes@), false, false)
    &&& meta_is(c.accounts@[7], k.user_transfer_authority.bytes@, true, false)
    &&& meta_is(c.accounts@[8], clock_sysvar_key(), false, false)
    &&& meta_is(c.accounts@[9], token_program_key(), false, false)
}

/// Relies on `spl_token_lending::id`: the lending program's declared identity.
#[verifier::external_body]
pub(crate) fn lending_program_id() -> (r: Key)
    ensures
        r.bytes@ == lending_program_key(),
{
    Key { bytes: spl_token_lending::id().to_bytes() }
}

/// Relies on `Pack::unpack` for `LendingMarket`: it accepts only buffers of the record's
/// packed length whose version byte is set, and returns the decoding error otherwise.
#[verifier::external_body]
pub(crate) fn unpack_lending_market(data: &[u8]) -> (r: Result<(), ProgramError>)
    ensures
        r is Ok <==> lending_market_accepts(data@),
        r is Ok ==> data@.len() == LENDING_MARKET_LEN && data@[0] != 0,
{
    match LendingMarket::unpack(data) {
        Ok(_) => Ok(()),
        Err(e) => Err(e),
    }
}

/// Relies on `Pack::unpack` for `Reserve`: it accepts only buffers of the record's packed
/// length whose version byte is set, reads the owning lending market from bytes 10 to 42,
/// and returns the decoding error otherwise.
#[verifier::external_body]
pub(crate) fn unpack_reserve_market(data: &[u8]) -> (r: Result<Key, ProgramError>)
    ensures
        r is Ok <==> reserve_accepts(data@),
        r is Ok ==> data@.len() == RESERVE_LEN && data@[0] != 0,
        r is Ok ==> r->Ok_0.bytes@ == reserve_market_field(data@),
{
    match Reserve::unpack(data) {
        Ok(reserve) => Ok(Key { bytes: reserve.lending_market.to_bytes() }),
        Err(e) => Err(e),
    }
}

/// Relies on `spl_token_lending::instruction::deposit_reserve_liquidity`: the lending
/// program's deposit instruction, with the market authority derived from the lending
/// market and the program identity, and the clock sysvar and token program appended.
/// The derivation (`Pubkey::find_program_address`) panics only when none of the 256 bump
/// seeds gives an off-curve address, which its documentation calls statistically
/// improbable.
#[verifier::external_body]
pub(crate) fn lending_deposit_instruction(program_id: &Key, amount: u64, k: &DepositKeys) -> (r: Invocation)
    ensures
        is_lending_deposit(r, program_id.bytes@, amount, *k),
        r.accounts@[6].key.bytes@ == market_authority(program_id.bytes@, k.lending_market.bytes@),
{
    let ix = spl_token_lending::instruction::deposit_reserve_liquidity(
        program_id.bytes.into(), amount, k.source_liquidity.bytes.into(),
        k.destination_collateral.bytes.into(), k.reserve.bytes.into(),
        k.reserve_liquidity_supply.bytes.into(), k.reserve_collateral_mint.bytes.into(),
        k.lending_market.bytes.into(), k.user_transfer_authority.bytes.into(),
    );
    let accounts = ix.accounts.iter().map(
        |m| AccountMetaView::new(m.pubkey.to_bytes(), m.is_signer, m.is_writable),
    ).collect();
    Invocation { program_id: Key { bytes: ix.program_id.to_bytes() }, accounts, data: ix.data }
}

} // verus!
