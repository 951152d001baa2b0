use vstd::prelude::*;

use crate::error::PoCError;
use crate::key::{meta_is, AccountMetaView, Invocation, Key};
use crate::lending::{lending_program_id, lending_program_key};

verus! {

/// Length of a packed instruction: one tag byte and an eight-byte amount.
pub const PACKED_LEN: usize = 9;

/// Tag byte of `DepositReserveLiquidity`.
pub const DEPOSIT_TAG: u8 = 0;

/// The eight little-endian bytes of `x`.
pub open spec fn le_bytes(x: u64) -> Seq<u8> {
    seq![
        (x & 0xff) as u8,
        ((x >> 8u64) & 0xff) as u8,
        ((x >> 16u64) & 0xff) as u8,
        ((x >> 24u64) & 0xff) as u8,
        ((x >> 32u64) & 0xff) as u8,
        ((x >> 40u64) & 0xff) as u8,
        ((x >> 48u64) & 0xff) as u8,
        ((x >> 56u64) & 0xff) as u8,
    ]
}

/// The integer whose little-endian bytes are the first eight of `b`.
pub open spec fn le_value(b: Seq<u8>) -> u64
    recommends
        b.len() >= 8,
{
    (b[0] as u64) | ((b[1] as u64) << 8u64) | ((b[2] as u64) << 16u64) | ((b[3] as u64) << 24u64)
        | ((b[4] as u64) << 32u64) | ((b[5] as u64) << 40u64) | ((b[6] as u64) << 48u64) | ((b[7]
        as u64) << 56u64)
}

pub proof fn lemma_le_value_of_le_bytes(x: u64)
    ensures
        le_value(le_bytes(x)) == x,
{
    let b = le_bytes(x);
    let (b0, b1, b2, b3, b4, b5, b6, b7) = (b[0], b[1], b[2], b[3], b[4], b[5], b[6], b[7]);
    assert(b0 == (x & 0xff) as u8 && b1 == ((x >> 8u64) & 0xff) as u8 && b2 == ((x >> 16u64)
        & 0xff) as u8 && b3 == ((x >> 24u64) & 0xff) as u8 && b4 == ((x >> 32u64) & 0xff) as u8
        && b5 == ((x >> 40u64) & 0xff) as u8 && b6 == ((x >> 48u64) & 0xff) as u8 && b7 == ((x
        >> 56u64) & 0xff) as u8);
    assert((b0 as u64) | ((b1 as u64) << 8u64) | ((b2 as u64) << 16u64) | ((b3 as u64) << 24u64)
        | ((b4 as u64) << 32u64) | ((b5 as u64) << 40u64) | ((b6 as u64) << 48u64) | ((b7 as u64)
        << 56u64) == x) by (bit_vector)
        requires
            b0 == (x & 0xff) as u8,
            b1 == ((x >> 8u64) & 0xff) as u8,
            b2 == ((x >> 16u64) & 0xff) as u8,
            b3 == ((x >> 24u64) & 0xff) as u8,
            b4 == ((x >> 32u64) & 0xff) as u8,
            b5 == ((x >> 40u64) & 0xff) as u8,
            b6 == ((x >> 48u64) & 0xff) as u8,
            b7 == ((x >> 56u64) & 0xff) as u8,
    ;
}

pub proof fn lemma_le_bytes_of_le_value(b: Seq<u8>)
    requires
        b.len() == 8,
    ensures
        le_bytes(le_value(b)) == b,
{
    let (b0, b1, b2, b3, b4, b5, b6, b7) = (b[0], b[1], b[2], b[3], b[4], b[5], b[6], b[7]);
    let x = le_value(b);
    assert(x == (b0 as u64) | ((b1 as u64) << 8u64) | ((b2 as u64) << 16u64) | ((b3 as u64)
        << 24u64) | ((b4 as u64) << 32u64) | ((b5 as u64) << 40u64) | ((b6 as u64) << 48u64) | ((
    b7 as u64) << 56u64));
    assert(b0 == (x & 0xff) as u8 && b1 == ((x >> 8u64) & 0xff) as u8 && b2 == ((x >> 16u64)
        & 0xff) as u8 && b3 == ((x >> 24u64) & 0xff) as u8 && b4 == ((x >> 32u64) & 0xff) as u8
        && b5 == ((x >> 40u64) & 0xff) as u8 && b6 == ((x >> 48u64) & 0xff) as u8 && b7 == ((x
        >> 56u64) & 0xff) as u8) by (bit_vector)
        requires
            x == (b0 as u64) | ((b1 as u64) << 8u64) | ((b2 as u64) << 16u64) | ((b3 as u64)
                << 24u64) | ((b4 as u64) << 32u64) | ((b5 as u64) << 40u64) | ((b6 as u64)
                << 48u64) | ((b7 as u64) << 56u64),
    ;
    assert(le_bytes(x) =~= b);
}

/// Instructions understood by this program.
#[derive(Debug, Clone, Copy, PartialEq, Eq, Structural)]
pub enum PoCInstruction {
    /// Deposit liquidity into a reserve of the lending protocol in exchange for collateral.
    ///
    /// Accounts, by position:
    ///   0. `[writable]` source liquidity token account;
    ///   1. `[writable]` destination collateral token account;
    ///   2. `[writable]` reserve;
    ///   3. `[writable]` reserve liquidity supply;
    ///   4. `[writable]` reserve collateral mint;
    ///   5. `[]` lending market;
    ///   6. `[signer]` user transfer authority;
    ///   7. `[]` lending program id.
    DepositReserveLiquidity {
        /// Amount of liquidity to deposit in exchange for collateral tokens.
        liquidity_amount: u64,
    },
}

/// The wire form of an instruction.
pub open spec fn packed(ix: PoCInstruction) -> Seq<u8> {
    match ix {
        PoCInstruction::DepositReserveLiquidity { liquidity_amount } => seq![DEPOSIT_TAG].add(
            le_bytes(liquidity_amount),
        ),
    }
}

/// The instruction that `input` encodes, if it is well formed.
pub open spec fn unpacked(input: Seq<u8>) -> Option<PoCInstruction> {
    if input.len() == PACKED_LEN && input[0] == DEPOSIT_TAG {
        Some(PoCInstruction::DepositReserveLiquidity { liquidity_amount: le_value(input.drop_first()) })
    } else {
        None
    }
}

impl PoCInstruction {
    /// Decodes an instruction from its wire form.
    pub fn unpack(input: &[u8]) -> (r: Result<PoCInstruction, PoCError>)
        ensures
            match unpacked(input@) {
                Some(ix) => r == Ok::<PoCInstruction, PoCError>(ix),
                None => r == Err::<PoCInstruction, PoCError>(PoCError::InvalidInstruction),
            },
    {
        if input.len() == 0 {
            return Err(PoCError::InvalidInstruction);
        }
        let tag = input[0];
        if tag != DEPOSIT_TAG || input.len() != PACKED_LEN {
            return Err(PoCError::InvalidInstruction);
        }
        let liquidity_amount = Self::unpack_amount(input)?;
        Ok(PoCInstruction::DepositReserveLiquidity { liquidity_amount })
    }

    /// Reads the amount that follows the tag byte: exactly eight little-endian bytes.
    fn unpack_amount(input: &[u8]) -> (r: Result<u64, PoCError>)
        requires
            input@.len() >= 1,
        ensures
            input@.len() == PACKED_LEN ==> r == Ok::<u64, PoCError>(le_value(input@.drop_first())),
            input@.len() != PACKED_LEN ==> r == Err::<u64, PoCError>(PoCError::InvalidInstruction),
    {
        if input.len() != PACKED_LEN {
            return Err(PoCError::InvalidInstruction);
        }
        let v: u64 = (input[1] as u64) | ((input[2] as u64) << 8u64) | ((input[3] as u64) << 16u64)
            | ((input[4] as u64) << 24u64) | ((input[5] as u64) << 32u64) | ((input[6] as u64)
            << 40u64) | ((input[7] as u64) << 48u64) | ((input[8] as u64) << 56u64);
        Ok(v)
    }

    /// Encodes the instruction in its wire form.
    pub fn pack(&self) -> (r: Vec<u8>)
        ensures
            r@ == packed(*self),
    {
        match *self {
            PoCInstruction::DepositReserveLiquidity { liquidity_amount: x } => {
                let mut buf: Vec<u8> = Vec::with_capacity(PACKED_LEN);
                buf.push(DEPOSIT_TAG);
                buf.push((x & 0xff) as u8);
                buf.push(((x >> 8u64) & 0xff) as u8);
                buf.push(((x >> 16u64) & 0xff) as u8);
                buf.push(((x >> 24u64) & 0xff) as u8);
                buf.push(((x >> 32u64) & 0xff) as u8);
                buf.push(((x >> 40u64) & 0xff) as u8);
                buf.push(((x >> 48u64) & 0xff) as u8);
                buf.push(((x >> 56u64) & 0xff) as u8);
                assert(buf@ =~= packed(*self));
                buf
            },
        }
    }
}

/// Builds a `DepositReserveLiquidity` instruction addressed to this program.
#[allow(clippy::too_many_arguments)]
pub fn deposit_reserve_liquidity(
    program_id: Key,
    liquidity_amount: u64,
    source_liquidity_pubkey: Key,
    destination_collateral_pubkey: Key,
    reserve_pubkey: Key,
    reserve_liquidity_supply_pubkey: Key,
    reserve_collateral_mint_pubkey: Key,
    lending_market_pubkey: Key,
    user_transfer_authority_pubkey: Key,
) -> (r: Invocation)
    ensures
        r.program_id.bytes@ == program_id.bytes@,
        r.data@ == packed(PoCInstruction::DepositReserveLiquidity { liquidity_amount }),
        r.accounts@.len() == 8,
        meta_is(r.accounts@[0], source_liquidity_pubkey.bytes@, false, true),
        meta_is(r.accounts@[1], destination_collateral_pubkey.bytes@, false, true),
        meta_is(r.accounts@[2], reserve_pubkey.bytes@, false, true),
        meta_is(r.accounts@[3], reserve_liquidity_supply_pubkey.bytes@, false, true),
        meta_is(r.accounts@[4], reserve_collateral_mint_pubkey.bytes@, false, true),
        meta_is(r.accounts@[5], lending_market_pubkey.bytes@, false, false),
        meta_is(r.accounts@[6], user_transfer_authority_pubkey.bytes@, true, false),
        meta_is(r.accounts@[7], lending_program_key(), false, false),
{
    let accounts = vec![
        AccountMetaView { key: source_liquidity_pubkey, is_signer: false, is_writable: true },
        AccountMetaView { key: destination_collateral_pubkey, is_signer: false, is_writable: true },
        AccountMetaView { key: reserve_pubkey, is_signer: false, is_writable: true },
        AccountMetaView { key: reserve_liquidity_supply_pubkey, is_signer: false, is_writable: true },
        AccountMetaView { key: reserve_collateral_mint_pubkey, is_signer: false, is_writable: true },
        AccountMetaView { key: lending_market_pubkey, is_signer: false, is_writable: false },
        AccountMetaView { key: user_transfer_authority_pubkey, is_signer: true, is_writable: false },
        AccountMetaView { key: lending_program_id(), is_signer: false, is_writable: false },
    ];
    let ix = PoCInstruction::DepositReserveLiquidity { liquidity_amount };
    Invocation { program_id, accounts, data: ix.pack() }
}

/// Round trip: decoding the encoding of an instruction gives that instruction back.
pub proof fn lemma_unpack_pack(ix: PoCInstruction)
    ensures
        unpacked(packed(ix)) == Some(ix),
{
    match ix {
        PoCInstruction::DepositReserveLiquidity { liquidity_amount } => {
            let p = packed(ix);
            assert(p.drop_first() =~= le_bytes(liquidity_amount));
            lemma_le_value_of_le_bytes(liquidity_amount);
        },
    }
}

/// Decoding accepts only encodings: every buffer that decodes is the encoding of the
/// instruction it decodes to.
pub proof fn lemma_pack_unpack(input: Seq<u8>)
    requires
        unpacked(input) is Some,
    ensures
        packed(unpacked(input)->0) == input,
{
    lemma_le_bytes_of_le_value(input.drop_first());
    assert(packed(unpacked(input)->0) =~= input);
}

/// A buffer shorter than an encoding, or whose tag byte is not the deposit tag, is rejected.
pub proof fn lemma_unpack_rejects_malformed(input: Seq<u8>)
    requires
        input.len() < PACKED_LEN || (input.len() > 0 && input[0] != DEPOSIT_TAG),
    ensures
        unpacked(input) is None,
{
}

} // verus!
