use vstd::prelude::*;

verus! {

/// A 32-byte account or program identity.
#[derive(Debug, Clone, Copy)]
pub struct Key {
    pub bytes: [u8; 32],
}

impl Key {
    pub fn new(bytes: [u8; 32]) -> (r: Key)
        ensures
            r.bytes@ == bytes@,
    {
        Key { bytes }
    }

    /// Whether two keys hold the same bytes.
    pub fn same(&self, other: &Key) -> (r: bool)
        ensures
            r == (self.bytes@ == other.bytes@),
    {
        let mut i: usize = 0;
        while i < 32
            invariant
                0 <= i <= 32,
                self.bytes@.len() == 32,
                other.bytes@.len() == 32,
                forall|j: int| 0 <= j < i ==> self.bytes@[j] == other.bytes@[j],
            decreases 32 - i,
        {
            if self.bytes[i] != other.bytes[i] {
                return false;
            }
            i = i + 1;
        }
        assert(self.bytes@ =~= other.bytes@);
        true
    }
}

/// What the program reads of an account handed to it: its identity, the program that owns
/// it and its data.
#[derive(Debug, Clone)]
pub struct AccountView {
    pub key: Key,
    pub owner: Key,
    pub data: Vec<u8>,
}

/// One entry of the account list of an instruction: an account and its access mode.
#[derive(Debug, Clone, Copy)]
pub struct AccountMetaView {
    pub key: Key,
    pub is_signer: bool,
    pub is_writable: bool,
}

impl AccountMetaView {
    pub fn new(bytes: [u8; 32], is_signer: bool, is_writable: bool) -> (r: AccountMetaView)
        ensures
            r.key.bytes@ == bytes@,
            r.is_signer == is_signer,
            r.is_writable == is_writable,
    {
        AccountMetaView { key: Key { bytes }, is_signer, is_writable }
    }
}

/// Whether `m` names the account `key` with the given access mode.
pub open spec fn meta_is(m: AccountMetaView, key: Seq<u8>, is_signer: bool, is_writable: bool) -> bool {
    m.key.bytes@ == key && m.is_signer == is_signer && m.is_writable == is_writable
}

/// An instruction addressed to a program: the program, the accounts in order and the payload.
#[derive(Debug, Clone)]
pub struct Invocation {
    pub program_id: Key,
    pub accounts: Vec<AccountMetaView>,
    pub data: Vec<u8>,
}

/// The identities of the accounts that a liquidity deposit involves.
#[derive(Debug, Clone, Copy)]
pub struct DepositKeys {
    pub source_liquidity: Key,
    pub destination_collateral: Key,
    pub reserve: Key,
    pub reserve_liquidity_supply: Key,
    pub reserve_collateral_mint: Key,
    pub lending_market: Key,
    pub user_transfer_authority: Key,
}

} // verus!
