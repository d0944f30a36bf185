//! The accounts that a swap instruction names, and account data by address.

use crate::pubkey::Pubkey;
use vstd::prelude::*;

verus! {

/// One account of an instruction, and what the instruction may do with it.
#[derive(Debug, Clone, Copy, PartialEq, Eq)]
pub struct AccountMeta {
    pub pubkey: Pubkey,
    pub is_signer: bool,
    pub is_writable: bool,
}

impl AccountMeta {
    /// An account that may be written.
    pub fn new(pubkey: Pubkey, is_signer: bool) -> (meta: Self)
        ensures
            meta == (AccountMeta { pubkey, is_signer, is_writable: true }),
    {
        AccountMeta { pubkey, is_signer, is_writable: true }
    }

    /// An account that may only be read.
    pub fn new_readonly(pubkey: Pubkey, is_signer: bool) -> (meta: Self)
        ensures
            meta == (AccountMeta { pubkey, is_signer, is_writable: false }),
    {
        AccountMeta { pubkey, is_signer, is_writable: false }
    }
}

/// The accounts of a swap instruction.
#[derive(Debug, Clone, Copy)]
pub struct OmnipairSwapAccounts {
    pub pair: Pubkey,
    pub rate_model: Pubkey,
    pub futarchy_authority: Pubkey,
    pub token_in_vault: Pubkey,
    pub token_out_vault: Pubkey,
    pub user_token_in_account: Pubkey,
    pub user_token_out_account: Pubkey,
    pub token_in_mint: Pubkey,
    pub token_out_mint: Pubkey,
    pub user: Pubkey,
    pub token_program: Pubkey,
    pub token_2022_program: Pubkey,
    pub event_authority: Pubkey,
    pub omnipair_program: Pubkey,
}

/// An account that a swap writes and that need not sign.
pub open spec fn writable(pubkey: Pubkey) -> AccountMeta {
    AccountMeta { pubkey, is_signer: false, is_writable: true }
}

/// An account that a swap only reads and that need not sign.
pub open spec fn readonly(pubkey: Pubkey) -> AccountMeta {
    AccountMeta { pubkey, is_signer: false, is_writable: false }
}

/// The account that signs a swap.
pub open spec fn signer(pubkey: Pubkey) -> AccountMeta {
    AccountMeta { pubkey, is_signer: true, is_writable: true }
}

impl OmnipairSwapAccounts {
    /// The accounts in the order in which the program expects them.
    pub open spec fn metas(self) -> Seq<AccountMeta> {
        seq![
            writable(self.pair),
            writable(self.rate_model),
            readonly(self.futarchy_authority),
            writable(self.token_in_vault),
            writable(self.token_out_vault),
            writable(self.user_token_in_account),
            writable(self.user_token_out_account),
            readonly(self.token_in_mint),
            readonly(self.token_out_mint),
            signer(self.user),
            readonly(self.token_program),
            readonly(self.token_2022_program),
            readonly(self.event_authority),
            readonly(self.omnipair_program),
        ]
    }
}

impl From<OmnipairSwapAccounts> for Vec<AccountMeta> {
    fn from(accounts: OmnipairSwapAccounts) -> (metas: Self)
        ensures
            metas@ == accounts.metas(),
    {
        let metas = vec![
            AccountMeta::new(accounts.pair, false),
            AccountMeta::new(accounts.rate_model, false),
            AccountMeta::new_readonly(accounts.futarchy_authority, false),
            AccountMeta::new(accounts.token_in_vault, false),
            AccountMeta::new(accounts.token_out_vault, false),
            AccountMeta::new(accounts.user_token_in_account, false),
            AccountMeta::new(accounts.user_token_out_account, false),
            AccountMeta::new_readonly(accounts.token_in_mint, false),
            AccountMeta::new_readonly(accounts.token_out_mint, false),
            AccountMeta::new(accounts.user, true),
            AccountMeta::new_readonly(accounts.token_program, false),
            AccountMeta::new_readonly(accounts.token_2022_program, false),
            AccountMeta::new_readonly(accounts.event_authority, false),
            AccountMeta::new_readonly(accounts.omnipair_program, false),
        ];
        assert(metas@ =~= accounts.metas());
        metas
    }
}

impl vstd::std_specs::convert::FromSpecImpl<OmnipairSwapAccounts> for Vec<AccountMeta> {
    open spec fn obeys_from_spec() -> bool {
        false
    }

    open spec fn from_spec(accounts: OmnipairSwapAccounts) -> Self {
        arbitrary()
    }
}

/// An account: its address and its data.
#[derive(Debug)]
pub struct KeyedAccount {
    pub key: Pubkey,
    pub data: Vec<u8>,
}

impl Clone for KeyedAccount {
    /// The same address with the same data.
    fn clone(&self) -> (copy: Self)
        ensures
            copy.key == self.key,
            copy.data@ == self.data@,
    {
        let data = self.data.clone();
        assert(data@ =~= self.data@);
        KeyedAccount { key: self.key, data }
    }
}

/// Data of accounts by their addresses.
pub struct AccountMap {
    entries: Vec<KeyedAccount>,
}

/// The map that a sequence of insertions leads to: for each address, the last one counts.
spec fn inserted(entries: Seq<KeyedAccount>) -> Map<Pubkey, Seq<u8>>
    decreases entries.len(),
{
    if entries.len() == 0 {
        Map::empty()
    } else {
        inserted(entries.drop_last()).insert(entries.last().key, entries.last().data@)
    }
}

impl View for AccountMap {
    type V = Map<Pubkey, Seq<u8>>;

    closed spec fn view(&self) -> Map<Pubkey, Seq<u8>> {
        inserted(self.entries@)
    }
}

impl AccountMap {
    /// A map without accounts.
    pub fn new() -> (map: Self)
        ensures
            map@ == Map::<Pubkey, Seq<u8>>::empty(),
    {
        AccountMap { entries: Vec::new() }
    }

    /// Puts an account in, in place of an earlier one with its address.
    pub fn insert(&mut self, key: Pubkey, data: Vec<u8>)
        ensures
            final(self)@ == old(self)@.insert(key, data@),
    {
        self.entries.push(KeyedAccount { key, data });
        assert(self.entries@.drop_last() =~= old(self).entries@);
    }

    /// The data of the account at `key`, if there is one.
    pub fn get(&self, key: &Pubkey) -> (data: Option<&Vec<u8>>)
        ensures
            data is Some <==> self@.contains_key(*key),
            data matches Some(bytes) ==> bytes@ == self@[*key],
    {
        let mut end: usize = self.entries.len();
        assert(self.entries@.take(end as int) =~= self.entries@);
        while end > 0
            invariant
                end <= self.entries@.len(),
                self@.contains_key(*key) <==> inserted(self.entries@.take(end as int)).contains_key(
                    *key,
                ),
                self@.contains_key(*key) ==> self@[*key] == inserted(
                    self.entries@.take(end as int),
                )[*key],
            decreases end,
        {
            end = end - 1;
            let entry = &self.entries[end];
            assert(self.entries@.take(end + 1).drop_last() =~= self.entries@.take(end as int));
            assert(self.entries@.take(end + 1).last() == entry);
            if entry.key == *key {
                return Some(&entry.data);
            }
        }
        None
    }
}

} // verus!
