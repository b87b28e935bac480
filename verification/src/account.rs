//! Accounts: a balance bound to one definition.
//!
//! Balances and amounts are whole numbers of the currency's smallest unit
//! (hundredths), so that sums are exact.

use crate::definition::standard::StandardAccounts;
use crate::definition::{AccountDefinition, AccountDefinitionTrait};
use crate::id::ID;
use crate::index::Index;
use vstd::prelude::*;

verus! {

/// An account as a mathematical value.
pub struct AccountView {
    pub definition_id: ID,
    pub balance: int,
}

/// A balance bound to one definition.
#[derive(Debug)]
pub struct Account {
    definition_id: ID,
    balance: i64,
}

impl View for Account {
    type V = AccountView;

    closed spec fn view(&self) -> AccountView {
        AccountView { definition_id: self.definition_id, balance: self.balance as int }
    }
}

impl Account {
    /// An account's balance fits the machine's signed 64-bit range.
    pub proof fn lemma_balance_in_range(&self)
        ensures
            i64::MIN <= self@.balance <= i64::MAX,
    {
    }

    /// A new account for a definition, with nothing on it.
    pub fn new(definition: &AccountDefinition) -> (account: Self)
        ensures
            account@ == (AccountView { definition_id: definition@.id, balance: 0 }),
    {
        Self { definition_id: definition.id(), balance: 0 }
    }

    /// A new account for a standard definition, with nothing on it.
    pub fn standard(definition: StandardAccounts) -> (account: Self)
        ensures
            account@ == (AccountView { definition_id: definition.entry_view().id, balance: 0 }),
    {
        Self { definition_id: definition.id(), balance: 0 }
    }

    /// The account's definition, resolved through a chart that holds it.
    pub fn definition<'index>(&self, index: &'index Index) -> (definition: &'index AccountDefinition)
        requires
            index.wf(),
            index@.definition(self@.definition_id).is_some(),
        ensures
            index@.definition(self@.definition_id) == Some(definition@),
    {
        index.definition(self.definition_id).unwrap()
    }

    /// The identifier of the account's definition.
    pub fn definition_id(&self) -> (id: ID)
        ensures
            id == self@.definition_id,
    {
        self.definition_id
    }

    /// Binds the account to another definition.
    pub fn set_definition_id(&mut self, definition_id: ID)
        ensures
            final(self)@ == (AccountView { definition_id, balance: old(self)@.balance }),
    {
        self.definition_id = definition_id
    }

    /// The account's balance.
    pub fn balance(&self) -> (balance: i64)
        ensures
            balance == self@.balance,
    {
        self.balance
    }

    /// Replaces the balance and returns the new one.
    pub fn set_balance(&mut self, amount: i64) -> (balance: i64)
        ensures
            balance == amount,
            final(self)@ == (AccountView {
                definition_id: old(self)@.definition_id,
                balance: amount as int,
            }),
    {
        self.balance = amount;
        self.balance
    }

    /// Adds an amount to the balance and returns the new balance.
    pub fn increase_balance(&mut self, amount: i64) -> (balance: i64)
        requires
            i64::MIN <= old(self)@.balance + amount <= i64::MAX,
        ensures
            balance == old(self)@.balance + amount,
            final(self)@ == (AccountView {
                definition_id: old(self)@.definition_id,
                balance: old(self)@.balance + amount,
            }),
    {
        self.balance = self.balance + amount;
        self.balance
    }

    /// Takes an amount off the balance and returns the new balance.
    pub fn decrease_balance(&mut self, amount: i64) -> (balance: i64)
        requires
            i64::MIN <= old(self)@.balance - amount <= i64::MAX,
        ensures
            balance == old(self)@.balance - amount,
            final(self)@ == (AccountView {
                definition_id: old(self)@.definition_id,
                balance: old(self)@.balance - amount,
            }),
    {
        self.balance = self.balance - amount;
        self.balance
    }
}

} // verus!
