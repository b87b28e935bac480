//! The chart of accounts.
//!
//! An [`Index`] owns every account and every custom definition. It resolves
//! identifiers to definitions, posts debits and credits, and computes the balance
//! of the accounting equation.

pub mod laws;
pub mod view;

use crate::account::{Account, AccountView};
use crate::currency::{CommonCurrencies, Currency};
use crate::definition::standard::StandardAccounts;
use crate::definition::{
    AccountDefinition, AccountDefinitionTrait, CustomAccountDefinition, DefinitionView,
    ACCT_SYSTEM_ID,
};
use crate::equation::{Equation, EquationSide, ValueChange};
use crate::error::Error;
use crate::id::{AccountClassIdentity, DomainID, SegmentID, SerialID, ID};
use crate::index::view::{
    lookup, out_of_range_text, serials_spent_text, standard_accounts, total_where, IndexView,
    Posting,
};
use crate::search::{
    first_position, lemma_filter_empty, lemma_filter_step, lemma_first_position,
    lemma_first_position_is, lemma_first_position_none,
};
use crate::statement::equation_balance::{line_texts, EquationBalance};
use crate::statement::format::format_amount;
use crate::text::{decimal, decimal_text, same_text};
use vstd::prelude::*;
use vstd::string::StringExecFns;

verus! {

/// The views of a run of definitions.
pub open spec fn definition_views(definitions: Seq<AccountDefinition>) -> Seq<DefinitionView> {
    definitions.map_values(|definition: AccountDefinition| definition@)
}

/// The views of a run of borrowed accounts.
pub open spec fn account_ref_views(accounts: Seq<&Account>) -> Seq<AccountView> {
    accounts.map_values(|account: &Account| account@)
}

/// The views of a run of accounts.
pub open spec fn account_views(accounts: Seq<Account>) -> Seq<AccountView> {
    accounts.map_values(|account: Account| account@)
}

/// The chart of accounts.
#[derive(Debug)]
pub struct Index {
    domain: DomainID,
    segment: SegmentID,
    next_serial: SerialID,
    standard_account_definitions: Vec<AccountDefinition>,
    custom_account_definitions: Vec<AccountDefinition>,
    asset_accounts: Vec<Account>,
    liability_accounts: Vec<Account>,
    equity_accounts: Vec<Account>,
    currency: Currency,
    has_standard_accounts: bool,
}

impl View for Index {
    type V = IndexView;

    closed spec fn view(&self) -> IndexView {
        IndexView {
            domain: self.domain,
            segment: self.segment,
            next_serial: self.next_serial as int,
            standard_definitions: definition_views(self.standard_account_definitions@),
            custom_definitions: definition_views(self.custom_account_definitions@),
            asset_accounts: account_views(self.asset_accounts@),
            liability_accounts: account_views(self.liability_accounts@),
            equity_accounts: account_views(self.equity_accounts@),
            currency: self.currency@,
            has_standard_accounts: self.has_standard_accounts,
        }
    }
}

impl Index {
    /// The chart's invariant: see [`IndexView::wf`].
    pub open spec fn wf(&self) -> bool {
        self@.wf()
    }

    /// The currency in which the chart is kept.
    pub fn currency(&self) -> (currency: &Currency)
        ensures
            currency@ == self@.currency,
    {
        &self.currency
    }

    /// Whether the chart holds the standard catalogue.
    pub fn has_standard_accounts(&self) -> (has: bool)
        ensures
            has == self@.has_standard_accounts,
    {
        self.has_standard_accounts
    }

    fn lookup(definitions: &Vec<AccountDefinition>, id: ID) -> (definition: Option<
        &AccountDefinition,
    >)
        ensures
            match definition {
                Some(found) => lookup(definition_views(definitions@), id) == Some(found@),
                None => lookup(definition_views(definitions@), id).is_none(),
            },
    {
        if id.serial == 0 {
            return None;
        }
        let position = (id.serial - 1) as usize;
        if position < definitions.len() {
            let candidate = &definitions[position];
            if candidate.id() == id {
                Some(candidate)
            } else {
                None
            }
        } else {
            None
        }
    }

    /// The definition that an identifier resolves to: a custom one by its serial,
    /// a standard one from the catalogue. None where the chart holds no
    /// definition with that identifier.
    pub fn definition(&self, definition_id: ID) -> (definition: Option<&AccountDefinition>)
        ensures
            match definition {
                Some(found) => self@.definition(definition_id) == Some(found@),
                None => self@.definition(definition_id).is_none(),
            },
    {
        match AccountClassIdentity::from_class_id(definition_id.class) {
            AccountClassIdentity::CustomAccountDefinition => Self::lookup(
                &self.custom_account_definitions,
                definition_id,
            ),
            AccountClassIdentity::StandardAccountDefinition => Self::lookup(
                &self.standard_account_definitions,
                definition_id,
            ),
            AccountClassIdentity::Unknown => None,
        }
    }

    /// The first custom definition with a name. Standard definitions are not
    /// searched.
    pub fn find_definition(&self, name: &str) -> (definition: Option<&AccountDefinition>)
        ensures
            match definition {
                Some(found) => self@.find_definition(name@) == Some(found@),
                None => self@.find_definition(name@).is_none(),
            },
    {
        let ghost wanted = |definition: DefinitionView| definition.name == name@;
        let mut i: usize = 0;
        while i < self.custom_account_definitions.len()
            invariant
                i <= self.custom_account_definitions.len(),
                wanted == (|definition: DefinitionView| definition.name == name@),
                forall|j: int|
                    0 <= j < i ==> !wanted(
                        #[trigger] definition_views(self.custom_account_definitions@)[j],
                    ),
            decreases self.custom_account_definitions.len() - i,
        {
            let candidate = &self.custom_account_definitions[i];
            if same_text(candidate.name(), name) {
                proof {
                    lemma_first_position_is(
                        definition_views(self.custom_account_definitions@),
                        wanted,
                        i as int,
                    );
                }
                return Some(candidate);
            }
            i = i + 1;
        }
        proof {
            lemma_first_position_none(definition_views(self.custom_account_definitions@), wanted);
        }
        None
    }

    /// The first custom definition with a name, on a chart held for writing.
    pub fn find_definition_mut(&mut self, name: &str) -> (definition: Option<&AccountDefinition>)
        ensures
            *final(self) == *old(self),
            match definition {
                Some(found) => old(self)@.find_definition(name@) == Some(found@),
                None => old(self)@.find_definition(name@).is_none(),
            },
    {
        self.find_definition(name)
    }

    /// A new chart in a currency: the standard catalogue with one empty account
    /// for each of its definitions, in the partition of the definition's equation
    /// variable.
    pub fn standard(currency: CommonCurrencies) -> (index: Self)
        ensures
            index@ == IndexView::standard(currency.descriptor()),
            index.wf(),
    {
        let entries = StandardAccounts::all();
        let mut standard_account_definitions: Vec<AccountDefinition> = Vec::new();
        let mut asset_accounts: Vec<Account> = Vec::new();
        let mut liability_accounts: Vec<Account> = Vec::new();
        let mut equity_accounts: Vec<Account> = Vec::new();
        let mut i: usize = 0;
        while i < entries.len()
            invariant
                i <= 14,
                entries@.len() == 14,
                forall|k: int| 0 <= k < 14 ==> #[trigger] entries@[k] == StandardAccounts::with_serial(k + 1),
                definition_views(standard_account_definitions@) =~= Seq::new(
                    i as nat,
                    |k: int| StandardAccounts::with_serial(k + 1).entry_view(),
                ),
                account_views(asset_accounts@) =~= standard_accounts(Equation::Assets, i as int),
                account_views(liability_accounts@) =~= standard_accounts(
                    Equation::Liabilities,
                    i as int,
                ),
                account_views(equity_accounts@) =~= standard_accounts(Equation::Equity, i as int),
            decreases 14 - i,
        {
            let entry = entries[i];
            let ghost old_definitions = standard_account_definitions@;
            let ghost old_assets = asset_accounts@;
            let ghost old_liabilities = liability_accounts@;
            let ghost old_equity = equity_accounts@;
            standard_account_definitions.push(entry.definition());
            let account = Account::standard(entry);
            let ghost opened = account@;
            let variable = entry.equation_variable();
            match variable {
                Equation::Assets => asset_accounts.push(account),
                Equation::Liabilities => liability_accounts.push(account),
                Equation::Equity => equity_accounts.push(account),
            }
            proof {
                assert(entry == StandardAccounts::with_serial(i + 1));
                assert(definition_views(standard_account_definitions@) =~= definition_views(
                    old_definitions,
                ).push(entry.entry_view()));
                assert(account_views(asset_accounts@) =~= if variable == Equation::Assets {
                    account_views(old_assets).push(opened)
                } else {
                    account_views(old_assets)
                });
                assert(account_views(liability_accounts@) =~= if variable == Equation::Liabilities {
                    account_views(old_liabilities).push(opened)
                } else {
                    account_views(old_liabilities)
                });
                assert(account_views(equity_accounts@) =~= if variable == Equation::Equity {
                    account_views(old_equity).push(opened)
                } else {
                    account_views(old_equity)
                });
            }
            i = i + 1;
        }
        let index = Self {
            domain: 0,
            segment: 0,
            next_serial: 1,
            standard_account_definitions,
            custom_account_definitions: Vec::new(),
            asset_accounts,
            liability_accounts,
            equity_accounts,
            currency: currency.currency(),
            has_standard_accounts: true,
        };
        proof {
            assert(index@.custom_definitions =~= Seq::empty());
            assert(index@ == IndexView::standard(currency.descriptor()));
            crate::index::view::lemma_standard_wf(currency.descriptor());
        }
        index
    }

    fn partition(&self, variable: Equation) -> (accounts: &Vec<Account>)
        ensures
            account_views(accounts@) == self@.accounts(variable),
    {
        match variable {
            Equation::Assets => &self.asset_accounts,
            Equation::Liabilities => &self.liability_accounts,
            Equation::Equity => &self.equity_accounts,
        }
    }

    fn position_in(accounts: &Vec<Account>, id: ID) -> (position: Option<usize>)
        ensures
            match position {
                Some(found) => first_position(
                    account_views(accounts@),
                    |account: AccountView| account.definition_id == id,
                ) == Some(found as int) && found < accounts@.len(),
                None => first_position(
                    account_views(accounts@),
                    |account: AccountView| account.definition_id == id,
                ).is_none(),
            },
    {
        let ghost wanted = |account: AccountView| account.definition_id == id;
        let mut i: usize = 0;
        while i < accounts.len()
            invariant
                i <= accounts.len(),
                wanted == (|account: AccountView| account.definition_id == id),
                forall|j: int| 0 <= j < i ==> !wanted(#[trigger] account_views(accounts@)[j]),
            decreases accounts.len() - i,
        {
            if accounts[i].definition_id() == id {
                proof {
                    lemma_first_position_is(account_views(accounts@), wanted, i as int);
                }
                return Some(i);
            }
            i = i + 1;
        }
        proof {
            lemma_first_position_none(account_views(accounts@), wanted);
        }
        None
    }

    /// The account of a definition, looked for in the partition of the
    /// definition's equation variable.
    pub fn account<D: AccountDefinitionTrait>(&self, definition: D) -> (result: Result<
        &Account,
        Error,
    >)
        ensures
            match result {
                Ok(account) => self@.account(
                    definition.definition_view().equation_variable,
                    definition.definition_view().id,
                ) == Some(account@),
                Err(error) => {
                    &&& self@.account(
                        definition.definition_view().equation_variable,
                        definition.definition_view().id,
                    ).is_none()
                    &&& error matches Error::AccountNotFound(text) && text@
                        == definition.definition_view().name
                },
            },
    {
        let accounts = self.partition(definition.equation_variable());
        match Self::position_in(accounts, definition.id()) {
            Some(position) => Ok(&accounts[position]),
            None => Err(Error::AccountNotFound(String::from_str(definition.name()))),
        }
    }

    /// The account of the first custom definition with a name.
    pub fn account_for(&self, definition_name: &str) -> (result: Result<&Account, Error>)
        requires
            self.wf(),
        ensures
            match self@.find_definition(definition_name@) {
                Some(definition) => result matches Ok(account) && self@.account(
                    definition.equation_variable,
                    definition.id,
                ) == Some(account@),
                None => result matches Err(Error::DefinitionNotFound(text)) && text@
                    == definition_name@,
            },
    {
        let (def_id, def_eqvar) = match self.find_definition(definition_name) {
            Some(definition) => (definition.id(), definition.equation_variable()),
            None => {
                return Err(Error::DefinitionNotFound(String::from_str(definition_name)));
            },
        };
        proof {
            self.lemma_found_has_account(definition_name@);
        }
        let accounts = self.partition(def_eqvar);
        match Self::position_in(accounts, def_id) {
            Some(position) => Ok(&accounts[position]),
            None => Err(Error::AccountNotFound(String::from_str(definition_name))),
        }
    }

    /// A custom definition found by name resolves by its identifier, so it has
    /// its account.
    proof fn lemma_found_has_account(&self, name: Seq<char>)
        requires
            self.wf(),
            self@.find_definition(name).is_some(),
        ensures
            self@.definition(self@.find_definition(name).unwrap().id) == self@.find_definition(
                name,
            ),
            self@.account_position(
                self@.find_definition(name).unwrap().equation_variable,
                self@.find_definition(name).unwrap().id,
            ).is_some(),
    {
        let wanted = |definition: DefinitionView| definition.name == name;
        lemma_first_position(self@.custom_definitions, wanted);
        let position = self@.named_position(name).unwrap();
        crate::index::laws::lemma_custom_inherits(self@, position);
        crate::index::laws::lemma_definition_has_account(
            self@,
            self@.find_definition(name).unwrap().id,
        );
    }

    /// The account of a definition, for writing, looked for under a variable.
    /// What is written to the account is written to the chart; a caller that
    /// binds the account to another definition gives up the chart's invariant.
    pub fn account_mut(&mut self, definition_id: ID, equation_variable: Equation) -> (result: Result<
        &mut Account,
        Error,
    >)
        ensures
            match result {
                Ok(account) => {
                    &&& old(self)@.account_position(equation_variable, definition_id) matches Some(
                        position,
                    ) && account@ == old(self)@.accounts(equation_variable)[position]
                        && final(self)@ == old(self)@.with_accounts(
                        equation_variable,
                        old(self)@.accounts(equation_variable).update(position, final(account)@),
                    )
                },
                Err(error) => {
                    &&& old(self)@.account_position(equation_variable, definition_id).is_none()
                    &&& error matches Error::AccountNotFound(text) && text@ == decimal_text(
                        definition_id.packed() as nat,
                    )
                    &&& *final(self) == *old(self)
                },
            },
    {
        let position = Self::position_in(self.partition(equation_variable), definition_id);
        match position {
            Some(position) => {
                let accounts = match equation_variable {
                    Equation::Assets => &mut self.asset_accounts,
                    Equation::Liabilities => &mut self.liability_accounts,
                    Equation::Equity => &mut self.equity_accounts,
                };
                let ghost before = accounts@;
                let account = &mut accounts[position];
                proof {
                    assert(account_views(before.update(position as int, *final(account)))
                        =~= account_views(before).update(position as int, final(account)@));
                }
                Ok(account)
            },
            None => Err(Error::AccountNotFound(decimal(definition_id.into_uid()))),
        }
    }

    /// Posts an amount to the account of a definition, looked for under a
    /// variable. The range of the new balance is checked before anything is
    /// written.
    fn post(&mut self, change: ValueChange, definition_id: ID, variable: Equation, amount: i64) -> (result:
        Result<i64, Error>)
        requires
            old(self).wf(),
        ensures
            final(self).wf(),
            match old(self)@.posting(change, variable, definition_id, amount as int) {
                Posting::Posted { position, balance } => {
                    &&& result matches Ok(posted) && posted == balance
                    &&& final(self)@ == old(self)@.with_balance(variable, position, balance)
                },
                Posting::NoAccount => {
                    &&& result matches Err(Error::AccountNotFound(text)) && text@ == decimal_text(
                        definition_id.packed() as nat,
                    )
                    &&& final(self)@ == old(self)@
                },
                Posting::OutOfRange => {
                    &&& result matches Err(Error::Generic(text)) && text@ == out_of_range_text()
                    &&& final(self)@ == old(self)@
                },
            },
    {
        let ghost before = self@;
        let account = match self.account_mut(definition_id, variable) {
            Ok(account) => account,
            Err(error) => {
                return Err(error);
            },
        };
        let ghost position = before.account_position(variable, definition_id).unwrap();
        proof {
            crate::index::laws::lemma_account_position(before, variable, definition_id);
            assert(before.partition_ok(variable));
        }
        let raises = match (change, variable.equation_side()) {
            (ValueChange::Debit, EquationSide::DebitSide) => true,
            (ValueChange::Debit, EquationSide::CreditSide) => false,
            (ValueChange::Credit, EquationSide::DebitSide) => false,
            (ValueChange::Credit, EquationSide::CreditSide) => true,
        };
        let current = account.balance();
        let next: i128 = if raises {
            current as i128 + amount as i128
        } else {
            current as i128 - amount as i128
        };
        if next < i64::MIN as i128 || next > i64::MAX as i128 {
            proof {
                assert(before.accounts(variable).update(position, account@) =~= before.accounts(
                    variable,
                ));
            }
            return Err(Error::Generic(String::from_str("The balance would leave the range of amounts")));
        }
        let balance = if raises {
            account.increase_balance(amount)
        } else {
            account.decrease_balance(amount)
        };
        proof {
            crate::index::laws::lemma_with_balance_wf(before, variable, position, balance as int);
        }
        Ok(balance)
    }

    /// Debits the account of a definition: the balance rises by the amount if
    /// the definition counts on the debit side of the equation, and falls by it
    /// otherwise. Returns the new balance.
    pub fn debit<D: AccountDefinitionTrait>(&mut self, definition: D, amount: i64) -> (result: Result<
        i64,
        Error,
    >)
        requires
            old(self).wf(),
        ensures
            final(self).wf(),
            match old(self)@.posting(
                ValueChange::Debit,
                definition.definition_view().equation_variable,
                definition.definition_view().id,
                amount as int,
            ) {
                Posting::Posted { position, balance } => {
                    &&& result matches Ok(posted) && posted == balance
                    &&& final(self)@ == old(self)@.with_balance(
                        definition.definition_view().equation_variable,
                        position,
                        balance,
                    )
                },
                Posting::NoAccount => {
                    &&& result matches Err(Error::AccountNotFound(text)) && text@ == decimal_text(
                        definition.definition_view().id.packed() as nat,
                    )
                    &&& final(self)@ == old(self)@
                },
                Posting::OutOfRange => {
                    &&& result matches Err(Error::Generic(text)) && text@ == out_of_range_text()
                    &&& final(self)@ == old(self)@
                },
            },
    {
        self.post(ValueChange::Debit, definition.id(), definition.equation_variable(), amount)
    }

    /// Debits the account of the first custom definition with a name.
    pub fn debit_for(&mut self, definition_name: &str, amount: i64) -> (result: Result<i64, Error>)
        requires
            old(self).wf(),
        ensures
            final(self).wf(),
            match old(self)@.find_definition(definition_name@) {
                Some(definition) => match old(self)@.posting(
                    ValueChange::Debit,
                    definition.equation_variable,
                    definition.id,
                    amount as int,
                ) {
                    Posting::Posted { position, balance } => {
                        &&& result matches Ok(posted) && posted == balance
                        &&& final(self)@ == old(self)@.with_balance(
                            definition.equation_variable,
                            position,
                            balance,
                        )
                    },
                    Posting::NoAccount => false,
                    Posting::OutOfRange => {
                        &&& result matches Err(Error::Generic(text)) && text@
                            == out_of_range_text()
                        &&& final(self)@ == old(self)@
                    },
                },
                None => {
                    &&& result matches Err(Error::DefinitionNotFound(text)) && text@
                        == definition_name@
                    &&& final(self)@ == old(self)@
                },
            },
    {
        let (def_id, def_eqvar) = match self.find_definition(definition_name) {
            Some(definition) => (definition.id(), definition.equation_variable()),
            None => {
                return Err(Error::DefinitionNotFound(String::from_str(definition_name)));
            },
        };
        proof {
            self.lemma_found_has_account(definition_name@);
        }
        self.post(ValueChange::Debit, def_id, def_eqvar, amount)
    }

    /// Credits the account of a definition: the balance falls by the amount if
    /// the definition counts on the debit side of the equation, and rises by it
    /// otherwise. Returns the new balance.
    pub fn credit<D: AccountDefinitionTrait>(&mut self, definition: D, amount: i64) -> (result: Result<
        i64,
        Error,
    >)
        requires
            old(self).wf(),
        ensures
            final(self).wf(),
            match old(self)@.posting(
                ValueChange::Credit,
                definition.definition_view().equation_variable,
                definition.definition_view().id,
                amount as int,
            ) {
                Posting::Posted { position, balance } => {
                    &&& result matches Ok(posted) && posted == balance
                    &&& final(self)@ == old(self)@.with_balance(
                        definition.definition_view().equation_variable,
                        position,
                        balance,
                    )
                },
                Posting::NoAccount => {
                    &&& result matches Err(Error::AccountNotFound(text)) && text@ == decimal_text(
                        definition.definition_view().id.packed() as nat,
                    )
                    &&& final(self)@ == old(self)@
                },
                Posting::OutOfRange => {
                    &&& result matches Err(Error::Generic(text)) && text@ == out_of_range_text()
                    &&& final(self)@ == old(self)@
                },
            },
    {
        self.post(ValueChange::Credit, definition.id(), definition.equation_variable(), amount)
    }

    /// Credits the account of the first custom definition with a name.
    pub fn credit_for(&mut self, definition_name: &str, amount: i64) -> (result: Result<i64, Error>)
        requires
            old(self).wf(),
        ensures
            final(self).wf(),
            match old(self)@.find_definition(definition_name@) {
                Some(definition) => match old(self)@.posting(
                    ValueChange::Credit,
                    definition.equation_variable,
                    definition.id,
                    amount as int,
                ) {
                    Posting::Posted { position, balance } => {
                        &&& result matches Ok(posted) && posted == balance
                        &&& final(self)@ == old(self)@.with_balance(
                            definition.equation_variable,
                            position,
                            balance,
                        )
                    },
                    Posting::NoAccount => false,
                    Posting::OutOfRange => {
                        &&& result matches Err(Error::Generic(text)) && text@
                            == out_of_range_text()
                        &&& final(self)@ == old(self)@
                    },
                },
                None => {
                    &&& result matches Err(Error::DefinitionNotFound(text)) && text@
                        == definition_name@
                    &&& final(self)@ == old(self)@
                },
            },
    {
        let (def_id, def_eqvar) = match self.find_definition(definition_name) {
            Some(definition) => (definition.id(), definition.equation_variable()),
            None => {
                return Err(Error::DefinitionNotFound(String::from_str(definition_name)));
            },
        };
        proof {
            self.lemma_found_has_account(definition_name@);
        }
        self.post(ValueChange::Credit, def_id, def_eqvar, amount)
    }

    /// Takes the next serial. The counter only rises, so no serial is given out
    /// twice.
    fn next_serial(&mut self) -> (serial: SerialID)
        requires
            old(self)@.next_serial < u32::MAX,
        ensures
            serial == old(self)@.next_serial,
            final(self)@ == (IndexView { next_serial: old(self)@.next_serial + 1, ..old(self)@ }),
    {
        let serial = self.next_serial;
        self.next_serial = self.next_serial + 1;
        serial
    }

    /// Makes a custom definition with a name under a parent and opens its empty
    /// account. The parent is resolved by its identifier in this chart; the new
    /// definition takes the equation variable of the definition found, and the
    /// next serial.
    pub fn create_custom_account<P: AccountDefinitionTrait>(
        &mut self,
        name: String,
        parent_definition: &P,
    ) -> (result: Result<(), Error>)
        requires
            old(self).wf(),
        ensures
            final(self).wf(),
            match old(self)@.definition(parent_definition.definition_view().id) {
                Some(parent) => if old(self)@.next_serial < u32::MAX {
                    &&& result is Ok
                    &&& final(self)@ == old(self)@.with_custom(name@, parent)
                } else {
                    &&& result matches Err(Error::Generic(text)) && text@ == serials_spent_text()
                    &&& final(self)@ == old(self)@
                },
                None => {
                    &&& result matches Err(Error::DefinitionNotFound(text)) && text@
                        == parent_definition.definition_view().name
                    &&& final(self)@ == old(self)@
                },
            },
    {
        let ghost before = self@;
        let parent_id = parent_definition.id();
        let variable = match self.definition(parent_id) {
            Some(parent) => parent.equation_variable(),
            None => {
                return Err(Error::DefinitionNotFound(String::from_str(parent_definition.name())));
            },
        };
        let ghost parent = before.definition(parent_id).unwrap();
        if self.next_serial == u32::MAX {
            return Err(Error::Generic(String::from_str("No serial is left for another definition")));
        }
        let def_id = ID::v1(
            ACCT_SYSTEM_ID,
            CustomAccountDefinition::class().into_class_id(),
            self.domain,
            self.segment,
            self.next_serial(),
        );
        let definition = AccountDefinition::Custom(
            CustomAccountDefinition::new(def_id, name, variable, parent_id),
        );
        let account = Account::new(&definition);
        let ghost made = definition@;
        let ghost opened = account@;
        self.custom_account_definitions.push(definition);
        match variable {
            Equation::Assets => self.asset_accounts.push(account),
            Equation::Liabilities => self.liability_accounts.push(account),
            Equation::Equity => self.equity_accounts.push(account),
        }
        proof {
            assert(made == before.next_custom(name@, parent));
            assert(self@.custom_definitions =~= before.custom_definitions.push(made));
            assert(self@.accounts(variable) =~= before.accounts(variable).push(opened));
            assert(self@.asset_accounts =~= before.with_custom(name@, parent).asset_accounts);
            assert(self@.liability_accounts =~= before.with_custom(name@, parent).liability_accounts);
            assert(self@.equity_accounts =~= before.with_custom(name@, parent).equity_accounts);
            assert(self@ == before.with_custom(name@, parent));
            crate::index::laws::lemma_with_custom_wf(before, name@, parent);
        }
        Ok(())
    }

    /// The total of the root accounts of one partition.
    fn root_total(&self, variable: Equation) -> (total: i128)
        ensures
            total == self@.root_total(variable),
            -self@.accounts(variable).len() * 0x8000_0000_0000_0000 <= total <= self@.accounts(
                variable,
            ).len() * 0x8000_0000_0000_0000,
    {
        let accounts = self.partition(variable);
        let ghost views = account_views(accounts@);
        let ghost root = |account: AccountView| self@.is_root(account);
        let mut total: i128 = 0;
        let mut i: usize = 0;
        proof {
            assert(views.take(0) =~= Seq::empty());
        }
        while i < accounts.len()
            invariant
                i <= accounts.len(),
                views == account_views(accounts@),
                root == (|account: AccountView| self@.is_root(account)),
                total == total_where(views.take(i as int), root),
                -i * 0x8000_0000_0000_0000 <= total <= i * 0x8000_0000_0000_0000,
            decreases accounts.len() - i,
        {
            let account = &accounts[i];
            proof {
                assert(views.take(i + 1).drop_last() =~= views.take(i as int));
                assert(views.take(i + 1).last() == account@);
                account.lemma_balance_in_range();
            }
            let is_root = match self.definition(account.definition_id()) {
                Some(definition) => definition.parent_id().is_none(),
                None => false,
            };
            if is_root {
                total = total + account.balance() as i128;
            }
            i = i + 1;
        }
        proof {
            assert(views.take(i as int) =~= views);
        }
        total
    }

    /// The balance of the accounting equation: the totals of the root accounts
    /// of the three partitions. An account under a parent is not counted.
    pub fn equation_balance(&self) -> (balance: EquationBalance)
        requires
            self.wf(),
        ensures
            balance@ == self@.equation_balance(),
    {
        let assets = self.root_total(Equation::Assets);
        let liabilities = self.root_total(Equation::Liabilities);
        let equity = self.root_total(Equation::Equity);
        EquationBalance::new(assets, liabilities, equity)
    }

    /// The accounts whose definitions stand directly under the definition of a
    /// given account, in the order of their partition.
    pub fn account_children<'index>(&'index self, parent: &Account) -> (children: Vec<
        &'index Account,
    >)
        requires
            self.wf(),
            self@.definition(parent@.definition_id).is_some(),
        ensures
            account_ref_views(children@) == self@.account_children(parent@.definition_id),
            forall|k: int|
                0 <= k < children@.len() ==> self@.definition(
                    (#[trigger] children@[k])@.definition_id,
                ).is_some(),
    {
        let (definition_id, equation_element) = {
            let definition = parent.definition(self);
            (definition.id(), definition.equation_variable())
        };
        let accounts = self.partition(equation_element);
        let ghost all = account_views(accounts@);
        let ghost wanted = |account: AccountView| self@.child_of(account, definition_id);
        let mut children: Vec<&Account> = Vec::new();
        let mut i: usize = 0;
        proof {
            lemma_filter_empty(all, wanted);
            assert(account_ref_views(children@) =~= Seq::empty());
            assert(self@.partition_ok(equation_element));
        }
        while i < accounts.len()
            invariant
                i <= accounts.len(),
                self.wf(),
                all == account_views(accounts@),
                all == self@.accounts(equation_element),
                self@.partition_ok(equation_element),
                wanted == (|account: AccountView| self@.child_of(account, definition_id)),
                account_ref_views(children@) == all.take(i as int).filter(wanted),
                forall|k: int|
                    0 <= k < children@.len() ==> self@.definition(
                        (#[trigger] children@[k])@.definition_id,
                    ).is_some(),
            decreases accounts.len() - i,
        {
            let account = &accounts[i];
            proof {
                lemma_filter_step(all, wanted, i as int);
                assert(all[i as int] == account@);
            }
            let is_child = match account.definition(self).parent_id() {
                Some(parent_id) => parent_id == definition_id,
                None => false,
            };
            if is_child {
                let ghost kept = children@;
                children.push(account);
                proof {
                    assert(account_ref_views(children@) =~= account_ref_views(kept).push(account@));
                }
            }
            i = i + 1;
        }
        proof {
            lemma_filter_empty(all, wanted);
        }
        children
    }

    /// The accounts under the definition of a given account, down to a depth.
    fn descend<'index>(&'index self, parent: &Account, depth: u64) -> (found: Vec<&'index Account>)
        requires
            self.wf(),
            self@.definition(parent@.definition_id).is_some(),
        ensures
            account_ref_views(found@) == self@.account_descendants(
                parent@.definition_id,
                depth as nat,
            ),
        decreases depth,
    {
        let mut found: Vec<&Account> = Vec::new();
        if depth == 0 {
            proof {
                assert(account_ref_views(found@) =~= Seq::empty());
            }
            return found;
        }
        let children = self.account_children(parent);
        let ghost below = account_ref_views(children@);
        let mut i: usize = 0;
        while i < children.len()
            invariant
                i <= children.len(),
                account_ref_views(found@) == below.take(i as int),
                below == account_ref_views(children@),
            decreases children.len() - i,
        {
            let ghost kept = found@;
            found.push(children[i]);
            proof {
                assert(account_ref_views(found@) =~= account_ref_views(kept).push(children@[i as int]@));
                assert(below.take(i + 1) =~= below.take(i as int).push(below[i as int]));
            }
            i = i + 1;
        }
        proof {
            assert(below.take(children@.len() as int) =~= below);
            assert(below.take(0) =~= Seq::empty());
        }
        let mut i: usize = 0;
        while i < children.len()
            invariant
                i <= children.len(),
                self.wf(),
                depth > 0,
                below == account_ref_views(children@),
                forall|k: int|
                    0 <= k < children@.len() ==> self@.definition(
                        (#[trigger] children@[k])@.definition_id,
                    ).is_some(),
                account_ref_views(found@) == below + self@.descendants_of_each(
                    below.take(i as int),
                    (depth - 1) as nat,
                ),
            decreases children.len() - i,
        {
            let ghost kept = found@;
            let mut deeper = self.descend(children[i], depth - 1);
            let ghost added = deeper@;
            found.append(&mut deeper);
            proof {
                assert(below.take(i + 1).drop_last() =~= below.take(i as int));
                assert(below.take(i + 1).last() == children@[i as int]@);
                assert(account_ref_views(found@) =~= account_ref_views(kept) + account_ref_views(
                    added,
                ));
            }
            i = i + 1;
        }
        proof {
            assert(below.take(children@.len() as int) =~= below);
        }
        found
    }

    /// All accounts under the definition of a given account: first its
    /// children, then the descendants of each child in turn. The search stops
    /// at a depth that no chain of definitions reaches, so it ends whatever the
    /// chart holds.
    pub fn account_descendants<'index>(&'index self, parent: &Account) -> (descendants: Vec<
        &'index Account,
    >)
        requires
            self.wf(),
            self@.definition(parent@.definition_id).is_some(),
        ensures
            account_ref_views(descendants@) == self@.account_descendants(
                parent@.definition_id,
                self@.depth_limit(),
            ),
    {
        self.descend(parent, self.next_serial as u64 + 1)
    }

    /// Adds one line for each account under a variable.
    fn list_partition(&self, variable: Equation, lines: &mut Vec<String>)
        requires
            self.wf(),
        ensures
            line_texts(final(lines)@) == line_texts(old(lines)@) + self@.partition_lines(variable),
    {
        let accounts = self.partition(variable);
        let ghost before = line_texts(lines@);
        let ghost listed = self@.partition_lines(variable);
        proof {
            assert(self@.partition_ok(variable));
            assert(listed.take(0) =~= Seq::empty());
            assert(before + listed.take(0) =~= before);
        }
        let mut i: usize = 0;
        while i < accounts.len()
            invariant
                i <= accounts.len(),
                self.wf(),
                self@.partition_ok(variable),
                account_views(accounts@) == self@.accounts(variable),
                listed == self@.partition_lines(variable),
                line_texts(lines@) == before + listed.take(i as int),
            decreases accounts.len() - i,
        {
            let account = &accounts[i];
            proof {
                assert(account_views(accounts@)[i as int] == account@);
            }
            let mut line = String::from_str(account.definition(self).name());
            line.append(" = $");
            let amount = format_amount(account.balance() as i128);
            line.append(amount.as_str());
            let ghost kept = lines@;
            lines.push(line);
            proof {
                assert(line@ =~= listed[i as int]);
                assert(line_texts(lines@) =~= line_texts(kept).push(line@));
                assert(listed.take(i + 1) =~= listed.take(i as int).push(listed[i as int]));
                assert(before + listed.take(i + 1) =~= (before + listed.take(i as int)).push(
                    listed[i as int],
                ));
            }
            i = i + 1;
        }
        proof {
            assert(listed.take(i as int) =~= listed);
        }
    }

    /// The listing of all accounts, line by line: under a heading for each
    /// variable, assets first, then equity, then liabilities, each account
    /// with its name and its balance.
    pub fn account_lines(&self) -> (lines: Vec<String>)
        requires
            self.wf(),
        ensures
            line_texts(lines@) == self@.account_lines(),
    {
        let mut lines: Vec<String> = Vec::new();
        lines.push(String::from_str("[ASSETS]"));
        assert(line_texts(lines@) =~= seq!["[ASSETS]"@]);
        self.list_partition(Equation::Assets, &mut lines);
        let ghost first = line_texts(lines@);
        lines.push(String::new());
        lines.push(String::from_str("[EQUITY]"));
        assert(line_texts(lines@) =~= first + seq![Seq::empty(), "[EQUITY]"@]);
        self.list_partition(Equation::Equity, &mut lines);
        let ghost second = line_texts(lines@);
        lines.push(String::new());
        lines.push(String::from_str("[LIABILITIES]"));
        assert(line_texts(lines@) =~= second + seq![Seq::empty(), "[LIABILITIES]"@]);
        self.list_partition(Equation::Liabilities, &mut lines);
        let ghost third = line_texts(lines@);
        lines.push(String::new());
        assert(line_texts(lines@) =~= third + seq![Seq::<char>::empty()]);
        lines
    }
}

} // verus!
