//! The chart of accounts as a mathematical value, and what holds of it.

use crate::account::AccountView;
use crate::currency::CurrencyView;
use crate::definition::standard::StandardAccounts;
use crate::definition::{DefinitionView, ACCT_SYSTEM_ID};
use crate::equation::{Equation, EquationSide, ValueChange};
use crate::id::{AccountClassIdentity, DomainID, SegmentID, ID};
use crate::search::first_position;
use crate::statement::equation_balance::EquationBalanceView;
use crate::statement::format::amount_text;
use vstd::prelude::*;

verus! {

/// A chart of accounts as a mathematical value.
///
/// The definitions of each tier stand in the order of their serials, the accounts
/// of each partition in the order in which they were opened.
pub struct IndexView {
    pub domain: DomainID,
    pub segment: SegmentID,
    pub next_serial: int,
    pub standard_definitions: Seq<DefinitionView>,
    pub custom_definitions: Seq<DefinitionView>,
    pub asset_accounts: Seq<AccountView>,
    pub liability_accounts: Seq<AccountView>,
    pub equity_accounts: Seq<AccountView>,
    pub currency: CurrencyView,
    pub has_standard_accounts: bool,
}

/// The definition that a tier holds under an identifier: the one at the place of
/// the identifier's serial, if it bears that identifier.
pub open spec fn lookup(definitions: Seq<DefinitionView>, id: ID) -> Option<DefinitionView> {
    if 1 <= id.serial <= definitions.len() && definitions[id.serial - 1].id == id {
        Some(definitions[id.serial - 1])
    } else {
        None
    }
}

/// The sum of the balances of the accounts that are counted.
pub open spec fn total_where(accounts: Seq<AccountView>, counted: spec_fn(AccountView) -> bool) -> int
    decreases accounts.len(),
{
    if accounts.len() == 0 {
        0
    } else {
        total_where(accounts.drop_last(), counted) + if counted(accounts.last()) {
            accounts.last().balance
        } else {
            0
        }
    }
}

/// Whether some account of a partition is bound to a definition.
pub open spec fn has_account(accounts: Seq<AccountView>, id: ID) -> bool {
    exists|k: int| 0 <= k < accounts.len() && (#[trigger] accounts[k]).definition_id == id
}

/// By how much a posting raises the balance of an account that counts under a
/// variable. A debit raises a balance on the debit side and lowers one on the
/// credit side; a credit does the reverse.
pub open spec fn posting_change(change: ValueChange, variable: Equation, amount: int) -> int {
    match (change, variable.side()) {
        (ValueChange::Debit, EquationSide::DebitSide) => amount,
        (ValueChange::Debit, EquationSide::CreditSide) => -amount,
        (ValueChange::Credit, EquationSide::DebitSide) => -amount,
        (ValueChange::Credit, EquationSide::CreditSide) => amount,
    }
}

/// The serial of the first standard definition under a variable.
pub open spec fn standard_first(variable: Equation) -> int {
    match variable {
        Equation::Assets => 1,
        Equation::Liabilities => 4,
        Equation::Equity => 5,
    }
}

/// How many standard definitions count under a variable, among those with a
/// serial up to a limit.
pub open spec fn standard_count(variable: Equation, limit: int) -> int {
    let last: int = match variable {
        Equation::Assets => 3,
        Equation::Liabilities => 4,
        Equation::Equity => 14,
    };
    if limit < standard_first(variable) {
        0
    } else if limit < last {
        limit - standard_first(variable) + 1
    } else {
        last - standard_first(variable) + 1
    }
}

/// The empty accounts of the standard definitions under a variable with a
/// serial up to a limit, in the order of the serials.
pub open spec fn standard_accounts(variable: Equation, limit: int) -> Seq<AccountView> {
    Seq::new(
        standard_count(variable, limit) as nat,
        |k: int|
            AccountView {
                definition_id: StandardAccounts::with_serial(standard_first(variable) + k).entry_view().id,
                balance: 0,
            },
    )
}

/// A debit and a credit of one amount.
pub struct PairedPosting {
    pub debit_variable: Equation,
    pub debit_id: ID,
    pub credit_variable: Equation,
    pub credit_id: ID,
    pub amount: int,
}

/// The line that lists an account: its definition's name, and its balance
/// after a dollar sign.
pub open spec fn account_line(name: Seq<char>, balance: int) -> Seq<char> {
    name + " = $"@ + amount_text(balance)
}

/// How a posting ends.
pub enum Posting {
    /// The account at a place gets a new balance.
    Posted { position: int, balance: int },
    /// No account of the partition is bound to the definition.
    NoAccount,
    /// The new balance would not fit 64 bits.
    OutOfRange,
}

/// What the error says when a balance would not fit 64 bits.
pub open spec fn out_of_range_text() -> Seq<char> {
    "The balance would leave the range of amounts"@
}

/// What the error says when a chart has given out every serial.
pub open spec fn serials_spent_text() -> Seq<char> {
    "No serial is left for another definition"@
}

impl IndexView {
    /// How a posting of an amount to the account of a definition ends. The
    /// posting looks for the account under the variable that it is given.
    pub open spec fn posting(self, change: ValueChange, variable: Equation, id: ID, amount: int) -> Posting {
        match self.account_position(variable, id) {
            Some(position) => {
                let balance = self.accounts(variable)[position].balance + posting_change(
                    change,
                    variable,
                    amount,
                );
                if i64::MIN <= balance <= i64::MAX {
                    Posting::Posted { position, balance }
                } else {
                    Posting::OutOfRange
                }
            },
            None => Posting::NoAccount,
        }
    }

    /// A new chart: the standard catalogue with one empty account for each of
    /// its definitions, no custom definition, and 1 as the next serial.
    pub open spec fn standard(currency: CurrencyView) -> IndexView {
        IndexView {
            domain: 0,
            segment: 0,
            next_serial: 1,
            standard_definitions: StandardAccounts::catalogue(),
            custom_definitions: Seq::empty(),
            asset_accounts: standard_accounts(Equation::Assets, 14),
            liability_accounts: standard_accounts(Equation::Liabilities, 14),
            equity_accounts: standard_accounts(Equation::Equity, 14),
            currency,
            has_standard_accounts: true,
        }
    }

    /// The accounts that count under a variable.
    pub open spec fn accounts(self, variable: Equation) -> Seq<AccountView> {
        match variable {
            Equation::Assets => self.asset_accounts,
            Equation::Liabilities => self.liability_accounts,
            Equation::Equity => self.equity_accounts,
        }
    }

    /// The chart with other accounts under one variable.
    pub open spec fn with_accounts(self, variable: Equation, accounts: Seq<AccountView>) -> IndexView {
        match variable {
            Equation::Assets => IndexView { asset_accounts: accounts, ..self },
            Equation::Liabilities => IndexView { liability_accounts: accounts, ..self },
            Equation::Equity => IndexView { equity_accounts: accounts, ..self },
        }
    }

    /// The chart with another balance on one account.
    pub open spec fn with_balance(self, variable: Equation, position: int, balance: int) -> IndexView {
        self.with_accounts(
            variable,
            self.accounts(variable).update(
                position,
                AccountView {
                    definition_id: self.accounts(variable)[position].definition_id,
                    balance,
                },
            ),
        )
    }

    /// The identifier that this chart gives to the custom definition with a serial.
    pub open spec fn custom_id(self, serial: int) -> ID {
        ID {
            class: 2,
            system: ACCT_SYSTEM_ID,
            domain: self.domain,
            segment: self.segment,
            serial: serial as u32,
        }
    }

    /// The definition that an identifier resolves to. The identifier's class picks
    /// the tier; an identifier of an unknown class resolves to nothing.
    pub open spec fn definition(self, id: ID) -> Option<DefinitionView> {
        match AccountClassIdentity::of_class_id(id.class) {
            AccountClassIdentity::StandardAccountDefinition => lookup(self.standard_definitions, id),
            AccountClassIdentity::CustomAccountDefinition => lookup(self.custom_definitions, id),
            AccountClassIdentity::Unknown => None,
        }
    }

    /// Where the first custom definition with a name stands.
    pub open spec fn named_position(self, name: Seq<char>) -> Option<int> {
        first_position(self.custom_definitions, |definition: DefinitionView| definition.name == name)
    }

    /// The first custom definition with a name. Standard definitions are not
    /// found by name.
    pub open spec fn find_definition(self, name: Seq<char>) -> Option<DefinitionView> {
        match self.named_position(name) {
            Some(position) => Some(self.custom_definitions[position]),
            None => None,
        }
    }

    /// Where, under a variable, the account of a definition stands.
    pub open spec fn account_position(self, variable: Equation, id: ID) -> Option<int> {
        first_position(self.accounts(variable), |account: AccountView| account.definition_id == id)
    }

    /// The account of a definition under a variable.
    pub open spec fn account(self, variable: Equation, id: ID) -> Option<AccountView> {
        match self.account_position(variable, id) {
            Some(position) => Some(self.accounts(variable)[position]),
            None => None,
        }
    }

    /// Whether an identifier resolves to a root: a definition without a parent.
    pub open spec fn root_definition(self, id: ID) -> bool {
        self.definition(id) matches Some(definition) && definition.parent_id.is_none()
    }

    /// Whether an account's definition is a root.
    pub open spec fn is_root(self, account: AccountView) -> bool {
        self.root_definition(account.definition_id)
    }

    /// The total of the root accounts under a variable. Accounts under a parent
    /// are left out.
    pub open spec fn root_total(self, variable: Equation) -> int {
        total_where(self.accounts(variable), |account: AccountView| self.is_root(account))
    }

    /// Whether an account's definition stands directly under a parent.
    pub open spec fn child_of(self, account: AccountView, parent_id: ID) -> bool {
        self.definition(account.definition_id) matches Some(definition) && definition.parent_id
            == Some(parent_id)
    }

    /// The accounts whose definitions stand directly under a parent, in the
    /// order of their partition. They are looked for in the partition of the
    /// parent's equation variable, which a definition shares with its parent.
    pub open spec fn account_children(self, parent_id: ID) -> Seq<AccountView> {
        match self.definition(parent_id) {
            Some(parent) => self.accounts(parent.equation_variable).filter(
                |account: AccountView| self.child_of(account, parent_id),
            ),
            None => Seq::empty(),
        }
    }

    /// The accounts whose definitions stand under a parent, down to a depth:
    /// first the children, then the descendants of each child in turn.
    pub open spec fn account_descendants(self, parent_id: ID, depth: nat) -> Seq<AccountView>
        decreases depth, 0nat,
    {
        if depth == 0 {
            Seq::empty()
        } else {
            let children = self.account_children(parent_id);
            children + self.descendants_of_each(children, (depth - 1) as nat)
        }
    }

    /// The descendants of each account of a run in turn, down to a depth.
    pub open spec fn descendants_of_each(self, accounts: Seq<AccountView>, depth: nat) -> Seq<AccountView>
        decreases depth, accounts.len() + 1,
    {
        if accounts.len() == 0 {
            Seq::empty()
        } else {
            self.descendants_of_each(accounts.drop_last(), depth) + self.account_descendants(
                accounts.last().definition_id,
                depth,
            )
        }
    }

    /// A depth that no chain of definitions reaches: each custom definition
    /// stands under one that was made before it, and a standard definition at
    /// most under one other.
    pub open spec fn depth_limit(self) -> nat {
        (self.next_serial + 1) as nat
    }

    /// The name of an account's definition; no name where it does not resolve.
    pub open spec fn account_name(self, account: AccountView) -> Seq<char> {
        match self.definition(account.definition_id) {
            Some(definition) => definition.name,
            None => Seq::empty(),
        }
    }

    /// One line for each account under a variable.
    pub open spec fn partition_lines(self, variable: Equation) -> Seq<Seq<char>> {
        self.accounts(variable).map_values(
            |account: AccountView| account_line(self.account_name(account), account.balance),
        )
    }

    /// The listing of all accounts: under a heading for each variable, assets
    /// first, then equity, then liabilities, one line for each account, and an
    /// empty line after each group.
    pub open spec fn account_lines(self) -> Seq<Seq<char>> {
        seq!["[ASSETS]"@] + self.partition_lines(Equation::Assets) + seq![
            Seq::empty(),
            "[EQUITY]"@,
        ] + self.partition_lines(Equation::Equity) + seq![Seq::empty(), "[LIABILITIES]"@]
            + self.partition_lines(Equation::Liabilities) + seq![Seq::empty()]
    }

    /// By how much the debit side of the equation exceeds the credit side.
    pub open spec fn excess(self) -> int {
        self.equation_balance().debit_side() - self.equation_balance().credit_side()
    }

    /// The chart after a debit and a credit of one amount, each to the account
    /// of a definition; none where either posting fails.
    pub open spec fn after_pair(self, pair: PairedPosting) -> Option<IndexView> {
        match self.posting(ValueChange::Debit, pair.debit_variable, pair.debit_id, pair.amount) {
            Posting::Posted { position, balance } => {
                let debited = self.with_balance(pair.debit_variable, position, balance);
                match debited.posting(
                    ValueChange::Credit,
                    pair.credit_variable,
                    pair.credit_id,
                    pair.amount,
                ) {
                    Posting::Posted { position, balance } => Some(
                        debited.with_balance(pair.credit_variable, position, balance),
                    ),
                    _ => None,
                }
            },
            _ => None,
        }
    }

    /// The chart after a run of paired postings; none where any posting fails.
    pub open spec fn after_pairs(self, pairs: Seq<PairedPosting>) -> Option<IndexView>
        decreases pairs.len(),
    {
        if pairs.len() == 0 {
            Some(self)
        } else {
            match self.after_pairs(pairs.drop_last()) {
                Some(chart) => chart.after_pair(pairs.last()),
                None => None,
            }
        }
    }

    /// Whether both postings of a pair reach the equation alike: both
    /// definitions are roots, or neither is, or nothing is posted. The balance
    /// of the equation counts root accounts only, so a pair that posts to a root
    /// and to a definition under a parent moves one side alone.
    pub open spec fn pair_alike(self, pair: PairedPosting) -> bool {
        pair.amount == 0 || self.root_definition(pair.debit_id) == self.root_definition(
            pair.credit_id,
        )
    }

    /// The balance of the accounting equation.
    pub open spec fn equation_balance(self) -> EquationBalanceView {
        EquationBalanceView {
            assets: self.root_total(Equation::Assets),
            liabilities: self.root_total(Equation::Liabilities),
            equity: self.root_total(Equation::Equity),
        }
    }

    /// The custom definition that the chart would make next, with a name and
    /// under a parent: it takes the next serial and the parent's equation
    /// variable, and names the parent by its identifier.
    pub open spec fn next_custom(self, name: Seq<char>, parent: DefinitionView) -> DefinitionView {
        DefinitionView {
            id: self.custom_id(self.next_serial),
            name,
            equation_variable: parent.equation_variable,
            parent_id: Some(parent.id),
            standard: false,
        }
    }

    /// The chart after a custom definition was made under a parent: the
    /// definition is registered last, an empty account for it is opened last in
    /// the partition of its equation variable, and the next serial is one higher.
    pub open spec fn with_custom(self, name: Seq<char>, parent: DefinitionView) -> IndexView {
        let made = self.next_custom(name, parent);
        IndexView {
            next_serial: self.next_serial + 1,
            custom_definitions: self.custom_definitions.push(made),
            ..self.with_accounts(
                made.equation_variable,
                self.accounts(made.equation_variable).push(
                    AccountView { definition_id: made.id, balance: 0 },
                ),
            )
        }
    }

    /// The chart after a posting to the account at a place under a variable.
    pub open spec fn posted(
        self,
        change: ValueChange,
        variable: Equation,
        position: int,
        amount: int,
    ) -> IndexView {
        self.with_balance(
            variable,
            position,
            self.accounts(variable)[position].balance + posting_change(change, variable, amount),
        )
    }

    /// What holds of the custom definition at a place: it bears the identifier of
    /// its serial, and it stands under a parent that the chart held before it and
    /// whose equation variable it has.
    pub open spec fn custom_ok(self, position: int) -> bool {
        let definition = self.custom_definitions[position];
        &&& definition.id == self.custom_id(position + 1)
        &&& !definition.standard
        &&& definition.parent_id matches Some(parent_id) && self.definition(parent_id) matches Some(
            parent,
        ) && parent.equation_variable == definition.equation_variable && (parent.standard
            || parent_id.serial <= position)
    }

    /// What holds of the accounts under a variable: each is bound to a definition
    /// of that variable, and no two to the same.
    pub open spec fn partition_ok(self, variable: Equation) -> bool {
        let accounts = self.accounts(variable);
        &&& forall|k: int|
            0 <= k < accounts.len() ==> {
                &&& i64::MIN <= (#[trigger] accounts[k]).balance <= i64::MAX
                &&& self.definition(accounts[k].definition_id) matches Some(definition)
                    && definition.equation_variable == variable
            }
        &&& forall|k: int, l: int|
            0 <= k < l < accounts.len() ==> (#[trigger] accounts[k]).definition_id != (
            #[trigger] accounts[l]).definition_id
    }

    /// The chart's invariant.
    pub open spec fn wf(self) -> bool {
        &&& self.has_standard_accounts
        &&& self.standard_definitions == StandardAccounts::catalogue()
        &&& self.next_serial == self.custom_definitions.len() + 1
        &&& self.next_serial <= u32::MAX
        &&& forall|i: int| 0 <= i < self.custom_definitions.len() ==> #[trigger] self.custom_ok(i)
        &&& self.asset_accounts.len() + self.liability_accounts.len() + self.equity_accounts.len()
            == 14 + self.custom_definitions.len()
        &&& self.partition_ok(Equation::Assets)
        &&& self.partition_ok(Equation::Liabilities)
        &&& self.partition_ok(Equation::Equity)
        &&& forall|id: ID|
            (#[trigger] self.definition(id)) matches Some(definition) ==> has_account(
                self.accounts(definition.equation_variable),
                id,
            )
    }
}

} // verus!

verus! {

/// Changing one account changes the total by the difference of what the old and
/// the new account count for.
pub proof fn lemma_total_where_update(
    accounts: Seq<AccountView>,
    counted: spec_fn(AccountView) -> bool,
    position: int,
    account: AccountView,
)
    requires
        0 <= position < accounts.len(),
    ensures
        total_where(accounts.update(position, account), counted) == total_where(accounts, counted)
            - (if counted(accounts[position]) {
            accounts[position].balance
        } else {
            0
        }) + (if counted(account) {
            account.balance
        } else {
            0
        }),
    decreases accounts.len(),
{
    let changed = accounts.update(position, account);
    if position == accounts.len() - 1 {
        assert(changed.drop_last() =~= accounts.drop_last());
    } else {
        lemma_total_where_update(accounts.drop_last(), counted, position, account);
        assert(changed.drop_last() =~= accounts.drop_last().update(position, account));
    }
}

/// Two conditions that agree on every account of a run give the same total.
pub proof fn lemma_total_where_same(
    accounts: Seq<AccountView>,
    counted: spec_fn(AccountView) -> bool,
    other: spec_fn(AccountView) -> bool,
)
    requires
        forall|k: int| 0 <= k < accounts.len() ==> counted(#[trigger] accounts[k]) == other(accounts[k]),
    ensures
        total_where(accounts, counted) == total_where(accounts, other),
    decreases accounts.len(),
{
    if accounts.len() > 0 {
        assert(forall|k: int|
            0 <= k < accounts.len() - 1 ==> accounts.drop_last()[k] == accounts[k]);
        lemma_total_where_same(accounts.drop_last(), counted, other);
    }
}

/// A new chart meets the invariant.
pub proof fn lemma_standard_wf(currency: CurrencyView)
    ensures
        IndexView::standard(currency).wf(),
{
    let chart = IndexView::standard(currency);
    crate::definition::standard::lemma_catalogue_entries();
    assert forall|id: ID| (#[trigger] chart.definition(id)).is_some() implies has_account(
        chart.accounts(chart.definition(id).unwrap().equation_variable),
        id,
    ) by {
        let variable = chart.definition(id).unwrap().equation_variable;
        let k = id.serial - standard_first(variable);
        assert(chart.accounts(variable)[k].definition_id == id);
    }
}

} // verus!
