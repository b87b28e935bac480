//! What postings and new definitions do to a chart, proved over its model.

use crate::account::AccountView;
use crate::definition::standard::StandardAccounts;
use crate::definition::DefinitionView;
use crate::equation::{Equation, ValueChange};
use crate::id::ID;
use crate::index::view::{
    has_account, lemma_total_where_same, lemma_total_where_update, posting_change, total_where,
    IndexView, PairedPosting,
};
use crate::search::lemma_first_position;
use vstd::prelude::*;

verus! {

/// Every definition that a chart resolves bears the identifier that was asked
/// for.
pub proof fn lemma_definition_bears_id(chart: IndexView, id: ID)
    ensures
        chart.definition(id) matches Some(definition) ==> definition.id == id,
{
}

/// In a chart that meets the invariant, every definition that resolves has its
/// account, and only one, in the partition of its equation variable.
pub proof fn lemma_definition_has_account(chart: IndexView, id: ID)
    requires
        chart.wf(),
        chart.definition(id).is_some(),
    ensures
        chart.account_position(chart.definition(id).unwrap().equation_variable, id).is_some(),
        forall|variable: Equation|
            variable != chart.definition(id).unwrap().equation_variable
                ==> chart.account_position(variable, id).is_none(),
{
    let definition = chart.definition(id).unwrap();
    let wanted = |account: AccountView| account.definition_id == id;
    lemma_first_position(chart.accounts(definition.equation_variable), wanted);
    assert(has_account(chart.accounts(definition.equation_variable), id));
    assert forall|variable: Equation|
        variable != definition.equation_variable implies chart.account_position(
        variable,
        id,
    ).is_none() by {
        lemma_first_position(chart.accounts(variable), wanted);
        assert(chart.partition_ok(variable));
    }
}

/// The account found for an identifier is bound to it, and under the invariant
/// it is the only such account of its partition.
pub proof fn lemma_account_position(chart: IndexView, variable: Equation, id: ID)
    ensures
        match chart.account_position(variable, id) {
            Some(position) => {
                &&& 0 <= position < chart.accounts(variable).len()
                &&& chart.accounts(variable)[position].definition_id == id
                &&& chart.wf() ==> forall|k: int|
                    0 <= k < chart.accounts(variable).len() && k != position
                        ==> (#[trigger] chart.accounts(variable)[k]).definition_id != id
            },
            None => !has_account(chart.accounts(variable), id),
        },
{
    let wanted = |account: AccountView| account.definition_id == id;
    lemma_first_position(chart.accounts(variable), wanted);
    if chart.wf() {
        assert(chart.partition_ok(variable));
    }
}

/// A chart with another balance on one account resolves the same definitions
/// and finds every account where it was.
pub proof fn lemma_with_balance_keeps(chart: IndexView, variable: Equation, position: int, balance: int)
    requires
        0 <= position < chart.accounts(variable).len(),
    ensures
        forall|id: ID| #[trigger]
            chart.with_balance(variable, position, balance).definition(id) == chart.definition(id),
        forall|other: Equation, id: ID| #[trigger]
            chart.with_balance(variable, position, balance).account_position(other, id)
                == chart.account_position(other, id),
        forall|other: Equation|
            other != variable ==> #[trigger] chart.with_balance(variable, position, balance).accounts(
                other,
            ) == chart.accounts(other),
        chart.with_balance(variable, position, balance).accounts(variable).len() == chart.accounts(
            variable,
        ).len(),
{
    let after = chart.with_balance(variable, position, balance);
    assert forall|other: Equation, id: ID| #[trigger]
        after.account_position(other, id) == chart.account_position(other, id) by {
        let wanted = |account: AccountView| account.definition_id == id;
        lemma_first_position(chart.accounts(other), wanted);
        lemma_first_position(after.accounts(other), wanted);
        if other == variable {
            assert(forall|k: int|
                0 <= k < chart.accounts(other).len() ==> (#[trigger] after.accounts(
                    other,
                )[k]).definition_id == chart.accounts(other)[k].definition_id);
            match chart.account_position(other, id) {
                Some(first) => {
                    assert(wanted(after.accounts(other)[first]));
                    match after.account_position(other, id) {
                        Some(found) => {
                            if found < first {
                                assert(wanted(chart.accounts(other)[found]));
                            }
                        },
                        None => {},
                    }
                },
                None => {
                    match after.account_position(other, id) {
                        Some(found) => {
                            assert(wanted(chart.accounts(other)[found]));
                        },
                        None => {},
                    }
                },
            }
        }
    }
}

/// Another balance on one account, within the 64-bit range, keeps the invariant.
pub proof fn lemma_with_balance_wf(chart: IndexView, variable: Equation, position: int, balance: int)
    requires
        chart.wf(),
        0 <= position < chart.accounts(variable).len(),
        i64::MIN <= balance <= i64::MAX,
    ensures
        chart.with_balance(variable, position, balance).wf(),
{
    let after = chart.with_balance(variable, position, balance);
    lemma_with_balance_keeps(chart, variable, position, balance);
    assert forall|i: int| 0 <= i < after.custom_definitions.len() implies #[trigger] after.custom_ok(
        i,
    ) by {
        assert(chart.custom_ok(i));
    }
    assert forall|other: Equation| #[trigger] after.partition_ok(other) by {
        assert(chart.partition_ok(other));
        if other == variable {
            assert(forall|k: int|
                0 <= k < chart.accounts(other).len() ==> (#[trigger] after.accounts(
                    other,
                )[k]).definition_id == chart.accounts(other)[k].definition_id);
        }
    }
    assert(after.partition_ok(Equation::Assets));
    assert(after.partition_ok(Equation::Liabilities));
    assert(after.partition_ok(Equation::Equity));
    assert forall|id: ID| (#[trigger] after.definition(id)).is_some() implies has_account(
        after.accounts(after.definition(id).unwrap().equation_variable),
        id,
    ) by {
        let other = chart.definition(id).unwrap().equation_variable;
        assert(has_account(chart.accounts(other), id));
        let k = choose|k: int|
            0 <= k < chart.accounts(other).len() && (#[trigger] chart.accounts(
                other,
            )[k]).definition_id == id;
        assert(after.accounts(other)[k].definition_id == id);
    }
}

/// Another balance on one account changes the root total of its partition by
/// the difference, if the account's definition is a root, and no other total.
pub proof fn lemma_with_balance_totals(chart: IndexView, variable: Equation, position: int, balance: int)
    requires
        0 <= position < chart.accounts(variable).len(),
    ensures
        forall|other: Equation|
            other != variable ==> #[trigger] chart.with_balance(variable, position, balance).root_total(
                other,
            ) == chart.root_total(other),
        chart.with_balance(variable, position, balance).root_total(variable) == chart.root_total(
            variable,
        ) + if chart.is_root(chart.accounts(variable)[position]) {
            balance - chart.accounts(variable)[position].balance
        } else {
            0
        },
{
    let after = chart.with_balance(variable, position, balance);
    lemma_with_balance_keeps(chart, variable, position, balance);
    let before_root = |account: AccountView| chart.is_root(account);
    let after_root = |account: AccountView| after.is_root(account);
    assert forall|other: Equation| #[trigger]
        total_where(after.accounts(other), after_root) == total_where(
            after.accounts(other),
            before_root,
        ) by {
        lemma_total_where_same(after.accounts(other), after_root, before_root);
    }
    let changed = AccountView {
        definition_id: chart.accounts(variable)[position].definition_id,
        balance,
    };
    lemma_total_where_update(chart.accounts(variable), before_root, position, changed);
    assert(after.accounts(variable) == chart.accounts(variable).update(position, changed));
    assert forall|other: Equation| other != variable implies #[trigger] after.root_total(other)
        == chart.root_total(other) by {
        assert(after.accounts(other) == chart.accounts(other));
    }
}

/// A chart with a new custom definition resolves every identifier as before,
/// but the new definition's, which resolved to nothing and now resolves to it.
pub proof fn lemma_with_custom_definitions(chart: IndexView, name: Seq<char>, parent: DefinitionView)
    requires
        chart.wf(),
        chart.next_serial < u32::MAX,
    ensures
        chart.definition(chart.next_custom(name, parent).id).is_none(),
        chart.with_custom(name, parent).definition(chart.next_custom(name, parent).id) == Some(
            chart.next_custom(name, parent),
        ),
        forall|id: ID|
            id != chart.next_custom(name, parent).id ==> #[trigger] chart.with_custom(
                name,
                parent,
            ).definition(id) == chart.definition(id),
{
    let made = chart.next_custom(name, parent);
    let after = chart.with_custom(name, parent);
    assert(after.standard_definitions == chart.standard_definitions);
    assert(after.custom_definitions == chart.custom_definitions.push(made));
    assert forall|id: ID| id != made.id implies #[trigger] after.definition(id) == chart.definition(
        id,
    ) by {
        if 1 <= id.serial <= chart.custom_definitions.len() {
            assert(after.custom_definitions[id.serial - 1] == chart.custom_definitions[id.serial
                - 1]);
        } else if id.serial == chart.custom_definitions.len() + 1 {
            assert(after.custom_definitions[id.serial - 1] == made);
        }
    }
}

/// A new custom definition under a parent that the chart resolves keeps the
/// invariant.
pub proof fn lemma_with_custom_wf(chart: IndexView, name: Seq<char>, parent: DefinitionView)
    requires
        chart.wf(),
        chart.next_serial < u32::MAX,
        chart.definition(parent.id) == Some(parent),
    ensures
        chart.with_custom(name, parent).wf(),
{
    let made = chart.next_custom(name, parent);
    let after = chart.with_custom(name, parent);
    let variable = made.equation_variable;
    let opened = AccountView { definition_id: made.id, balance: 0 };
    lemma_with_custom_definitions(chart, name, parent);
    assert(after.custom_definitions == chart.custom_definitions.push(made));
    assert(after.accounts(variable) == chart.accounts(variable).push(opened));
    assert forall|other: Equation| other != variable implies #[trigger] after.accounts(other)
        == chart.accounts(other) by {}
    assert forall|i: int| 0 <= i < after.custom_definitions.len() implies #[trigger] after.custom_ok(
        i,
    ) by {
        if i < chart.custom_definitions.len() {
            assert(chart.custom_ok(i));
            assert(after.custom_definitions[i] == chart.custom_definitions[i]);
            let parent_id = chart.custom_definitions[i].parent_id.unwrap();
            assert(chart.definition(parent_id).is_some());
            assert(parent_id != made.id);
        } else {
            assert(after.custom_definitions[i] == made);
            assert(parent.id != made.id);
        }
    }
    assert forall|other: Equation| #[trigger] after.partition_ok(other) by {
        assert(chart.partition_ok(other));
        let accounts = after.accounts(other);
        assert forall|k: int| 0 <= k < accounts.len() implies {
            &&& i64::MIN <= (#[trigger] accounts[k]).balance <= i64::MAX
            &&& after.definition(accounts[k].definition_id) matches Some(definition)
                && definition.equation_variable == other
        } by {
            if k < chart.accounts(other).len() {
                assert(accounts[k] == chart.accounts(other)[k]);
                assert(chart.definition(accounts[k].definition_id).is_some());
            }
        }
        assert forall|k: int, l: int| 0 <= k < l < accounts.len() implies (
        #[trigger] accounts[k]).definition_id != (#[trigger] accounts[l]).definition_id by {
            assert(accounts[k] == chart.accounts(other)[k]);
            assert(chart.definition(accounts[k].definition_id).is_some());
            if l < chart.accounts(other).len() {
                assert(accounts[l] == chart.accounts(other)[l]);
            }
        }
    }
    assert(after.partition_ok(Equation::Assets));
    assert(after.partition_ok(Equation::Liabilities));
    assert(after.partition_ok(Equation::Equity));
    assert forall|id: ID| (#[trigger] after.definition(id)).is_some() implies has_account(
        after.accounts(after.definition(id).unwrap().equation_variable),
        id,
    ) by {
        if id == made.id {
            let last = chart.accounts(variable).len() as int;
            assert(after.accounts(variable)[last].definition_id == id);
        } else {
            let other = chart.definition(id).unwrap().equation_variable;
            assert(has_account(chart.accounts(other), id));
            let k = choose|k: int|
                0 <= k < chart.accounts(other).len() && (#[trigger] chart.accounts(
                    other,
                )[k]).definition_id == id;
            assert(after.accounts(other)[k] == chart.accounts(other)[k]);
        }
    }
}

/// A new custom definition leaves every root total as it was: its account is
/// empty and stands under a parent.
pub proof fn lemma_with_custom_totals(chart: IndexView, name: Seq<char>, parent: DefinitionView)
    requires
        chart.wf(),
        chart.next_serial < u32::MAX,
        chart.definition(parent.id) == Some(parent),
    ensures
        chart.with_custom(name, parent).equation_balance() == chart.equation_balance(),
{
    let made = chart.next_custom(name, parent);
    let after = chart.with_custom(name, parent);
    let variable = made.equation_variable;
    let opened = AccountView { definition_id: made.id, balance: 0 };
    lemma_with_custom_definitions(chart, name, parent);
    let before_root = |account: AccountView| chart.is_root(account);
    let after_root = |account: AccountView| after.is_root(account);
    assert(after.accounts(variable) == chart.accounts(variable).push(opened));
    assert forall|other: Equation| #[trigger] after.root_total(other) == chart.root_total(other) by {
        assert(chart.partition_ok(other));
        assert forall|k: int| 0 <= k < chart.accounts(other).len() implies after_root(
            #[trigger] chart.accounts(other)[k],
        ) == before_root(chart.accounts(other)[k]) by {
            assert(chart.definition(chart.accounts(other)[k].definition_id).is_some());
        }
        lemma_total_where_same(chart.accounts(other), after_root, before_root);
        if other == variable {
            assert(after.accounts(other).drop_last() == chart.accounts(other));
        } else {
            assert(after.accounts(other) == chart.accounts(other));
        }
    }
}

/// A custom definition reports the equation variable of its parent: in a chart
/// that meets the invariant, every custom definition names a parent that the
/// chart resolves, and has that parent's equation variable.
pub proof fn lemma_custom_inherits(chart: IndexView, position: int)
    requires
        chart.wf(),
        0 <= position < chart.custom_definitions.len(),
    ensures
        chart.custom_definitions[position].parent_id matches Some(parent_id) && chart.definition(
            parent_id,
        ) matches Some(parent) && parent.equation_variable
            == chart.custom_definitions[position].equation_variable,
        chart.definition(chart.custom_definitions[position].id) == Some(
            chart.custom_definitions[position],
        ),
{
    assert(chart.custom_ok(position));
}

/// A definition made under a parent reports the parent's equation variable and
/// names the parent, whatever its name; and the chart then finds a definition
/// by that name.
pub proof fn lemma_created_inherits(chart: IndexView, name: Seq<char>, parent: DefinitionView)
    requires
        chart.wf(),
        chart.next_serial < u32::MAX,
        chart.definition(parent.id) == Some(parent),
    ensures
        chart.with_custom(name, parent).definition(chart.next_custom(name, parent).id) matches Some(
            made,
        ) && made.equation_variable == parent.equation_variable && made.parent_id == Some(parent.id),
        chart.with_custom(name, parent).definition(parent.id) == Some(parent),
        chart.with_custom(name, parent).find_definition(name).is_some(),
        chart.find_definition(name).is_none() ==> chart.with_custom(name, parent).find_definition(
            name,
        ) == Some(chart.next_custom(name, parent)),
{
    let after = chart.with_custom(name, parent);
    let made = chart.next_custom(name, parent);
    lemma_with_custom_definitions(chart, name, parent);
    let wanted = |definition: DefinitionView| definition.name == name;
    lemma_first_position(after.custom_definitions, wanted);
    lemma_first_position(chart.custom_definitions, wanted);
    assert(after.custom_definitions == chart.custom_definitions.push(made));
    assert(wanted(after.custom_definitions[chart.custom_definitions.len() as int]));
    if chart.find_definition(name).is_none() {
        let found = after.named_position(name).unwrap();
        if found < chart.custom_definitions.len() {
            assert(after.custom_definitions[found] == chart.custom_definitions[found]);
        }
    }
}

/// No two custom definitions of a chart have the same serial: the definition at
/// each place has the serial of its place, counted from 1, and the next serial
/// is higher than all of them.
pub proof fn lemma_serials_unique(chart: IndexView, first: int, second: int)
    requires
        chart.wf(),
        0 <= first < chart.custom_definitions.len(),
        0 <= second < chart.custom_definitions.len(),
        first != second,
    ensures
        chart.custom_definitions[first].id.serial != chart.custom_definitions[second].id.serial,
        chart.custom_definitions[first].id != chart.custom_definitions[second].id,
        chart.custom_definitions[first].id.serial == first + 1,
        chart.custom_definitions[first].id.serial < chart.next_serial,
{
    assert(chart.custom_ok(first));
    assert(chart.custom_ok(second));
}

/// Posting direction: a debit raises a balance that counts under assets and
/// lowers one that counts under liabilities or equity, by the amount; a credit
/// is the exact inverse in each case.
pub proof fn lemma_posting_direction(variable: Equation, amount: int)
    ensures
        posting_change(ValueChange::Debit, Equation::Assets, amount) == amount,
        posting_change(ValueChange::Debit, Equation::Liabilities, amount) == -amount,
        posting_change(ValueChange::Debit, Equation::Equity, amount) == -amount,
        posting_change(ValueChange::Credit, variable, amount) == -posting_change(
            ValueChange::Debit,
            variable,
            amount,
        ),
{
}

/// A posting that succeeds changes one balance by what the direction rule
/// says, keeps the invariant, and moves the excess of the debit side over the
/// credit side by the amount, up for a debit and down for a credit, if the
/// definition is a root; it leaves the excess alone otherwise.
pub proof fn lemma_posting_effect(
    chart: IndexView,
    change: ValueChange,
    variable: Equation,
    id: ID,
    amount: int,
)
    requires
        chart.wf(),
        chart.posting(change, variable, id, amount) is Posted,
    ensures
        ({
            let position = chart.posting(change, variable, id, amount)->position;
            let balance = chart.posting(change, variable, id, amount)->balance;
            let after = chart.with_balance(variable, position, balance);
            &&& after.wf()
            &&& after.account(variable, id) == Some(AccountView { definition_id: id, balance })
            &&& balance == chart.account(variable, id).unwrap().balance + posting_change(
                change,
                variable,
                amount,
            )
            &&& forall|other: ID| #[trigger] after.definition(other) == chart.definition(other)
            &&& forall|other: Equation|
                other != variable ==> #[trigger] after.root_total(other) == chart.root_total(other)
            &&& after.root_total(variable) == chart.root_total(variable) + if chart.root_definition(
                id,
            ) {
                posting_change(change, variable, amount)
            } else {
                0
            }
            &&& after.excess() == chart.excess() + if chart.root_definition(id) {
                match change {
                    ValueChange::Debit => amount,
                    ValueChange::Credit => -amount,
                }
            } else {
                0
            }
        }),
{
    let position = chart.posting(change, variable, id, amount)->position;
    let balance = chart.posting(change, variable, id, amount)->balance;
    lemma_account_position(chart, variable, id);
    lemma_with_balance_keeps(chart, variable, position, balance);
    lemma_with_balance_wf(chart, variable, position, balance);
    lemma_with_balance_totals(chart, variable, position, balance);
    let after = chart.with_balance(variable, position, balance);
    assert(after.accounts(variable)[position] == AccountView { definition_id: id, balance });
    assert(chart.partition_ok(variable));
}

/// A debit and a credit of one amount that reach the equation alike leave the
/// excess of the debit side over the credit side as it was: a balanced
/// equation stays balanced.
pub proof fn lemma_pair_keeps_equation(chart: IndexView, pair: PairedPosting)
    requires
        chart.wf(),
        chart.pair_alike(pair),
        chart.after_pair(pair).is_some(),
    ensures
        chart.after_pair(pair).unwrap().wf(),
        chart.after_pair(pair).unwrap().excess() == chart.excess(),
        chart.equation_balance().balanced() ==> chart.after_pair(
            pair,
        ).unwrap().equation_balance().balanced(),
        forall|id: ID| #[trigger]
            chart.after_pair(pair).unwrap().definition(id) == chart.definition(id),
{
    lemma_posting_effect(chart, ValueChange::Debit, pair.debit_variable, pair.debit_id, pair.amount);
    let first = chart.posting(ValueChange::Debit, pair.debit_variable, pair.debit_id, pair.amount);
    let debited = chart.with_balance(pair.debit_variable, first->position, first->balance);
    lemma_posting_effect(
        debited,
        ValueChange::Credit,
        pair.credit_variable,
        pair.credit_id,
        pair.amount,
    );
    assert(debited.definition(pair.credit_id) == chart.definition(pair.credit_id));
}

/// Equation identity: after every step of a run of paired postings of equal
/// amounts that reach the equation alike, the debit side of the equation
/// equals the credit side, if it did at the start.
pub proof fn lemma_pairs_keep_equation(chart: IndexView, pairs: Seq<PairedPosting>, steps: int)
    requires
        chart.wf(),
        chart.equation_balance().balanced(),
        forall|k: int| 0 <= k < pairs.len() ==> chart.pair_alike(#[trigger] pairs[k]),
        0 <= steps <= pairs.len(),
        chart.after_pairs(pairs.take(steps)).is_some(),
    ensures
        chart.after_pairs(pairs.take(steps)).unwrap().wf(),
        chart.after_pairs(pairs.take(steps)).unwrap().equation_balance().balanced(),
        forall|id: ID| #[trigger]
            chart.after_pairs(pairs.take(steps)).unwrap().definition(id) == chart.definition(id),
    decreases steps,
{
    if steps > 0 {
        let done = pairs.take(steps);
        assert(done.drop_last() =~= pairs.take(steps - 1));
        assert(done.last() == pairs[steps - 1]);
        lemma_pairs_keep_equation(chart, pairs, steps - 1);
        let reached = chart.after_pairs(pairs.take(steps - 1)).unwrap();
        assert(reached.definition(pairs[steps - 1].debit_id) == chart.definition(
            pairs[steps - 1].debit_id,
        ));
        assert(reached.definition(pairs[steps - 1].credit_id) == chart.definition(
            pairs[steps - 1].credit_id,
        ));
        lemma_pair_keeps_equation(reached, pairs[steps - 1]);
    } else {
        assert(pairs.take(0).len() == 0);
    }
}

/// A new chart is balanced: every total is zero.
pub proof fn lemma_standard_balanced(currency: crate::currency::CurrencyView)
    ensures
        IndexView::standard(currency).wf(),
        IndexView::standard(currency).equation_balance() == (
        crate::statement::equation_balance::EquationBalanceView { assets: 0, liabilities: 0, equity: 0 }),
        IndexView::standard(currency).equation_balance().balanced(),
{
    let chart = IndexView::standard(currency);
    crate::index::view::lemma_standard_wf(currency);
    assert forall|variable: Equation| #[trigger] chart.root_total(variable) == 0 by {
        lemma_total_where_zero(
            chart.accounts(variable),
            |account: AccountView| chart.is_root(account),
        );
    }
}

/// A new chart holds one empty account for each standard definition, in the
/// partition of the definition's equation variable, and no other account.
pub proof fn lemma_standard_accounts(currency: crate::currency::CurrencyView, entry: StandardAccounts)
    ensures
        IndexView::standard(currency).definition(entry.entry_view().id) == Some(entry.entry_view()),
        IndexView::standard(currency).account(entry.variable(), entry.entry_view().id) == Some(
            AccountView { definition_id: entry.entry_view().id, balance: 0 },
        ),
        IndexView::standard(currency).asset_accounts.len() + IndexView::standard(
            currency,
        ).liability_accounts.len() + IndexView::standard(currency).equity_accounts.len() == 14,
{
    let chart = IndexView::standard(currency);
    let id = entry.entry_view().id;
    crate::index::view::lemma_standard_wf(currency);
    crate::definition::standard::lemma_catalogue_entries();
    assert(chart.standard_definitions[entry.serial() - 1] == entry.entry_view());
    lemma_definition_has_account(chart, id);
    lemma_account_position(chart, entry.variable(), id);
}

/// Accounts with nothing on them total nothing.
pub proof fn lemma_total_where_zero(accounts: Seq<AccountView>, counted: spec_fn(AccountView) -> bool)
    requires
        forall|k: int| 0 <= k < accounts.len() ==> (#[trigger] accounts[k]).balance == 0,
    ensures
        total_where(accounts, counted) == 0,
    decreases accounts.len(),
{
    if accounts.len() > 0 {
        assert(forall|k: int|
            0 <= k < accounts.len() - 1 ==> accounts.drop_last()[k] == accounts[k]);
        lemma_total_where_zero(accounts.drop_last(), counted);
    }
}

/// How far down the chains of definitions an identifier stands at least: a
/// standard root at 0, a standard definition under another at 1, and a custom
/// definition one further than its serial.
pub open spec fn rank(id: ID) -> int {
    if id.class == 2 {
        1 + id.serial
    } else if StandardAccounts::with_serial(id.serial as int).parent_entry().is_some() {
        1
    } else {
        0
    }
}

/// A definition stands further down than its parent, and no definition that a
/// chart resolves stands further down than the chart's next serial.
pub proof fn lemma_child_ranks_higher(chart: IndexView, child: ID, parent_id: ID)
    requires
        chart.wf(),
        chart.definition(child) matches Some(definition) && definition.parent_id == Some(
            parent_id,
        ),
    ensures
        rank(parent_id) < rank(child) <= chart.next_serial,
{
    crate::definition::standard::lemma_catalogue_entries();
    let definition = chart.definition(child).unwrap();
    if child.class == 2 {
        let position = child.serial - 1;
        assert(chart.custom_ok(position));
        assert(chart.definition(parent_id).is_some());
        if parent_id.class == 2 {
            assert(chart.custom_ok(parent_id.serial - 1));
        } else {
            assert(parent_id.class == 1);
        }
    } else {
        assert(child.class == 1);
        let entry = StandardAccounts::with_serial(child.serial as int);
        assert(chart.standard_definitions[child.serial - 1] == entry.entry_view());
        assert(definition == entry.entry_view());
        let above = entry.parent_entry().unwrap();
        assert(parent_id == above.entry_view().id);
        assert(StandardAccounts::with_serial(above.serial() as int) == above);
        assert(above.parent_entry().is_none());
    }
}

/// Searching deeper than the chains of definitions reach finds nothing more.
/// From an identifier of some rank, a depth of the next serial less that rank
/// is as good as any greater depth.
pub proof fn lemma_descendants_settle(chart: IndexView, parent_id: ID, depth: nat, deeper: nat)
    requires
        chart.wf(),
        rank(parent_id) <= chart.next_serial,
        chart.next_serial - rank(parent_id) <= depth <= deeper,
    ensures
        chart.account_descendants(parent_id, deeper) == chart.account_descendants(
            parent_id,
            depth,
        ),
    decreases chart.next_serial - rank(parent_id), 1nat, 0nat,
{
    let children = chart.account_children(parent_id);
    if children.len() == 0 {
        assert(chart.descendants_of_each(children, 0) == Seq::<AccountView>::empty());
        if depth > 0 {
            assert(chart.descendants_of_each(children, (depth - 1) as nat) == Seq::<
                AccountView,
            >::empty());
        }
        if deeper > 0 {
            assert(chart.descendants_of_each(children, (deeper - 1) as nat) == Seq::<
                AccountView,
            >::empty());
        }
        assert(children + Seq::<AccountView>::empty() =~= children);
        assert(Seq::<AccountView>::empty() =~= children);
    } else {
        assert(chart.child_of(children[0], parent_id)) by {
            lemma_children_are_children(chart, parent_id);
        }
        lemma_child_ranks_higher(chart, children[0].definition_id, parent_id);
        lemma_children_are_children(chart, parent_id);
        lemma_each_settle(
            chart,
            parent_id,
            children,
            (depth - 1) as nat,
            (deeper - 1) as nat,
        );
    }
}

/// Every account among the children of a parent stands directly under it.
pub proof fn lemma_children_are_children(chart: IndexView, parent_id: ID)
    ensures
        forall|k: int|
            0 <= k < chart.account_children(parent_id).len() ==> chart.child_of(
                #[trigger] chart.account_children(parent_id)[k],
                parent_id,
            ),
{
    match chart.definition(parent_id) {
        Some(parent) => {
            let wanted = |account: AccountView| chart.child_of(account, parent_id);
            let accounts = chart.accounts(parent.equation_variable);
            assert forall|k: int| 0 <= k < accounts.filter(wanted).len() implies wanted(
                #[trigger] accounts.filter(wanted)[k],
            ) by {
                accounts.lemma_filter_pred(wanted, k);
            }
        },
        None => {},
    }
}

/// The descendants of each of a run of children settle as those of one do.
proof fn lemma_each_settle(
    chart: IndexView,
    parent_id: ID,
    children: Seq<AccountView>,
    depth: nat,
    deeper: nat,
)
    requires
        chart.wf(),
        rank(parent_id) < chart.next_serial,
        forall|k: int| 0 <= k < children.len() ==> chart.child_of(#[trigger] children[k], parent_id),
        chart.next_serial - rank(parent_id) - 1 <= depth <= deeper,
    ensures
        chart.descendants_of_each(children, deeper) == chart.descendants_of_each(children, depth),
    decreases chart.next_serial - rank(parent_id), 0nat, children.len(),
{
    if children.len() > 0 {
        assert(forall|k: int|
            0 <= k < children.len() - 1 ==> children.drop_last()[k] == children[k]);
        lemma_each_settle(chart, parent_id, children.drop_last(), depth, deeper);
        let last = children.last();
        assert(chart.child_of(last, parent_id));
        lemma_child_ranks_higher(chart, last.definition_id, parent_id);
        lemma_descendants_settle(chart, last.definition_id, depth, deeper);
    }
}

/// The search for descendants is complete: at the depth where it stops, a
/// chart that meets the invariant has been searched to the end of every chain,
/// so no greater depth would find another account.
pub proof fn lemma_descendants_complete(chart: IndexView, parent_id: ID, deeper: nat)
    requires
        chart.wf(),
        chart.definition(parent_id).is_some(),
        deeper >= chart.depth_limit(),
    ensures
        chart.account_descendants(parent_id, deeper) == chart.account_descendants(
            parent_id,
            chart.depth_limit(),
        ),
{
    crate::definition::standard::lemma_catalogue_entries();
    if parent_id.class == 2 {
        assert(chart.custom_ok(parent_id.serial - 1));
    }
    lemma_descendants_settle(chart, parent_id, chart.depth_limit(), deeper);
}

} // verus!
