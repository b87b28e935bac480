//! The fixed catalogue of standard definitions.
//!
//! Each entry has a serial that is written into stored identifiers. A serial is
//! never given to another entry.

use crate::definition::{
    standard_id, AccountDefinition, AccountDefinitionTrait, DefinitionView,
    StandardAccountDefinition,
};
use crate::equation::Equation;
use crate::id::ID;
use crate::index::Index;
use vstd::prelude::*;

verus! {

/// The standard definitions.
#[derive(Debug, Clone, Copy, PartialEq, Eq, Structural)]
pub enum StandardAccounts {
    // Assets
    Cash,
    RealEstate,
    Supplies,
    // Liabilities
    AccountsPayable,
    // Equity
    CommonStock,
    /// Money earned in a business. Increases with earnings.
    Revenue,
    Dividends,
    /// Assets consumed in the process of earning revenue. Decreases with costs.
    Expense,
    // Equity, under Expense
    Wages,
    Rent,
    Utilities,
    SuppliesExpenses,
    MiscExpenses,
    // Equity, under Revenue
    /// Revenue from the sale of services. Increases with earnings, decreases with
    /// refunds.
    FeesEarned,
}

/// The short catalogue: the eight standard definitions that a small chart
/// needs.
#[derive(Debug, Clone, Copy, PartialEq, Eq, Structural)]
pub enum StandardAccount {
    // Assets
    Cash,
    RealEstate,
    Supplies,
    // Liabilities
    AccountsPayable,
    // Equity
    CommonStock,
    /// Money earned in a business. Increases with earnings.
    Revenue,
    /// Assets consumed in the process of earning revenue. Decreases with costs.
    Expense,
    // Equity, under Revenue
    /// Revenue from the sale of services. Increases with earnings, decreases with
    /// refunds.
    FeesEarned,
}

impl StandardAccount {
    /// The entry of the full catalogue that an entry of the short one stands
    /// for: the one of the same name.
    pub open spec fn full(self) -> StandardAccounts {
        match self {
            StandardAccount::Cash => StandardAccounts::Cash,
            StandardAccount::RealEstate => StandardAccounts::RealEstate,
            StandardAccount::Supplies => StandardAccounts::Supplies,
            StandardAccount::AccountsPayable => StandardAccounts::AccountsPayable,
            StandardAccount::CommonStock => StandardAccounts::CommonStock,
            StandardAccount::Revenue => StandardAccounts::Revenue,
            StandardAccount::Expense => StandardAccounts::Expense,
            StandardAccount::FeesEarned => StandardAccounts::FeesEarned,
        }
    }

    /// The entry of the full catalogue that this entry stands for.
    pub fn entry(&self) -> (entry: StandardAccounts)
        ensures
            entry == self.full(),
    {
        match self {
            Self::Cash => StandardAccounts::Cash,
            Self::RealEstate => StandardAccounts::RealEstate,
            Self::Supplies => StandardAccounts::Supplies,
            Self::AccountsPayable => StandardAccounts::AccountsPayable,
            Self::CommonStock => StandardAccounts::CommonStock,
            Self::Revenue => StandardAccounts::Revenue,
            Self::Expense => StandardAccounts::Expense,
            Self::FeesEarned => StandardAccounts::FeesEarned,
        }
    }

    /// The definition that this entry stands for.
    pub fn definition(&self) -> (definition: AccountDefinition)
        ensures
            definition is Standard,
            definition@ == self.full().entry_view(),
    {
        self.entry().definition()
    }
}

/// How many standard definitions there are.
pub const STANDARD_COUNT: usize = 14;

impl StandardAccounts {
    /// The serial of an entry. The serials run from 1 without a gap.
    pub open spec fn serial(self) -> u32 {
        match self {
            StandardAccounts::Cash => 1,
            StandardAccounts::RealEstate => 2,
            StandardAccounts::Supplies => 3,
            StandardAccounts::AccountsPayable => 4,
            StandardAccounts::CommonStock => 5,
            StandardAccounts::Dividends => 6,
            StandardAccounts::Revenue => 7,
            StandardAccounts::Expense => 8,
            StandardAccounts::Wages => 9,
            StandardAccounts::Rent => 10,
            StandardAccounts::Utilities => 11,
            StandardAccounts::SuppliesExpenses => 12,
            StandardAccounts::MiscExpenses => 13,
            StandardAccounts::FeesEarned => 14,
        }
    }

    /// The entry with a given serial; `Cash` stands in for a serial that has none.
    pub open spec fn with_serial(serial: int) -> StandardAccounts {
        if serial == 2 {
            StandardAccounts::RealEstate
        } else if serial == 3 {
            StandardAccounts::Supplies
        } else if serial == 4 {
            StandardAccounts::AccountsPayable
        } else if serial == 5 {
            StandardAccounts::CommonStock
        } else if serial == 6 {
            StandardAccounts::Dividends
        } else if serial == 7 {
            StandardAccounts::Revenue
        } else if serial == 8 {
            StandardAccounts::Expense
        } else if serial == 9 {
            StandardAccounts::Wages
        } else if serial == 10 {
            StandardAccounts::Rent
        } else if serial == 11 {
            StandardAccounts::Utilities
        } else if serial == 12 {
            StandardAccounts::SuppliesExpenses
        } else if serial == 13 {
            StandardAccounts::MiscExpenses
        } else if serial == 14 {
            StandardAccounts::FeesEarned
        } else {
            StandardAccounts::Cash
        }
    }

    /// The name of an entry.
    pub open spec fn title(self) -> Seq<char> {
        match self {
            StandardAccounts::Cash => "Cash"@,
            StandardAccounts::RealEstate => "Real Estate"@,
            StandardAccounts::Supplies => "Supplies"@,
            StandardAccounts::AccountsPayable => "Accounts Payable"@,
            StandardAccounts::CommonStock => "Common Stock"@,
            StandardAccounts::Dividends => "Dividends"@,
            StandardAccounts::Revenue => "Revenue"@,
            StandardAccounts::Expense => "Expense"@,
            StandardAccounts::Wages => "Wages"@,
            StandardAccounts::Rent => "Rent"@,
            StandardAccounts::Utilities => "Utilities"@,
            StandardAccounts::SuppliesExpenses => "Miscellaneous Expenses"@,
            StandardAccounts::MiscExpenses => "Supplies Expenses"@,
            StandardAccounts::FeesEarned => "Fees Earned"@,
        }
    }

    /// The entry under which an entry stands; none for a root.
    pub open spec fn parent_entry(self) -> Option<StandardAccounts> {
        match self {
            StandardAccounts::Wages => Some(StandardAccounts::Expense),
            StandardAccounts::Rent => Some(StandardAccounts::Expense),
            StandardAccounts::Utilities => Some(StandardAccounts::Expense),
            StandardAccounts::SuppliesExpenses => Some(StandardAccounts::Expense),
            StandardAccounts::MiscExpenses => Some(StandardAccounts::Expense),
            StandardAccounts::FeesEarned => Some(StandardAccounts::Revenue),
            _ => None,
        }
    }

    /// The equation variable of an entry. An entry under another has its parent's.
    pub open spec fn variable(self) -> Equation {
        match self {
            StandardAccounts::Cash => Equation::Assets,
            StandardAccounts::RealEstate => Equation::Assets,
            StandardAccounts::Supplies => Equation::Assets,
            StandardAccounts::AccountsPayable => Equation::Liabilities,
            _ => Equation::Equity,
        }
    }

    /// The definition that an entry stands for.
    pub open spec fn entry_view(self) -> DefinitionView {
        DefinitionView {
            id: standard_id(self.serial()),
            name: self.title(),
            equation_variable: self.variable(),
            parent_id: match self.parent_entry() {
                Some(parent) => Some(standard_id(parent.serial())),
                None => None,
            },
            standard: true,
        }
    }

    /// The whole catalogue, in the order of the serials.
    pub open spec fn catalogue() -> Seq<DefinitionView> {
        Seq::new(14, |i: int| Self::with_serial(i + 1).entry_view())
    }

    /// All entries, in the order of their serials.
    pub fn all() -> (entries: Vec<StandardAccounts>)
        ensures
            entries@.len() == 14,
            forall|i: int| 0 <= i < 14 ==> #[trigger] entries@[i] == Self::with_serial(i + 1),
    {
        vec![
            Self::Cash,
            Self::RealEstate,
            Self::Supplies,
            Self::AccountsPayable,
            Self::CommonStock,
            Self::Dividends,
            Self::Revenue,
            Self::Expense,
            Self::Wages,
            Self::Rent,
            Self::Utilities,
            Self::SuppliesExpenses,
            Self::MiscExpenses,
            Self::FeesEarned,
        ]
    }

    fn revenue() -> (definition: AccountDefinition)
        ensures
            definition is Standard,
            definition@ == StandardAccounts::Revenue.entry_view(),
    {
        StandardAccountDefinition::root(7, "Revenue", Equation::Equity)
    }

    fn expense() -> (definition: AccountDefinition)
        ensures
            definition is Standard,
            definition@ == StandardAccounts::Expense.entry_view(),
    {
        StandardAccountDefinition::root(8, "Expense", Equation::Equity)
    }

    /// The definition that this entry stands for.
    pub fn definition(&self) -> (definition: AccountDefinition)
        ensures
            definition is Standard,
            definition@ == self.entry_view(),
    {
        match self {
            // Assets
            Self::Cash => StandardAccountDefinition::root(1, "Cash", Equation::Assets),
            Self::RealEstate => StandardAccountDefinition::root(2, "Real Estate", Equation::Assets),
            Self::Supplies => StandardAccountDefinition::root(3, "Supplies", Equation::Assets),
            // Liabilities
            Self::AccountsPayable => StandardAccountDefinition::root(
                4,
                "Accounts Payable",
                Equation::Liabilities,
            ),
            // Equity
            Self::CommonStock => StandardAccountDefinition::root(5, "Common Stock", Equation::Equity),
            Self::Dividends => StandardAccountDefinition::root(6, "Dividends", Equation::Equity),
            Self::Revenue => Self::revenue(),
            Self::Expense => Self::expense(),
            // Equity, under Expense
            Self::Wages => StandardAccountDefinition::sub(9, "Wages", &Self::expense()),
            Self::Rent => StandardAccountDefinition::sub(10, "Rent", &Self::expense()),
            Self::Utilities => StandardAccountDefinition::sub(
                11,
                "Utilities",
                &Self::expense(),
            ),
            Self::SuppliesExpenses => StandardAccountDefinition::sub(
                12,
                "Miscellaneous Expenses",
                &Self::expense(),
            ),
            Self::MiscExpenses => StandardAccountDefinition::sub(
                13,
                "Supplies Expenses",
                &Self::expense(),
            ),
            // Equity, under Revenue
            Self::FeesEarned => StandardAccountDefinition::sub(
                14,
                "Fees Earned",
                &Self::revenue(),
            ),
        }
    }
}

impl AccountDefinitionTrait for StandardAccounts {
    open spec fn definition_view(&self) -> DefinitionView {
        self.entry_view()
    }

    fn id(&self) -> (id: ID) {
        self.definition().id()
    }

    fn name(&self) -> (name: &str) {
        match self {
            Self::Cash => "Cash",
            Self::RealEstate => "Real Estate",
            Self::Supplies => "Supplies",
            Self::AccountsPayable => "Accounts Payable",
            Self::CommonStock => "Common Stock",
            Self::Dividends => "Dividends",
            Self::Revenue => "Revenue",
            Self::Expense => "Expense",
            Self::Wages => "Wages",
            Self::Rent => "Rent",
            Self::Utilities => "Utilities",
            Self::SuppliesExpenses => "Miscellaneous Expenses",
            Self::MiscExpenses => "Supplies Expenses",
            Self::FeesEarned => "Fees Earned",
        }
    }

    fn equation_variable(&self) -> (variable: Equation) {
        self.definition().equation_variable()
    }

    fn parent_id(&self) -> (parent_id: Option<ID>) {
        self.definition().parent_id()
    }

    fn parent<'index>(&self, index: &'index Index) -> (parent: Option<&'index AccountDefinition>) {
        match self.definition().parent_id() {
            Some(id) => index.definition(id),
            None => None,
        }
    }

    fn is_standard(&self) -> (standard: bool) {
        true
    }
}

/// The catalogue lists each entry at the place of its serial, the serials are 1 to
/// 14, and an entry under another has its parent's equation variable.
pub proof fn lemma_catalogue_entries()
    ensures
        StandardAccounts::catalogue().len() == 14,
        forall|entry: StandardAccounts|
            1 <= #[trigger] entry.serial() <= 14 && StandardAccounts::with_serial(
                entry.serial() as int,
            ) == entry && StandardAccounts::catalogue()[entry.serial() - 1] == entry.entry_view(),
        forall|entry: StandardAccounts|
            (#[trigger] entry.parent_entry()) matches Some(parent) ==> parent.variable()
                == entry.variable() && parent.parent_entry().is_none(),
{
}

} // verus!
