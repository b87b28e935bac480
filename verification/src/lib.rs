//! A double-entry ledger engine: a hierarchical chart of accounts whose postings
//! keep the accounting equation (assets = liabilities + equity).
//!
//! The ledger stands at the root of the crate. Beside it stand two small models
//! of a game world: [`model`], a world of areas and things made by builders, and
//! [`zone`], a registry of entities and of the relations between them.
//!
//! Amounts are whole numbers of a currency's smallest unit, hundredths, so that
//! every sum is exact.

pub mod account;
pub mod currency;
pub mod definition;
pub mod equation;
pub mod error;
pub mod id;
pub mod index;
pub mod model;
pub mod search;
pub mod statement;
pub mod text;
pub mod zone;

pub use account::{Account, AccountView};
pub use currency::{
    CommonCurrencies, CommonCurrency, Currency, CurrencyTrait, CurrencyView, CustomCurrency,
};
pub use definition::standard::{StandardAccount, StandardAccounts};
pub use definition::{
    AccountDefinition, AccountDefinitionTrait, CustomAccountDefinition, DefinitionView,
    StandardAccountDefinition, ACCT_SYSTEM_ID,
};
pub use equation::{Equation, EquationSide, ValueChange};
pub use error::Error;
pub use id::{
    AccountClassIdentity, AsmovClassID, ClassID, ClassIdentity, DomainID, RegisteredSystemID,
    SegmentID, SerialID, SystemID, ID, UID,
};
pub use index::view::IndexView;
pub use index::Index;
pub use statement::equation_balance::{EquationBalance, EquationBalanceView};
