//! The accounting equation and the side of it on which a category stands.

use vstd::prelude::*;

verus! {

/// The two kinds of posting.
#[derive(Debug, Clone, Copy, PartialEq, Eq, Structural)]
pub enum ValueChange {
    Debit,
    Credit,
}

/// The side of the accounting equation on which a balance grows.
#[derive(Debug, Clone, Copy, PartialEq, Eq, Structural)]
pub enum EquationSide {
    DebitSide,
    CreditSide,
}

/// The three variables of the accounting equation.
#[derive(Debug, Clone, Copy, PartialEq, Eq, Structural)]
pub enum Equation {
    Assets,
    Liabilities,
    Equity,
}

impl Equation {
    /// The side a variable stands on: assets on the debit side, liabilities and
    /// equity on the credit side.
    pub open spec fn side(self) -> EquationSide {
        match self {
            Equation::Assets => EquationSide::DebitSide,
            Equation::Liabilities => EquationSide::CreditSide,
            Equation::Equity => EquationSide::CreditSide,
        }
    }

    /// The side of the equation that this variable stands on. Every posting rule
    /// goes through this one table.
    pub fn equation_side(&self) -> (side: EquationSide)
        ensures
            side == self.side(),
    {
        match self {
            Self::Assets => EquationSide::DebitSide,
            Self::Equity => EquationSide::CreditSide,
            Self::Liabilities => EquationSide::CreditSide,
        }
    }
}

} // verus!
