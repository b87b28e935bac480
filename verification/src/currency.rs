//! Currency descriptors.

use vstd::prelude::*;

verus! {

/// What a currency is called: its ticker, its symbol and its name.
pub struct CurrencyView {
    pub ticker: Seq<char>,
    pub symbol: Seq<char>,
    pub name: Seq<char>,
}

/// Read access to a currency descriptor.
pub trait CurrencyTrait {
    /// The descriptor as a mathematical value.
    spec fn descriptor(&self) -> CurrencyView;

    /// The code under which the currency trades, such as `USD`.
    fn ticker(&self) -> (text: &str)
        ensures
            text@ == self.descriptor().ticker,
    ;

    /// The sign written before an amount, such as `$`.
    fn symbol(&self) -> (text: &str)
        ensures
            text@ == self.descriptor().symbol,
    ;

    /// The currency's full name.
    fn name(&self) -> (text: &str)
        ensures
            text@ == self.descriptor().name,
    ;
}

/// A currency fixed in the library's code.
#[derive(Debug, Clone, Copy)]
pub struct CommonCurrency {
    ticker: &'static str,
    symbol: &'static str,
    name: &'static str,
}

/// A currency described at run time.
#[derive(Debug)]
pub struct CustomCurrency {
    ticker: String,
    symbol: String,
    name: String,
}

/// The currency of a chart of accounts.
#[derive(Debug)]
pub enum Currency {
    Common(CommonCurrency),
    Custom(CustomCurrency),
}

/// The currencies that the library knows by name.
#[derive(Debug, Clone, Copy, PartialEq, Eq, Structural)]
pub enum CommonCurrencies {
    USD,
}

impl View for CommonCurrency {
    type V = CurrencyView;

    closed spec fn view(&self) -> CurrencyView {
        CurrencyView { ticker: self.ticker@, symbol: self.symbol@, name: self.name@ }
    }
}

impl View for CustomCurrency {
    type V = CurrencyView;

    closed spec fn view(&self) -> CurrencyView {
        CurrencyView { ticker: self.ticker@, symbol: self.symbol@, name: self.name@ }
    }
}

impl View for Currency {
    type V = CurrencyView;

    open spec fn view(&self) -> CurrencyView {
        match self {
            Currency::Common(currency) => currency@,
            Currency::Custom(currency) => currency@,
        }
    }
}

impl CommonCurrency {
    /// A descriptor from its three texts.
    pub fn new(ticker: &'static str, symbol: &'static str, name: &'static str) -> (currency: Self)
        ensures
            currency@ == (CurrencyView { ticker: ticker@, symbol: symbol@, name: name@ }),
    {
        Self { ticker, symbol, name }
    }

    /// This descriptor as the currency of a chart.
    pub fn currency(&self) -> (currency: Currency)
        ensures
            currency == Currency::Common(*self),
            currency@ == self@,
    {
        Currency::Common(*self)
    }
}

impl CustomCurrency {
    /// A descriptor from its three texts.
    pub fn new(ticker: String, symbol: String, name: String) -> (currency: Self)
        ensures
            currency@ == (CurrencyView { ticker: ticker@, symbol: symbol@, name: name@ }),
    {
        Self { ticker, symbol, name }
    }
}

impl CommonCurrencies {
    /// The descriptor of a known currency.
    pub open spec fn descriptor(self) -> CurrencyView {
        match self {
            CommonCurrencies::USD => CurrencyView {
                ticker: "USD"@,
                symbol: "$"@,
                name: "US Dollar"@,
            },
        }
    }

    /// The known currency as the currency of a chart.
    pub fn currency(&self) -> (currency: Currency)
        ensures
            currency is Common,
            currency@ == self.descriptor(),
    {
        match self {
            Self::USD => Currency::Common(CommonCurrency::new("USD", "$", "US Dollar")),
        }
    }
}

impl CurrencyTrait for CommonCurrency {
    open spec fn descriptor(&self) -> CurrencyView {
        self@
    }

    fn ticker(&self) -> (text: &str) {
        self.ticker
    }

    fn symbol(&self) -> (text: &str) {
        self.symbol
    }

    fn name(&self) -> (text: &str) {
        self.name
    }
}

impl CurrencyTrait for CustomCurrency {
    open spec fn descriptor(&self) -> CurrencyView {
        self@
    }

    fn ticker(&self) -> (text: &str) {
        self.ticker.as_str()
    }

    fn symbol(&self) -> (text: &str) {
        self.symbol.as_str()
    }

    fn name(&self) -> (text: &str) {
        self.name.as_str()
    }
}

impl CurrencyTrait for Currency {
    open spec fn descriptor(&self) -> CurrencyView {
        self@
    }

    fn ticker(&self) -> (text: &str) {
        match self {
            Self::Common(currency) => currency.ticker(),
            Self::Custom(currency) => currency.ticker(),
        }
    }

    fn symbol(&self) -> (text: &str) {
        match self {
            Self::Common(currency) => currency.symbol(),
            Self::Custom(currency) => currency.symbol(),
        }
    }

    fn name(&self) -> (text: &str) {
        match self {
            Self::Common(currency) => currency.name(),
            Self::Custom(currency) => currency.name(),
        }
    }
}

} // verus!
