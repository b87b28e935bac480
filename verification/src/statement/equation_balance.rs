//! The balance of the accounting equation at one moment.

use crate::statement::format::{
    amount_text, centered_text, format_amount, row_end, row_more, row_more_text, row_start,
};
use vstd::prelude::*;
use vstd::string::StringExecFns;

verus! {

/// The three totals of the accounting equation, as mathematical values.
pub struct EquationBalanceView {
    pub assets: int,
    pub liabilities: int,
    pub equity: int,
}

impl EquationBalanceView {
    /// The debit side of the equation: the assets.
    pub open spec fn debit_side(self) -> int {
        self.assets
    }

    /// The credit side of the equation: liabilities and equity together.
    pub open spec fn credit_side(self) -> int {
        self.liabilities + self.equity
    }

    /// Whether the equation holds: assets = liabilities + equity.
    pub open spec fn balanced(self) -> bool {
        self.debit_side() == self.credit_side()
    }
}

/// The title line's text: the title between square brackets, or nothing where
/// there is no title.
pub open spec fn title_text(title: Option<Seq<char>>) -> Seq<char> {
    match title {
        Some(title) => "[ "@ + title + " ]"@,
        None => Seq::empty(),
    }
}

/// The lines of the table that shows a balance: an empty line, a rule with the
/// title, the three headings, a rule, the three totals, a rule, the two sides
/// under them, a closing rule and an empty line. The table is 47 characters
/// wide as long as every amount fits its column.
pub open spec fn table_lines(balance: EquationBalanceView, title: Option<Seq<char>>) -> Seq<Seq<char>> {
    seq![
        Seq::empty(),
        "+"@ + centered_text(title_text(title), 45, "="@) + "+"@,
        row_more_text(
            row_more_text(
                "| "@ + centered_text("assets"@, 12, " "@),
                " = "@,
                ("liabilities"@, 13),
                " "@,
            ),
            " + "@,
            ("equity"@, 12),
            " "@,
        ) + " |"@,
        row_more_text(
            row_more_text("|-"@ + centered_text("-"@, 12, "-"@), "-|-"@, ("-"@, 13), "-"@),
            "-|-"@,
            ("-"@, 12),
            "-"@,
        ) + "-|"@,
        row_more_text(
            row_more_text(
                "| "@ + centered_text(amount_text(balance.assets), 12, " "@),
                " | "@,
                (amount_text(balance.liabilities), 13),
                " "@,
            ),
            " | "@,
            (amount_text(balance.equity), 12),
            " "@,
        ) + " |"@,
        "|"@ + centered_text("-"@, 45, "-"@) + "|"@,
        row_more_text(
            "| "@ + centered_text(amount_text(balance.debit_side()), 12, " "@),
            " | "@,
            (amount_text(balance.credit_side()), 28),
            " "@,
        ) + " |"@,
        "+"@ + centered_text("="@, 45, "="@) + "+"@,
        Seq::empty(),
    ]
}

/// The characters of each line of a run.
pub open spec fn line_texts(lines: Seq<String>) -> Seq<Seq<char>> {
    lines.map_values(|line: String| line@)
}

/// A snapshot of the accounting equation. It is computed on demand and never
/// stored with the chart.
#[derive(Debug)]
pub struct EquationBalance {
    assets: i128,
    liabilities: i128,
    equity: i128,
    debit_side: i128,
    credit_side: i128,
}

impl View for EquationBalance {
    type V = EquationBalanceView;

    closed spec fn view(&self) -> EquationBalanceView {
        EquationBalanceView {
            assets: self.assets as int,
            liabilities: self.liabilities as int,
            equity: self.equity as int,
        }
    }
}

impl EquationBalance {
    /// The two sides are the sides of the three totals.
    #[verifier::type_invariant]
    closed spec fn sides_agree(&self) -> bool {
        &&& self.debit_side == self.assets
        &&& self.credit_side == self.liabilities + self.equity
    }

    /// A snapshot from the three totals.
    pub fn new(assets: i128, liabilities: i128, equity: i128) -> (balance: Self)
        requires
            i128::MIN <= liabilities + equity <= i128::MAX,
        ensures
            balance@ == (EquationBalanceView {
                assets: assets as int,
                liabilities: liabilities as int,
                equity: equity as int,
            }),
    {
        Self { assets, liabilities, equity, debit_side: assets, credit_side: liabilities + equity }
    }

    /// The total of the asset accounts.
    pub fn assets(&self) -> (total: i128)
        ensures
            total == self@.assets,
    {
        self.assets
    }

    /// The total of the liability accounts.
    pub fn liabilities(&self) -> (total: i128)
        ensures
            total == self@.liabilities,
    {
        self.liabilities
    }

    /// The total of the equity accounts.
    pub fn equity(&self) -> (total: i128)
        ensures
            total == self@.equity,
    {
        self.equity
    }

    /// The debit side: the assets.
    pub fn debit_side(&self) -> (total: i128)
        ensures
            total == self@.debit_side(),
    {
        proof {
            use_type_invariant(self);
        }
        self.debit_side
    }

    /// The credit side: liabilities and equity together.
    pub fn credit_side(&self) -> (total: i128)
        ensures
            total == self@.credit_side(),
    {
        proof {
            use_type_invariant(self);
        }
        self.credit_side
    }

    /// Whether the two sides are equal.
    pub fn is_balanced(&self) -> (balanced: bool)
        ensures
            balanced == self@.balanced(),
    {
        proof {
            use_type_invariant(self);
        }
        self.debit_side == self.credit_side
    }

    /// The lines of the table that shows this balance, without a title.
    pub fn table(&self) -> (lines: Vec<String>)
        ensures
            line_texts(lines@) == table_lines(self@, None),
    {
        self.table_ext(None)
    }

    /// The lines of the table that shows this balance, under a title.
    pub fn table_entitled(&self, title: &str) -> (lines: Vec<String>)
        ensures
            line_texts(lines@) == table_lines(self@, Some(title@)),
    {
        self.table_ext(Some(title))
    }

    fn table_ext(&self, title: Option<&str>) -> (lines: Vec<String>)
        ensures
            line_texts(lines@) == table_lines(
                self@,
                match title {
                    Some(title) => Some(title@),
                    None => None,
                },
            ),
    {
        proof {
            use_type_invariant(self);
        }
        let assets = format_amount(self.assets);
        let liabilities = format_amount(self.liabilities);
        let equity = format_amount(self.equity);
        let credit_side = format_amount(self.credit_side);
        let debit_side = format_amount(self.debit_side);
        let heading = match title {
            Some(title) => String::from_str("[ ").concat(title).concat(" ]"),
            None => String::new(),
        };
        let mut lines: Vec<String> = Vec::new();
        lines.push(String::new());
        lines.push(row_end(row_start("+", heading.as_str(), 45, "="), "+"));
        lines.push(
            row_end(
                row_more(
                    row_more(row_start("| ", "assets", 12, " "), " = ", "liabilities", 13, " "),
                    " + ",
                    "equity",
                    12,
                    " ",
                ),
                " |",
            ),
        );
        lines.push(
            row_end(
                row_more(row_more(row_start("|-", "-", 12, "-"), "-|-", "-", 13, "-"), "-|-", "-", 12, "-"),
                "-|",
            ),
        );
        lines.push(
            row_end(
                row_more(
                    row_more(
                        row_start("| ", assets.as_str(), 12, " "),
                        " | ",
                        liabilities.as_str(),
                        13,
                        " ",
                    ),
                    " | ",
                    equity.as_str(),
                    12,
                    " ",
                ),
                " |",
            ),
        );
        lines.push(row_end(row_start("|", "-", 45, "-"), "|"));
        lines.push(
            row_end(
                row_more(
                    row_start("| ", debit_side.as_str(), 12, " "),
                    " | ",
                    credit_side.as_str(),
                    28,
                    " ",
                ),
                " |",
            ),
        );
        lines.push(row_end(row_start("+", "=", 45, "="), "+"));
        lines.push(String::new());
        proof {
            assert(line_texts(lines@) =~= table_lines(
                self@,
                match title {
                    Some(title) => Some(title@),
                    None => None,
                },
            ));
        }
        lines
    }
}

} // verus!
