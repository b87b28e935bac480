use acct201::statement::format::{
    amount_from_parts, centered, format_amount, repeated, row_end, row_more, row_start,
};
use acct201::{
    AccountDefinitionTrait, CommonCurrencies, EquationBalance, Error, Index, StandardAccounts,
};

#[test]
fn amounts_are_separated_by_thousands() {
    assert_eq!("0.00", format_amount(0));
    assert_eq!("0.05", format_amount(5));
    assert_eq!("-0.05", format_amount(-5));
    assert_eq!("1.00", format_amount(100));
    assert_eq!("999.99", format_amount(99_999));
    assert_eq!("1,000.00", format_amount(100_000));
    assert_eq!("-1,000.10", format_amount(-100_010));
    assert_eq!("1,234,567.89", format_amount(123_456_789));
    assert_eq!("25,000.00", format_amount(2_500_000));
    assert_eq!("92,233,720,368,547,758.07", format_amount(i64::MAX as i128));
    assert_eq!("-92,233,720,368,547,758.08", format_amount(i64::MIN as i128));
    assert_eq!(
        "-1,701,411,834,604,692,317,316,873,037,158,841,057.28",
        format_amount(i128::MIN)
    );
    assert_eq!(
        "1,701,411,834,604,692,317,316,873,037,158,841,057.27",
        format_amount(i128::MAX)
    );
}

#[test]
fn amounts_are_put_together_from_their_parts() {
    assert_eq!("12.07", amount_from_parts(false, "12", 7));
    assert_eq!("-1,200.70", amount_from_parts(true, "1,200", 70));
    assert_eq!(".00", amount_from_parts(false, "", 0));
    assert_eq!("-x.99", amount_from_parts(true, "x", 99));
}

#[test]
fn texts_are_centred_as_the_formatter_centres_them() {
    for text in ["", "a", "ab", "abc", "assets", "liabilities", "a longer text than the width"] {
        for width in [0usize, 1, 2, 3, 12, 13, 28, 45] {
            assert_eq!(format!("{:^1$}", text, width), centered(text, width, " "));
            assert_eq!(format!("{:-^1$}", text, width), centered(text, width, "-"));
            assert_eq!(format!("{:=^1$}", text, width), centered(text, width, "="));
        }
    }
    assert_eq!(" é ", centered("é", 3, " "));
    assert_eq!("", repeated("ab", 0));
    assert_eq!("ababab", repeated("ab", 3));
    assert_eq!("ab  ", centered("ab", 4, "").to_string() + "  ");
}

#[test]
fn rows_are_put_together_from_cells() {
    assert_eq!("| a ", row_start("| ", "a", 2, " "));
    assert_eq!("| a | -b-", row_more(String::from("| a "), "| ", "b", 3, "-"));
    assert_eq!("| a |", row_end(String::from("| a "), "|"));
}

fn expected_table(title: &str, amounts: [&str; 5]) -> Vec<String> {
    vec![
        String::new(),
        format!("+{:=^45}+", title),
        format!("| {:^12} = {:^13} + {:^12} |", "assets", "liabilities", "equity"),
        format!("|-{:-^12}-|-{:-^13}-|-{:-^12}-|", '-', '-', '-'),
        format!("| {:^12} | {:^13} | {:^12} |", amounts[0], amounts[1], amounts[2]),
        format!("|{:-^45}|", '-'),
        format!("| {:^12} | {:^28} |", amounts[3], amounts[4]),
        format!("+{:=^45}+", '='),
        String::new(),
    ]
}

#[test]
fn the_table_shows_the_three_totals_and_the_two_sides() {
    let balance = EquationBalance::new(2_500_000, 135_000, 2_365_000);
    assert_eq!(
        expected_table("", ["25,000.00", "1,350.00", "23,650.00", "25,000.00", "25,000.00"]),
        balance.table()
    );
    assert_eq!(
        expected_table(
            "[ Transaction C ]",
            ["25,000.00", "1,350.00", "23,650.00", "25,000.00", "25,000.00"]
        ),
        balance.table_entitled("Transaction C")
    );
    let table = balance.table_entitled("Transaction C");
    assert_eq!("+==============[ Transaction C ]==============+", table[1]);
    assert_eq!("|    assets    =  liabilities  +    equity    |", table[2]);
    assert_eq!("|--------------|---------------|--------------|", table[3]);
    assert_eq!("|  25,000.00   |   1,350.00    |  23,650.00   |", table[4]);
    assert_eq!("|---------------------------------------------|", table[5]);
    assert_eq!("|  25,000.00   |          25,000.00           |", table[6]);
    assert_eq!("+=============================================+", table[7]);

    let uneven = EquationBalance::new(-5, 0, 100);
    assert_eq!(
        expected_table("", ["-0.05", "0.00", "1.00", "-0.05", "1.00"]),
        uneven.table()
    );
    assert!(!uneven.is_balanced());
}

#[test]
fn the_listing_names_every_account() -> Result<(), Error> {
    let mut index = Index::standard(CommonCurrencies::USD);
    index.create_custom_account(String::from("Office Supplies"), &StandardAccounts::Supplies)?;
    index.debit(StandardAccounts::Cash, 2_500_000)?;
    index.credit(StandardAccounts::CommonStock, 2_500_000)?;
    index.debit(StandardAccounts::Wages, 212_500)?;
    let expected = vec![
        "[ASSETS]",
        "Cash = $25,000.00",
        "Real Estate = $0.00",
        "Supplies = $0.00",
        "Office Supplies = $0.00",
        "",
        "[EQUITY]",
        "Common Stock = $25,000.00",
        "Dividends = $0.00",
        "Revenue = $0.00",
        "Expense = $0.00",
        "Wages = $-2,125.00",
        "Rent = $0.00",
        "Utilities = $0.00",
        "Miscellaneous Expenses = $0.00",
        "Supplies Expenses = $0.00",
        "Fees Earned = $0.00",
        "",
        "[LIABILITIES]",
        "Accounts Payable = $0.00",
        "",
    ];
    assert_eq!(expected, index.account_lines());
    Ok(())
}

#[test]
fn children_and_descendants_follow_the_parents() -> Result<(), Error> {
    let mut index = Index::standard(CommonCurrencies::USD);
    index.create_custom_account(String::from("Office Supplies"), &StandardAccounts::Supplies)?;
    let office = acct201::CustomAccountDefinition::new(
        index.find_definition("Office Supplies").unwrap().id(),
        String::from("Office Supplies"),
        acct201::Equation::Assets,
        StandardAccounts::Supplies.id(),
    );
    index.create_custom_account(String::from("Paper"), &office)?;
    index.create_custom_account(String::from("Ink"), &office)?;
    index.create_custom_account(String::from("Cleaning Supplies"), &StandardAccounts::Supplies)?;
    index.create_custom_account(String::from("Overtime"), &StandardAccounts::Wages)?;

    let names = |accounts: Vec<&acct201::Account>| -> Vec<String> {
        accounts.iter().map(|account| account.definition(&index).name().to_string()).collect()
    };

    let supplies = index.account(StandardAccounts::Supplies)?;
    assert_eq!(
        vec!["Office Supplies", "Cleaning Supplies"],
        names(index.account_children(supplies))
    );
    assert_eq!(
        vec!["Office Supplies", "Cleaning Supplies", "Paper", "Ink"],
        names(index.account_descendants(supplies))
    );
    let office_account = index.account_for("Office Supplies")?;
    assert_eq!(vec!["Paper", "Ink"], names(index.account_children(office_account)));
    assert_eq!(vec!["Paper", "Ink"], names(index.account_descendants(office_account)));
    let paper = index.account_for("Paper")?;
    assert!(index.account_children(paper).is_empty());
    assert!(index.account_descendants(paper).is_empty());

    let expense = index.account(StandardAccounts::Expense)?;
    assert_eq!(
        vec!["Wages", "Rent", "Utilities", "Miscellaneous Expenses", "Supplies Expenses"],
        names(index.account_children(expense))
    );
    assert_eq!(
        vec![
            "Wages",
            "Rent",
            "Utilities",
            "Miscellaneous Expenses",
            "Supplies Expenses",
            "Overtime"
        ],
        names(index.account_descendants(expense))
    );
    let cash = index.account(StandardAccounts::Cash)?;
    assert!(index.account_descendants(cash).is_empty());
    let revenue = index.account(StandardAccounts::Revenue)?;
    assert_eq!(vec!["Fees Earned"], names(index.account_descendants(revenue)));
    Ok(())
}

#[test]
fn numbers_are_written_in_decimal() {
    for value in [0u128, 1, 9, 10, 11, 99, 100, 101, 1_000, 12_345, u64::MAX as u128, u128::MAX] {
        assert_eq!(value.to_string(), acct201::text::decimal(value));
    }
    assert_eq!("340282366920938463463374607431768211455", acct201::text::decimal(u128::MAX));
    assert_eq!("7", acct201::text::digit(7));
    assert!(acct201::text::same_text("Cash", "Cash"));
    assert!(!acct201::text::same_text("Cash", "Cast"));
    assert!(!acct201::text::same_text("Cash", "Cash "));
    assert!(acct201::text::same_text("", ""));
    assert!(acct201::text::same_text("é¤", "é¤"));
}

#[test]
fn a_posting_to_a_missing_account_names_the_key() {
    let mut index = Index::standard(CommonCurrencies::USD);
    let stray = acct201::CustomAccountDefinition::new_root(
        acct201::ID::v1(1, 2, 0, 0, 40),
        acct201::Equation::Assets,
        String::from("Stray"),
    );
    let key = ((2u128 << 112) | (1u128 << 80) | 40).to_string();
    match index.debit(&stray, 100) {
        Err(Error::AccountNotFound(text)) => assert_eq!(key, text),
        other => panic!("unexpected: {:?}", other),
    }
    match index.credit(&stray, 100) {
        Err(Error::AccountNotFound(text)) => assert_eq!(key, text),
        other => panic!("unexpected: {:?}", other),
    }
    // a definition that claims another variable than the chart knows has no account there
    let misfiled = acct201::CustomAccountDefinition::new_root(
        StandardAccounts::Cash.id(),
        acct201::Equation::Equity,
        String::from("Cash"),
    );
    assert!(matches!(index.debit(&misfiled, 100), Err(Error::AccountNotFound(_))));
    assert_eq!(0, index.account(StandardAccounts::Cash).unwrap().balance());
}
