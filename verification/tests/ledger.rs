use acct201::{
    Account, AccountDefinitionTrait, AsmovClassID, ClassIdentity, CommonCurrencies, CurrencyTrait,
    Equation, EquationSide, Error, Index, RegisteredSystemID, StandardAccount, StandardAccounts,
    ID,
};

fn cents(amount: f64) -> i64 {
    (amount * 100.0).round() as i64
}

#[test]
fn test_custom_account() -> Result<(), Error> {
    let mut index = Index::standard(CommonCurrencies::USD);
    index.create_custom_account(String::from("Office Supplies"), &StandardAccounts::Supplies)?;

    assert_eq!(
        index.find_definition("Office Supplies").unwrap().parent(&index).unwrap().id(),
        StandardAccounts::Supplies.id()
    );

    index.debit(StandardAccounts::Cash, cents(100.00))?;
    index.credit(StandardAccounts::CommonStock, cents(100.00))?;

    index.credit(StandardAccounts::Cash, cents(10.00))?;
    index.debit_for("Office Supplies", cents(10.00))?;

    assert_eq!(cents(10.00), index.account_for("Office Supplies")?.balance());
    assert_eq!(cents(90.00), index.account(StandardAccounts::Cash)?.balance());
    assert_eq!(cents(100.00), index.account(StandardAccounts::CommonStock)?.balance());

    Ok(())
}

fn print_table_entitled(accounts: &Index, title: &str) {
    for line in accounts.equation_balance().table_entitled(title) {
        println!("{}", line);
    }
}

#[test]
fn ch1() -> Result<(), Error> {
    let mut accounts = Index::standard(CommonCurrencies::USD);
    accounts.debit(StandardAccounts::Cash, cents(25_000.00))?;
    accounts.credit(StandardAccounts::CommonStock, cents(25_000.00))?;
    print_table_entitled(&accounts, "Transaction A");
    let balance = accounts.equation_balance();
    assert_eq!(2_500_000, balance.assets());
    assert_eq!(0, balance.liabilities());
    assert_eq!(2_500_000, balance.equity());
    assert_eq!(2_500_000, balance.debit_side());
    assert_eq!(2_500_000, balance.credit_side());

    accounts.debit(StandardAccounts::RealEstate, cents(20_000.00))?;
    accounts.credit(StandardAccounts::Cash, cents(20_000.00))?;
    print_table_entitled(&accounts, "Transaction B");
    assert!(accounts.equation_balance().is_balanced());

    accounts.debit(StandardAccounts::Supplies, cents(1_350.00))?;
    accounts.credit(StandardAccounts::AccountsPayable, cents(1_350.00))?;
    print_table_entitled(&accounts, "Transaction C");
    assert!(accounts.equation_balance().is_balanced());
    assert_eq!(135_000, accounts.equation_balance().liabilities());

    accounts.debit(StandardAccounts::Cash, cents(7_500.00))?;
    accounts.credit(StandardAccounts::FeesEarned, cents(7_500.00))?;
    print_table_entitled(&accounts, "Transaction D");

    accounts.debit(StandardAccounts::Wages, cents(2_125.00))?;
    accounts.credit(StandardAccounts::Cash, cents(2_125.00))?;
    accounts.debit(StandardAccounts::Rent, cents(800.00))?;
    accounts.credit(StandardAccounts::Cash, cents(800.00))?;
    accounts.debit(StandardAccounts::Utilities, cents(450.00))?;
    accounts.credit(StandardAccounts::Cash, cents(450.00))?;
    accounts.debit(StandardAccounts::MiscExpenses, cents(275.00))?;
    accounts.credit(StandardAccounts::Cash, cents(275.00))?;
    print_table_entitled(&accounts, "Transaction E");

    accounts.credit(StandardAccounts::Cash, cents(950.00))?;
    accounts.debit(StandardAccounts::AccountsPayable, cents(950.00))?;
    print_table_entitled(&accounts, "Transaction F");

    let supplies_diff = cents(550.00) - accounts.account(StandardAccounts::Supplies)?.balance();
    accounts.debit(StandardAccounts::Supplies, supplies_diff)?;
    accounts.credit(StandardAccounts::SuppliesExpenses, supplies_diff)?;
    print_table_entitled(&accounts, "Transaction G");

    accounts.credit(StandardAccounts::Cash, cents(2_000.00))?;
    accounts.debit(StandardAccounts::Dividends, cents(2_000.00))?;
    print_table_entitled(&accounts, "Transaction H");

    for line in accounts.account_lines() {
        println!("{}", line);
    }

    assert_eq!(cents(5_900.00), accounts.account(StandardAccounts::Cash)?.balance());
    assert_eq!(cents(20_000.00), accounts.account(StandardAccounts::RealEstate)?.balance());
    assert_eq!(cents(550.00), accounts.account(StandardAccounts::Supplies)?.balance());
    assert_eq!(cents(400.00), accounts.account(StandardAccounts::AccountsPayable)?.balance());
    assert_eq!(cents(25_000.00), accounts.account(StandardAccounts::CommonStock)?.balance());
    assert_eq!(cents(7_500.00), accounts.account(StandardAccounts::FeesEarned)?.balance());
    assert_eq!(cents(-2_125.00), accounts.account(StandardAccounts::Wages)?.balance());
    assert_eq!(cents(-2_000.00), accounts.account(StandardAccounts::Dividends)?.balance());
    assert_eq!(cents(-800.00), accounts.account(StandardAccounts::SuppliesExpenses)?.balance());

    let balance = accounts.equation_balance();
    assert_eq!(2_645_000, balance.assets());
    assert_eq!(40_000, balance.liabilities());
    // accounts under a parent are left out of the totals
    assert_eq!(2_300_000, balance.equity());
    Ok(())
}

#[test]
fn opening_entry_balances_the_equation() -> Result<(), Error> {
    let mut index = Index::standard(CommonCurrencies::USD);
    assert_eq!(2_500_000, index.debit(StandardAccounts::Cash, cents(25000.00))?);
    assert_eq!(2_500_000, index.credit(StandardAccounts::CommonStock, cents(25000.00))?);
    let balance = index.equation_balance();
    assert_eq!(cents(25000.0) as i128, balance.assets());
    assert_eq!(0, balance.liabilities());
    assert_eq!(cents(25000.0) as i128, balance.equity());
    assert_eq!(balance.debit_side(), balance.credit_side());
    assert_eq!(2_500_000, balance.debit_side());
    assert!(balance.is_balanced());
    Ok(())
}

#[test]
fn new_chart_is_empty_and_balanced() {
    let index = Index::standard(CommonCurrencies::USD);
    assert!(index.has_standard_accounts());
    assert_eq!("USD", index.currency().ticker());
    assert_eq!("$", index.currency().symbol());
    assert_eq!("US Dollar", index.currency().name());
    let balance = index.equation_balance();
    assert_eq!((0, 0, 0), (balance.assets(), balance.liabilities(), balance.equity()));
    assert!(balance.is_balanced());
    for entry in StandardAccounts::all() {
        let account = index.account(entry).unwrap();
        assert_eq!(0, account.balance());
        assert_eq!(entry.id(), account.definition_id());
        assert_eq!(entry.id(), account.definition(&index).id());
    }
    assert_eq!(14, StandardAccounts::all().len());
}

#[test]
fn posting_direction_follows_the_equation_side() -> Result<(), Error> {
    let mut index = Index::standard(CommonCurrencies::USD);
    assert_eq!(EquationSide::DebitSide, Equation::Assets.equation_side());
    assert_eq!(EquationSide::CreditSide, Equation::Liabilities.equation_side());
    assert_eq!(EquationSide::CreditSide, Equation::Equity.equation_side());

    assert_eq!(500, index.debit(StandardAccounts::Cash, 500)?);
    assert_eq!(300, index.credit(StandardAccounts::Cash, 200)?);
    assert_eq!(-500, index.debit(StandardAccounts::AccountsPayable, 500)?);
    assert_eq!(-300, index.credit(StandardAccounts::AccountsPayable, 200)?);
    assert_eq!(-500, index.debit(StandardAccounts::CommonStock, 500)?);
    assert_eq!(-300, index.credit(StandardAccounts::CommonStock, 200)?);
    Ok(())
}

#[test]
fn paired_postings_to_roots_keep_the_equation() -> Result<(), Error> {
    let mut index = Index::standard(CommonCurrencies::USD);
    let pairs = [
        (StandardAccounts::Cash, StandardAccounts::CommonStock, 1_000),
        (StandardAccounts::RealEstate, StandardAccounts::Cash, 400),
        (StandardAccounts::Supplies, StandardAccounts::AccountsPayable, 250),
        (StandardAccounts::AccountsPayable, StandardAccounts::Cash, 100),
        (StandardAccounts::Dividends, StandardAccounts::Cash, 50),
        (StandardAccounts::Cash, StandardAccounts::Revenue, -75),
    ];
    for (debited, credited, amount) in pairs {
        index.debit(debited, amount)?;
        index.credit(credited, amount)?;
        let balance = index.equation_balance();
        assert_eq!(balance.debit_side(), balance.credit_side());
    }
    assert_eq!(1_025, index.equation_balance().assets());
    assert_eq!(150, index.equation_balance().liabilities());
    assert_eq!(875, index.equation_balance().equity());
    Ok(())
}

#[test]
fn posting_under_a_parent_moves_one_side_alone() -> Result<(), Error> {
    let mut index = Index::standard(CommonCurrencies::USD);
    index.debit(StandardAccounts::Cash, 1_000)?;
    index.credit(StandardAccounts::CommonStock, 1_000)?;
    index.debit(StandardAccounts::Wages, 300)?;
    index.credit(StandardAccounts::Cash, 300)?;
    let balance = index.equation_balance();
    assert_eq!(700, balance.debit_side());
    assert_eq!(1_000, balance.credit_side());
    assert!(!balance.is_balanced());
    Ok(())
}

#[test]
fn custom_definition_inherits_from_its_parent() -> Result<(), Error> {
    let mut index = Index::standard(CommonCurrencies::USD);
    index.create_custom_account(String::from("Petty Cash"), &StandardAccounts::Cash)?;
    index.create_custom_account(String::from("Bank Loan"), &StandardAccounts::AccountsPayable)?;
    index.create_custom_account(String::from("Bonus"), &StandardAccounts::Wages)?;

    let petty = index.find_definition("Petty Cash").unwrap();
    assert_eq!(Equation::Assets, petty.equation_variable());
    assert_eq!(Some(StandardAccounts::Cash.id()), petty.parent_id());
    assert!(!petty.is_standard());
    assert_eq!("Petty Cash", petty.name());
    assert_eq!(ID::v1(1, 2, 0, 0, 1), petty.id());

    let loan = index.find_definition("Bank Loan").unwrap();
    assert_eq!(Equation::Liabilities, loan.equation_variable());
    assert_eq!(ID::v1(1, 2, 0, 0, 2), loan.id());

    let bonus = index.find_definition("Bonus").unwrap();
    assert_eq!(Equation::Equity, bonus.equation_variable());
    assert_eq!("Wages", bonus.parent(&index).unwrap().name());
    Ok(())
}

#[test]
fn custom_definition_under_a_custom_parent() -> Result<(), Error> {
    let mut index = Index::standard(CommonCurrencies::USD);
    index.create_custom_account(String::from("Office Supplies"), &StandardAccounts::Supplies)?;
    let parent_id = index.find_definition("Office Supplies").unwrap().id();
    let parent = acct201::CustomAccountDefinition::new(
        parent_id,
        String::from("Office Supplies"),
        Equation::Assets,
        StandardAccounts::Supplies.id(),
    );
    index.create_custom_account(String::from("Paper"), &parent)?;
    let paper = index.find_definition("Paper").unwrap();
    assert_eq!(Some(parent_id), paper.parent_id());
    assert_eq!(Equation::Assets, paper.equation_variable());
    assert_eq!(2, paper.id().serial);
    assert_eq!(0, index.account_for("Paper")?.balance());
    Ok(())
}

#[test]
fn serials_are_never_given_twice() -> Result<(), Error> {
    let mut index = Index::standard(CommonCurrencies::USD);
    let mut serials = Vec::new();
    for name in ["a", "b", "c", "a", "d"] {
        index.create_custom_account(String::from(name), &StandardAccounts::Cash)?;
    }
    for serial in 1..=5u32 {
        let definition = index.definition(ID::v1(1, 2, 0, 0, serial)).unwrap();
        assert_eq!(serial, definition.id().serial);
        serials.push(definition.id().serial);
    }
    assert_eq!(vec![1, 2, 3, 4, 5], serials);
    assert!(index.definition(ID::v1(1, 2, 0, 0, 6)).is_none());
    // the first definition with a name is the one found
    assert_eq!(1, index.find_definition("a").unwrap().id().serial);
    Ok(())
}

#[test]
fn unknown_name_is_a_definition_not_found() {
    let mut index = Index::standard(CommonCurrencies::USD);
    assert!(index.find_definition("Nothing").is_none());
    assert!(index.find_definition_mut("Nothing").is_none());
    // standard definitions are not found by name
    assert!(index.find_definition("Cash").is_none());
    match index.account_for("Nothing") {
        Err(Error::DefinitionNotFound(name)) => assert_eq!("Nothing", name),
        other => panic!("unexpected: {:?}", other),
    }
    match index.debit_for("Nothing", 100) {
        Err(Error::DefinitionNotFound(name)) => assert_eq!("Nothing", name),
        other => panic!("unexpected: {:?}", other),
    }
    match index.credit_for("Nothing", 100) {
        Err(Error::DefinitionNotFound(name)) => assert_eq!("Nothing", name),
        other => panic!("unexpected: {:?}", other),
    }
    assert!(index.equation_balance().is_balanced());
    assert_eq!(0, index.equation_balance().assets());
}

#[test]
fn unknown_parent_is_a_definition_not_found() {
    let mut index = Index::standard(CommonCurrencies::USD);
    let stray = acct201::CustomAccountDefinition::new_root(
        ID::v1(1, 2, 0, 0, 40),
        Equation::Assets,
        String::from("Stray"),
    );
    match index.create_custom_account(String::from("Child"), &stray) {
        Err(Error::DefinitionNotFound(name)) => assert_eq!("Stray", name),
        other => panic!("unexpected: {:?}", other),
    }
    assert!(index.find_definition("Child").is_none());
    assert!(index.definition(ID::v1(1, 2, 0, 0, 1)).is_none());
    // the first serial was not spent
    index.create_custom_account(String::from("Child"), &StandardAccounts::Cash).unwrap();
    assert_eq!(1, index.find_definition("Child").unwrap().id().serial);
}

#[test]
fn unknown_account_is_an_account_not_found() {
    let mut index = Index::standard(CommonCurrencies::USD);
    let stray = acct201::CustomAccountDefinition::new_root(
        ID::v1(1, 2, 0, 0, 40),
        Equation::Assets,
        String::from("Stray"),
    );
    match index.account(acct201::AccountDefinition::Custom(stray)) {
        Err(Error::AccountNotFound(name)) => assert_eq!("Stray", name),
        other => panic!("unexpected: {:?}", other),
    }
    let stray_id = ID::v1(1, 2, 0, 0, 40);
    match index.account_mut(stray_id, Equation::Assets) {
        Err(Error::AccountNotFound(text)) => assert_eq!(stray_id.into_uid().to_string(), text),
        other => panic!("unexpected: {:?}", other),
    }
    // a definition looked for under another variable has no account there
    match index.account_mut(StandardAccounts::Cash.id(), Equation::Equity) {
        Err(Error::AccountNotFound(_)) => {}
        other => panic!("unexpected: {:?}", other),
    }
    assert!(index.account_mut(StandardAccounts::Cash.id(), Equation::Assets).is_ok());
}

#[test]
fn balance_out_of_range_is_refused_and_nothing_is_written() -> Result<(), Error> {
    let mut index = Index::standard(CommonCurrencies::USD);
    index.debit(StandardAccounts::Cash, i64::MAX)?;
    match index.debit(StandardAccounts::Cash, 1) {
        Err(Error::Generic(text)) => {
            assert_eq!("The balance would leave the range of amounts", text)
        }
        other => panic!("unexpected: {:?}", other),
    }
    assert_eq!(i64::MAX, index.account(StandardAccounts::Cash)?.balance());
    match index.credit(StandardAccounts::CommonStock, i64::MIN) {
        Ok(balance) => assert_eq!(i64::MIN, balance),
        other => panic!("unexpected: {:?}", other),
    }
    assert!(index.credit(StandardAccounts::CommonStock, -1).is_err());
    assert_eq!(i64::MAX as i128, index.equation_balance().assets());
    assert_eq!(i64::MIN as i128, index.equation_balance().equity());
    Ok(())
}

#[test]
fn identifiers_resolve_through_the_chart() {
    let index = Index::standard(CommonCurrencies::USD);
    let wages = index.definition(StandardAccounts::Wages.id()).unwrap();
    assert_eq!("Wages", wages.name());
    assert!(wages.is_standard());
    assert_eq!(Equation::Equity, wages.equation_variable());
    assert_eq!(StandardAccounts::Expense.id(), wages.parent(&index).unwrap().id());
    assert!(StandardAccounts::Cash.parent(&index).is_none());
    assert_eq!(
        StandardAccounts::Revenue.id(),
        StandardAccounts::FeesEarned.parent(&index).unwrap().id()
    );
    assert!(index.definition(ID::v1(1, 1, 0, 0, 15)).is_none());
    assert!(index.definition(ID::v1(1, 1, 0, 0, 0)).is_none());
    assert!(index.definition(ID::v1(2, 1, 0, 0, 1)).is_none());
    assert!(index.definition(ID::v1(1, 0, 0, 0, 1)).is_none());
    assert!(index.definition(ID::v1(1, 9, 0, 0, 1)).is_none());
    assert!(index.definition(ID::zero()).is_none());
}

#[test]
fn standard_serials_are_fixed() {
    let expected = [
        (StandardAccounts::Cash, 1, "Cash", Equation::Assets),
        (StandardAccounts::RealEstate, 2, "Real Estate", Equation::Assets),
        (StandardAccounts::Supplies, 3, "Supplies", Equation::Assets),
        (StandardAccounts::AccountsPayable, 4, "Accounts Payable", Equation::Liabilities),
        (StandardAccounts::CommonStock, 5, "Common Stock", Equation::Equity),
        (StandardAccounts::Dividends, 6, "Dividends", Equation::Equity),
        (StandardAccounts::Revenue, 7, "Revenue", Equation::Equity),
        (StandardAccounts::Expense, 8, "Expense", Equation::Equity),
        (StandardAccounts::Wages, 9, "Wages", Equation::Equity),
        (StandardAccounts::Rent, 10, "Rent", Equation::Equity),
        (StandardAccounts::Utilities, 11, "Utilities", Equation::Equity),
        (StandardAccounts::SuppliesExpenses, 12, "Miscellaneous Expenses", Equation::Equity),
        (StandardAccounts::MiscExpenses, 13, "Supplies Expenses", Equation::Equity),
        (StandardAccounts::FeesEarned, 14, "Fees Earned", Equation::Equity),
    ];
    for (entry, serial, name, variable) in expected {
        let definition = entry.definition();
        assert_eq!(ID::v1_system(1, 1, serial), definition.id());
        assert_eq!(ID::v1_system(1, 1, serial), entry.id());
        assert_eq!(name, definition.name());
        assert_eq!(name, entry.name());
        assert_eq!(variable, definition.equation_variable());
        assert_eq!(variable, entry.equation_variable());
        assert!(definition.is_standard());
        assert!(entry.is_standard());
    }
    assert_eq!(None, StandardAccounts::Expense.parent_id());
    assert_eq!(Some(ID::v1_system(1, 1, 8)), StandardAccounts::Rent.parent_id());
    assert_eq!(Some(ID::v1_system(1, 1, 7)), StandardAccounts::FeesEarned.parent_id());
}

#[test]
fn account_balances_change_only_as_told() {
    let mut account = Account::standard(StandardAccounts::Cash);
    assert_eq!(0, account.balance());
    assert_eq!(StandardAccounts::Cash.id(), account.definition_id());
    assert_eq!(150, account.increase_balance(150));
    assert_eq!(100, account.decrease_balance(50));
    assert_eq!(-7, account.set_balance(-7));
    assert_eq!(-7, account.balance());
    account.set_definition_id(StandardAccounts::Rent.id());
    assert_eq!(StandardAccounts::Rent.id(), account.definition_id());
    let other = Account::new(&StandardAccounts::Supplies.definition());
    assert_eq!(StandardAccounts::Supplies.id(), other.definition_id());
    assert_eq!(0, other.balance());
}

#[test]
fn error_messages() {
    assert_eq!("An unspecified error occured.", Error::Unspecified.message());
    assert_eq!("plain", Error::Generic(String::from("plain")).message());
    assert_eq!(
        "The Account could not be found: Cash",
        Error::AccountNotFound(String::from("Cash")).message()
    );
    assert_eq!(
        "The Account Definition could not be found: Cash",
        Error::DefinitionNotFound(String::from("Cash")).message()
    );
}

#[test]
fn parent_chains_end_at_a_root() -> Result<(), Error> {
    let mut index = Index::standard(CommonCurrencies::USD);
    index.create_custom_account(String::from("level 1"), &StandardAccounts::Wages)?;
    for level in 2..=20 {
        let above = index.find_definition(&format!("level {}", level - 1)).unwrap();
        let above = acct201::CustomAccountDefinition::new(
            above.id(),
            above.name().to_string(),
            above.equation_variable(),
            above.parent_id().unwrap(),
        );
        index.create_custom_account(format!("level {}", level), &above)?;
    }
    let mut steps = 0;
    let mut current = index.find_definition("level 20").unwrap();
    while let Some(parent) = current.parent(&index) {
        // every step leads to a definition that was made earlier
        assert!(parent.is_standard() || parent.id().serial < current.id().serial);
        assert_eq!(Equation::Equity, parent.equation_variable());
        current = parent;
        steps += 1;
    }
    assert_eq!(21, steps);
    assert_eq!(StandardAccounts::Expense.id(), current.id());
    assert_eq!(None, current.parent_id());
    let expense = index.account(StandardAccounts::Expense)?;
    assert_eq!(25, index.account_descendants(expense).len());
    let wages = index.account(StandardAccounts::Wages)?;
    assert_eq!(20, index.account_descendants(wages).len());
    Ok(())
}

#[test]
fn the_short_catalogue_stands_for_entries_of_the_full_one() {
    let pairs = [
        (StandardAccount::Cash, StandardAccounts::Cash),
        (StandardAccount::RealEstate, StandardAccounts::RealEstate),
        (StandardAccount::Supplies, StandardAccounts::Supplies),
        (StandardAccount::AccountsPayable, StandardAccounts::AccountsPayable),
        (StandardAccount::CommonStock, StandardAccounts::CommonStock),
        (StandardAccount::Revenue, StandardAccounts::Revenue),
        (StandardAccount::Expense, StandardAccounts::Expense),
        (StandardAccount::FeesEarned, StandardAccounts::FeesEarned),
    ];
    for (short, full) in pairs {
        assert_eq!(full, short.entry());
        assert_eq!(full.id(), short.definition().id());
        assert_eq!(full.name(), short.definition().name());
    }
}

#[test]
fn registered_numbers_are_fixed() {
    assert_eq!(0, RegisteredSystemID::Local.system_id());
    assert_eq!(1, RegisteredSystemID::Asmov.system_id());
    assert_eq!(2, RegisteredSystemID::AsmovGames.system_id());
    assert_eq!(0, AsmovClassID::Invalid.class_id());
    assert_eq!(1, AsmovClassID::Account_CustomAccountDefinition.class_id());
    assert_eq!(2, AsmovClassID::Account_StandardDefinition.class_id());
    assert_eq!(1, acct201::ACCT_SYSTEM_ID);
    match StandardAccounts::Cash.definition() {
        acct201::AccountDefinition::Standard(definition) => assert_eq!(
            acct201::AccountClassIdentity::StandardAccountDefinition,
            definition.class_identity()
        ),
        other => panic!("unexpected: {:?}", other),
    }
    let custom = acct201::CustomAccountDefinition::new_root(
        ID::v1(1, 2, 0, 0, 1),
        Equation::Assets,
        String::from("Vault"),
    );
    assert_eq!(acct201::AccountClassIdentity::CustomAccountDefinition, custom.class_identity());
    assert_eq!(None, custom.parent_id());
    assert!(!custom.is_standard());
}

#[test]
fn custom_currencies_describe_themselves() {
    let currency = acct201::CustomCurrency::new(
        String::from("XTS"),
        String::from("¤"),
        String::from("Test Currency"),
    );
    assert_eq!(("XTS", "¤", "Test Currency"), (currency.ticker(), currency.symbol(), currency.name()));
    let common = acct201::CommonCurrency::new("EUR", "€", "Euro");
    assert_eq!("EUR", common.currency().ticker());
    assert_eq!("€", common.symbol());
    assert_eq!("US Dollar", CommonCurrencies::USD.currency().name());
}

#[test]
fn definitions_can_be_passed_by_reference() -> Result<(), Error> {
    let mut index = Index::standard(CommonCurrencies::USD);
    index.create_custom_account(String::from("Petty Cash"), &StandardAccounts::Cash)?;
    let petty = index.find_definition("Petty Cash").unwrap().clone();
    index.create_custom_account(String::from("Coins"), &petty)?;
    assert_eq!(250, index.debit(&petty, 250)?);
    assert_eq!(200, index.credit(&petty, 50)?);
    assert_eq!(200, index.account(&petty)?.balance());
    assert_eq!(200, index.account_for("Petty Cash")?.balance());
    assert_eq!(230, index.debit_for("Petty Cash", 30)?);
    assert_eq!(225, index.credit_for("Petty Cash", 5)?);
    let coins = index.find_definition("Coins").unwrap();
    assert_eq!(Some(petty.id()), coins.parent_id());
    assert_eq!(petty.id(), coins.parent(&index).unwrap().id());
    // a definition under a parent is left out of the totals
    assert_eq!(0, index.equation_balance().assets());
    let cash = StandardAccounts::Cash.definition();
    assert_eq!(10, index.debit(&cash, 10)?);
    assert_eq!(10, index.equation_balance().assets());
    Ok(())
}
