use budget_book::chart::{chart_data, is_income, is_income_label, BudgetBookEntry};

fn entry(date: &str, entry_type: &str, amount: u64) -> BudgetBookEntry {
    BudgetBookEntry { date: date.to_string(), entry_type: entry_type.to_string(), amount }
}

#[test]
fn chart_partitions_income_and_expense() {
    let entries = vec![entry("2024-01-01", "Income", 1000), entry("2024-01-02", "Rent", 500)];
    let chart = chart_data(&entries);
    assert_eq!(chart.income, vec![("2024-01-01".to_string(), 1000)]);
    assert_eq!(chart.expense, vec![("2024-01-02".to_string(), 500)]);
}

#[test]
fn chart_keeps_stored_order_without_summing() {
    let entries = vec![
        entry("2024-02-01", "income", 10),
        entry("2024-01-01", "Food", 3),
        entry("2024-01-15", "INCOME", 20),
        entry("2024-02-01", "income", 10),
        entry("2024-01-01", "expense", 7),
    ];
    let chart = chart_data(&entries);
    assert_eq!(
        chart.income,
        vec![
            ("2024-02-01".to_string(), 10),
            ("2024-01-15".to_string(), 20),
            ("2024-02-01".to_string(), 10),
        ]
    );
    assert_eq!(
        chart.expense,
        vec![("2024-01-01".to_string(), 3), ("2024-01-01".to_string(), 7)]
    );
}

#[test]
fn chart_of_no_entries_is_empty() {
    let chart = chart_data(&Vec::new());
    assert!(chart.income.is_empty());
    assert!(chart.expense.is_empty());
}

#[test]
fn income_match_ignores_case() {
    assert!(is_income(&entry("d", "Income", 1)));
    assert!(is_income(&entry("d", "InCoMe", 1)));
    assert!(!is_income(&entry("d", "incomes", 1)));
    assert!(!is_income(&entry("d", " income", 1)));
}

#[test]
fn lowered_label_must_be_exact() {
    assert!(is_income_label("income"));
    assert!(!is_income_label("Income"));
    assert!(!is_income_label("incom"));
    assert!(!is_income_label(""));
}
