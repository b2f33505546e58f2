use trussbooks::seeding::{seed_plan, standard_chart, SeedPlan};

#[test]
fn standard_chart_lists_the_construction_accounts() {
    let chart = standard_chart();
    let triples: Vec<(&str, &str, &str)> = chart.iter().map(|a| (a.code, a.name, a.account_type)).collect();
    assert_eq!(
        triples,
        vec![
            ("1010", "Operating Checking", "asset"),
            ("1200", "Accounts Receivable", "asset"),
            ("1250", "Retention Receivable", "asset"),
            ("2010", "Accounts Payable", "liability"),
            ("3000", "Owner's Equity", "equity"),
            ("4010", "Construction Contract Revenue", "revenue"),
            ("5010", "Job Materials Expense", "expense"),
            ("5020", "Subcontractor Expense", "expense"),
            ("5030", "Equipment Rental Expense", "expense"),
        ]
    );
}

#[test]
fn seeding_only_fills_an_empty_ledger() {
    assert!(matches!(seed_plan(12), SeedPlan::AlreadySeeded(12)));
    assert!(matches!(seed_plan(1), SeedPlan::AlreadySeeded(1)));
    match seed_plan(0) {
        SeedPlan::Load(chart) => assert_eq!(chart.len(), 9),
        SeedPlan::AlreadySeeded(_) => panic!("an empty ledger is seeded"),
    }
}

#[test]
fn seeding_again_adds_nothing() {
    let loaded = match seed_plan(0) {
        SeedPlan::Load(chart) => chart.len() as i64,
        SeedPlan::AlreadySeeded(_) => panic!("an empty ledger is seeded"),
    };
    assert!(matches!(seed_plan(loaded), SeedPlan::AlreadySeeded(9)));
}
