//! The chart of accounts a fresh ledger starts with: standard accounts for a
//! construction business, loaded only when the ledger holds no account yet.

use vstd::prelude::*;

verus! {

/// An account of the standard chart: its code, its name and its type.
#[derive(Clone, Copy, Debug)]
pub struct ChartAccount {
    pub code: &'static str,
    pub name: &'static str,
    pub account_type: &'static str,
}

/// The standard chart, as (code, name, type) triples in loading order.
pub open spec fn standard_chart_spec() -> Seq<(Seq<char>, Seq<char>, Seq<char>)> {
    seq![
        ("1010"@, "Operating Checking"@, "asset"@),
        ("1200"@, "Accounts Receivable"@, "asset"@),
        ("1250"@, "Retention Receivable"@, "asset"@),
        ("2010"@, "Accounts Payable"@, "liability"@),
        ("3000"@, "Owner's Equity"@, "equity"@),
        ("4010"@, "Construction Contract Revenue"@, "revenue"@),
        ("5010"@, "Job Materials Expense"@, "expense"@),
        ("5020"@, "Subcontractor Expense"@, "expense"@),
        ("5030"@, "Equipment Rental Expense"@, "expense"@),
    ]
}

/// The account as a (code, name, type) triple.
pub open spec fn chart_triple(account: ChartAccount) -> (Seq<char>, Seq<char>, Seq<char>) {
    (account.code@, account.name@, account.account_type@)
}

fn chart_account(code: &'static str, name: &'static str, account_type: &'static str) -> (r: ChartAccount)
    ensures
        chart_triple(r) == (code@, name@, account_type@),
{
    ChartAccount { code, name, account_type }
}

/// The standard chart of accounts, in loading order.
pub fn standard_chart() -> (r: Vec<ChartAccount>)
    ensures
        r@.map_values(|a: ChartAccount| chart_triple(a)) == standard_chart_spec(),
{
    let mut chart: Vec<ChartAccount> = Vec::new();
    chart.push(chart_account("1010", "Operating Checking", "asset"));
    chart.push(chart_account("1200", "Accounts Receivable", "asset"));
    chart.push(chart_account("1250", "Retention Receivable", "asset"));
    chart.push(chart_account("2010", "Accounts Payable", "liability"));
    chart.push(chart_account("3000", "Owner's Equity", "equity"));
    chart.push(chart_account("4010", "Construction Contract Revenue", "revenue"));
    chart.push(chart_account("5010", "Job Materials Expense", "expense"));
    chart.push(chart_account("5020", "Subcontractor Expense", "expense"));
    chart.push(chart_account("5030", "Equipment Rental Expense", "expense"));
    assert(chart@.map_values(|a: ChartAccount| chart_triple(a)) =~= standard_chart_spec());
    chart
}

/// What seeding does for a ledger that holds `existing` accounts.
pub enum SeedPlan {
    /// Nothing: the ledger already has accounts, and this many.
    AlreadySeeded(i64),
    /// Load these accounts, in order, then count the accounts again.
    Load(Vec<ChartAccount>),
}

/// The accounts seeding adds to a ledger that holds `existing` accounts: none
/// when it has some, the standard chart when it has none.
pub open spec fn seeded_accounts(existing: int) -> Seq<(Seq<char>, Seq<char>, Seq<char>)> {
    if existing > 0 {
        Seq::empty()
    } else {
        standard_chart_spec()
    }
}

/// The seeding decision: a ledger with accounts is left as it is, an empty one
/// receives the standard chart.
pub fn seed_plan(existing: i64) -> (r: SeedPlan)
    ensures
        (r is AlreadySeeded) == (seeded_accounts(existing as int).len() == 0),
        r matches SeedPlan::Load(chart) ==> chart@.map_values(|a: ChartAccount| chart_triple(a))
            == seeded_accounts(existing as int),
        existing > 0 ==> r == SeedPlan::AlreadySeeded(existing),
        existing <= 0 ==> (r matches SeedPlan::Load(chart) && chart@.map_values(|a: ChartAccount| chart_triple(a))
            == standard_chart_spec()),
{
    if existing > 0 {
        SeedPlan::AlreadySeeded(existing)
    } else {
        SeedPlan::Load(standard_chart())
    }
}

/// The standard chart is loaded at most once: a ledger that held `existing`
/// accounts holds `existing` plus the accounts seeding added, which is more than
/// none, and seeding it again adds nothing and leaves it with that count.
pub proof fn lemma_seeding_again_adds_nothing(existing: int)
    requires
        existing >= 0,
    ensures
        ({
            let after = existing + seeded_accounts(existing).len();
            &&& after > 0
            &&& seeded_accounts(after) == Seq::<(Seq<char>, Seq<char>, Seq<char>)>::empty()
        }),
{
}

/// In the standard chart an account's type follows the first digit of its
/// four-digit code: 1 assets, 2 liabilities, 3 equity, 4 revenue, 5 expenses.
pub proof fn lemma_standard_types_follow_codes()
    ensures
        forall|i: int| 0 <= i < standard_chart_spec().len() ==> {
            let (code, _name, kind) = #[trigger] standard_chart_spec()[i];
            &&& code.len() == 4
            &&& code[0] == '1' ==> kind == "asset"@
            &&& code[0] == '2' ==> kind == "liability"@
            &&& code[0] == '3' ==> kind == "equity"@
            &&& code[0] == '4' ==> kind == "revenue"@
            &&& code[0] == '5' ==> kind == "expense"@
        },
{
    reveal_strlit("1010");
    reveal_strlit("1200");
    reveal_strlit("1250");
    reveal_strlit("2010");
    reveal_strlit("3000");
    reveal_strlit("4010");
    reveal_strlit("5010");
    reveal_strlit("5020");
    reveal_strlit("5030");
    reveal_strlit("asset");
    reveal_strlit("liability");
    reveal_strlit("equity");
    reveal_strlit("revenue");
    reveal_strlit("expense");
}

/// Every account of the standard chart has its own code.
pub proof fn lemma_standard_codes_distinct()
    ensures
        forall|i: int, j: int|
            0 <= i < j < standard_chart_spec().len() ==> (#[trigger] standard_chart_spec()[i]).0
                != (#[trigger] standard_chart_spec()[j]).0,
{
    reveal_strlit("1010");
    reveal_strlit("1200");
    reveal_strlit("1250");
    reveal_strlit("2010");
    reveal_strlit("3000");
    reveal_strlit("4010");
    reveal_strlit("5010");
    reveal_strlit("5020");
    reveal_strlit("5030");
    let chart = standard_chart_spec();
    assert forall|i: int, j: int| 0 <= i < j < chart.len() implies (#[trigger] chart[i]).0 != (#[trigger] chart[j]).0 by {
        if chart[i].0 == chart[j].0 {
            assert(chart[i].0[2] == chart[j].0[2] && chart[i].0[1] == chart[j].0[1] && chart[i].0[0] == chart[j].0[0]);
        }
    }
}

} // verus!
