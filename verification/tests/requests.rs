use trussbooks::money::{Amount, MAX_MANTISSA};
use trussbooks::requests::{
    CreateAccountRequest, CreateBusinessRequest, CreateContactRequest, CreateJournalEntry, CreateJournalLine,
    JournalEntriesQuery, UpdateAccountRequest, UpdateBusinessRequest, UpdateContactRequest,
};
use trussbooks::text::is_blank_str;

fn query(limit: Option<i64>, offset: Option<i64>) -> JournalEntriesQuery {
    JournalEntriesQuery { limit, offset, account_code: None, job_code: None, start_date: None, end_date: None }
}

#[test]
fn page_size_defaults_and_clamps() {
    assert_eq!(query(None, None).normalized_limit(), 50);
    assert_eq!(query(Some(0), None).normalized_limit(), 1);
    assert_eq!(query(Some(-7), None).normalized_limit(), 1);
    assert_eq!(query(Some(1), None).normalized_limit(), 1);
    assert_eq!(query(Some(120), None).normalized_limit(), 120);
    assert_eq!(query(Some(200), None).normalized_limit(), 200);
    assert_eq!(query(Some(201), None).normalized_limit(), 200);
    assert_eq!(query(Some(i64::MAX), None).normalized_limit(), 200);
}

#[test]
fn page_offset_defaults_and_floors() {
    assert_eq!(query(None, None).normalized_offset(), 0);
    assert_eq!(query(None, Some(-1)).normalized_offset(), 0);
    assert_eq!(query(None, Some(i64::MIN)).normalized_offset(), 0);
    assert_eq!(query(None, Some(35)).normalized_offset(), 35);
}

#[test]
fn blank_text_is_whitespace_only() {
    assert!(is_blank_str(""));
    assert!(is_blank_str("   "));
    assert!(is_blank_str(" \t\r\n "));
    assert!(is_blank_str("\u{a0}\u{3000}\u{2028}"));
    assert!(!is_blank_str(" a "));
    assert!(!is_blank_str("\u{200b}"));
}

fn create_account(code: &str, name: &str, account_type: &str) -> CreateAccountRequest {
    CreateAccountRequest { code: code.to_string(), name: name.to_string(), account_type: account_type.to_string() }
}

#[test]
fn create_account_checks_fields_in_order() {
    assert_eq!(create_account("1010", "Operating Checking", "asset").validate(), Ok(()));
    assert_eq!(create_account("  ", "", "").validate(), Err("Account code cannot be empty."));
    assert_eq!(create_account("1010", "\t", "").validate(), Err("Account name cannot be empty."));
    assert_eq!(create_account("1010", "Checking", " ").validate(), Err("Account type cannot be empty."));
}

#[test]
fn update_account_checks_given_fields() {
    let none = UpdateAccountRequest { name: None, account_type: None, is_active: Some(false) };
    assert_eq!(none.validate(), Ok(()));
    let blank_name = UpdateAccountRequest { name: Some(" ".to_string()), account_type: Some("".to_string()), is_active: None };
    assert_eq!(blank_name.validate(), Err("Account name cannot be empty."));
    let blank_type = UpdateAccountRequest { name: Some("Cash".to_string()), account_type: Some("\n".to_string()), is_active: None };
    assert_eq!(blank_type.validate(), Err("Account type cannot be empty."));
    let full = UpdateAccountRequest { name: Some("Cash".to_string()), account_type: Some("asset".to_string()), is_active: None };
    assert_eq!(full.validate(), Ok(()));
}

fn create_business(name: &str) -> CreateBusinessRequest {
    CreateBusinessRequest {
        business_name: name.to_string(),
        legal_name: None,
        business_type: None,
        industry: None,
        tax_id: None,
        email: None,
        phone: None,
        website: None,
        logo_url: None,
        brand_color: None,
        invoice_footer_text: None,
        default_payment_terms_days: None,
        currency_code: None,
        timezone: None,
        fiscal_year_start_month: None,
        fiscal_year_start_day: None,
    }
}

fn update_business(name: Option<&str>) -> UpdateBusinessRequest {
    UpdateBusinessRequest {
        business_name: name.map(|n| n.to_string()),
        legal_name: None,
        business_type: None,
        industry: None,
        tax_id: None,
        email: None,
        phone: None,
        website: None,
        logo_url: None,
        brand_color: None,
        invoice_footer_text: None,
        default_payment_terms_days: Some(45),
        currency_code: None,
        timezone: None,
        fiscal_year_start_month: None,
        fiscal_year_start_day: None,
        is_active: None,
    }
}

#[test]
fn business_names_must_not_be_blank() {
    assert_eq!(create_business("Acme Framing").validate(), Ok(()));
    assert_eq!(create_business("   ").validate(), Err("Business name cannot be empty."));
    assert_eq!(update_business(None).validate(), Ok(()));
    assert_eq!(update_business(Some("Acme")).validate(), Ok(()));
    assert_eq!(update_business(Some("")).validate(), Err("Business name cannot be empty."));
}

fn create_contact(name: &str) -> CreateContactRequest {
    CreateContactRequest {
        contact_type: Some("vendor".to_string()),
        display_name: name.to_string(),
        legal_name: None,
        email: None,
        phone: None,
        tax_id: None,
        payment_terms_days: None,
        notes: None,
    }
}

fn update_contact(name: Option<&str>) -> UpdateContactRequest {
    UpdateContactRequest {
        contact_type: None,
        display_name: name.map(|n| n.to_string()),
        legal_name: None,
        email: None,
        phone: None,
        tax_id: None,
        payment_terms_days: None,
        notes: Some("call first".to_string()),
        is_active: None,
    }
}

#[test]
fn contact_names_must_not_be_blank() {
    assert_eq!(create_contact("Lumber Yard").validate(), Ok(()));
    assert_eq!(create_contact(" \t").validate(), Err("Contact display name cannot be empty."));
    assert_eq!(update_contact(None).validate(), Ok(()));
    assert_eq!(update_contact(Some("  ")).validate(), Err("Contact display name cannot be empty."));
}

fn line(code: &str, mantissa: i128, scale: u32) -> CreateJournalLine {
    CreateJournalLine {
        account_code: code.to_string(),
        amount: Amount::from_parts(mantissa, scale).unwrap(),
        job_code: None,
    }
}

fn entry(description: &str, lines: Vec<CreateJournalLine>) -> CreateJournalEntry {
    CreateJournalEntry {
        entry_date: "2024-03-01".to_string(),
        description: description.to_string(),
        reference_number: None,
        lines,
    }
}

#[test]
fn balanced_entry_is_accepted() {
    let e = entry("Lumber for job 12", vec![line("5010", 125000, 2), line("1010", -125000, 2)]);
    assert_eq!(e.validate(), Ok(()));
    assert_eq!(e.checked_validate(), Some(Ok(())));
}

#[test]
fn balance_is_checked_across_scales() {
    // 10.5 + 2.25 - 12.75 = 0
    let e = entry("Mixed", vec![line("5010", 105, 1), line("5020", 225, 2), line("1010", -1275, 2)]);
    assert_eq!(e.validate(), Ok(()));
}

#[test]
fn unbalanced_entry_is_rejected() {
    let e = entry("Lumber", vec![line("5010", 100, 0), line("1010", -99, 0)]);
    assert_eq!(
        e.validate(),
        Err("Transaction rejected: Ledger out of balance. Total Debits must match Total Credits.")
    );
}

#[test]
fn blank_description_is_rejected_first() {
    let e = entry("  ", vec![]);
    assert_eq!(e.validate(), Err("Transaction rejected: Description cannot be empty."));
}

#[test]
fn an_entry_needs_two_lines() {
    let e = entry("Single", vec![line("1010", 0, 0)]);
    assert_eq!(
        e.validate(),
        Err("Transaction rejected: A valid journal entry must contain at least 2 lines (splits).")
    );
}

#[test]
fn zero_lines_are_rejected() {
    let e = entry("Zero", vec![line("1010", 5, 0), line("2010", 0, 3), line("3000", -5, 0)]);
    assert_eq!(e.validate(), Err("Transaction rejected: Individual line amounts cannot be zero."));
}

#[test]
fn overflowing_total_is_reported() {
    let e = entry("Huge", vec![line("1010", MAX_MANTISSA, 0), line("1200", MAX_MANTISSA, 0), line("3000", 0, 0)]);
    assert_eq!(e.checked_validate(), None);
}

#[test]
fn zero_line_before_overflow_is_rejected() {
    let e = entry("Huge", vec![line("1010", MAX_MANTISSA, 0), line("3000", 0, 0), line("1200", MAX_MANTISSA, 0)]);
    assert_eq!(
        e.checked_validate(),
        Some(Err("Transaction rejected: Individual line amounts cannot be zero."))
    );
}

#[test]
fn normalizing_a_served_page_changes_nothing() {
    for limit in [None, Some(-3), Some(0), Some(50), Some(199), Some(500)] {
        let served = query(limit, None).normalized_limit();
        assert_eq!(query(Some(served), None).normalized_limit(), served);
    }
    for offset in [None, Some(-9), Some(0), Some(40)] {
        let served = query(None, offset).normalized_offset();
        assert_eq!(query(None, Some(served)).normalized_offset(), served);
    }
}

#[test]
fn accepted_fields_are_accepted_as_changes() {
    let create = create_account("1300", "Prepaid Insurance", "asset");
    assert_eq!(create.validate(), Ok(()));
    let change = UpdateAccountRequest { name: Some(create.name.clone()), account_type: Some(create.account_type.clone()), is_active: None };
    assert_eq!(change.validate(), Ok(()));
    assert_eq!(create_business("Acme").validate(), Ok(()));
    assert_eq!(update_business(Some("Acme")).validate(), Ok(()));
    assert_eq!(create_contact("Lumber Yard").validate(), Ok(()));
    assert_eq!(update_contact(Some("Lumber Yard")).validate(), Ok(()));
}

#[test]
fn reordering_lines_keeps_the_verdict() {
    let a = entry("Split", vec![line("5010", 700, 2), line("5020", 500, 2), line("1010", -1200, 2)]);
    let b = entry("Split", vec![line("1010", -1200, 2), line("5010", 700, 2), line("5020", 500, 2)]);
    assert_eq!(a.validate(), Ok(()));
    assert_eq!(b.validate(), a.validate());
    let c = entry("Split", vec![line("5010", 700, 2), line("1010", -1100, 2), line("5020", 500, 2)]);
    let d = entry("Split", vec![line("5020", 500, 2), line("5010", 700, 2), line("1010", -1100, 2)]);
    assert_eq!(
        c.validate(),
        Err("Transaction rejected: Ledger out of balance. Total Debits must match Total Credits.")
    );
    assert_eq!(d.validate(), c.validate());
    let e = entry("Split", vec![line("5010", 700, 2), line("5020", 0, 2), line("1010", -700, 2)]);
    let f = entry("Split", vec![line("1010", -700, 2), line("5010", 700, 2), line("5020", 0, 2)]);
    assert_eq!(e.validate(), Err("Transaction rejected: Individual line amounts cannot be zero."));
    assert_eq!(f.validate(), e.validate());
}

#[test]
fn blank_detection_follows_unicode_whitespace() {
    assert!(is_blank_str(" "));
    assert!(is_blank_str(" \n\u{a0}\t"));
    assert!(!is_blank_str("x\u{8d8a}"));
    assert!(!is_blank_str(" a "));
}

#[test]
fn reordering_lines_of_mixed_scales_keeps_the_verdict() {
    // 100 + 0.25 - 100.25 = 0, in either order
    let a = entry("Mixed", vec![line("5010", 100, 0), line("5020", 25, 2), line("1010", -10025, 2)]);
    let b = entry("Mixed", vec![line("1010", -10025, 2), line("5020", 25, 2), line("5010", 100, 0)]);
    assert_eq!(a.validate(), Ok(()));
    assert_eq!(b.validate(), a.validate());
    assert_eq!(b.checked_validate(), Some(Ok(())));
    let c = entry("Mixed", vec![line("5010", 100, 0), line("1010", -10001, 2)]);
    let d = entry("Mixed", vec![line("1010", -10001, 2), line("5010", 100, 0)]);
    assert_eq!(
        c.validate(),
        Err("Transaction rejected: Ledger out of balance. Total Debits must match Total Credits.")
    );
    assert_eq!(d.validate(), c.validate());
}
