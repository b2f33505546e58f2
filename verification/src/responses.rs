//! The records the service hands back: accounts, businesses, contacts, chart
//! templates, journal entries and their lines, and the ledger reports.

use crate::money::Amount;
use vstd::prelude::*;

verus! {

/// A calendar day.
#[derive(Clone, Copy, Debug)]
pub struct CalendarDate {
    pub year: i32,
    pub month: u32,
    pub day: u32,
}

/// An instant, as whole seconds since the Unix epoch and the nanoseconds past
/// that second.
#[derive(Clone, Copy, Debug)]
pub struct Timestamp {
    pub seconds: i64,
    pub nanos: u32,
}

/// An account of the chart of accounts.
pub struct AccountResponse {
    pub id: String,
    pub code: String,
    pub name: String,
    pub account_type: String,
    pub is_active: bool,
    pub created_at: Timestamp,
}

/// A business and its profile.
pub struct BusinessResponse {
    pub id: String,
    pub business_name: String,
    pub legal_name: Option<String>,
    pub business_type: String,
    pub industry: Option<String>,
    pub tax_id: Option<String>,
    pub email: Option<String>,
    pub phone: Option<String>,
    pub website: Option<String>,
    pub logo_url: Option<String>,
    pub brand_color: Option<String>,
    pub invoice_footer_text: Option<String>,
    pub default_payment_terms_days: i16,
    pub currency_code: String,
    pub timezone: String,
    pub fiscal_year_start_month: i16,
    pub fiscal_year_start_day: i16,
    pub is_active: bool,
    pub created_at: Timestamp,
    pub updated_at: Timestamp,
}

/// A customer or vendor of a business.
pub struct ContactResponse {
    pub id: String,
    pub business_id: String,
    pub contact_type: String,
    pub display_name: String,
    pub legal_name: Option<String>,
    pub email: Option<String>,
    pub phone: Option<String>,
    pub tax_id: Option<String>,
    pub payment_terms_days: i16,
    pub notes: Option<String>,
    pub is_active: bool,
    pub created_at: Timestamp,
    pub updated_at: Timestamp,
}

/// A template chart of accounts and how many accounts it lists.
pub struct AccountTemplateResponse {
    pub id: String,
    pub template_key: String,
    pub template_name: String,
    pub business_type: Option<String>,
    pub industry: Option<String>,
    pub description: Option<String>,
    pub is_default: bool,
    pub account_count: i64,
    pub created_at: Timestamp,
    pub updated_at: Timestamp,
}

/// One account of a template chart of accounts.
pub struct AccountTemplateAccountResponse {
    pub code: String,
    pub name: String,
    pub account_type: String,
    pub sort_order: i32,
    pub is_required: bool,
}

/// A journal entry in a listing, with its line count and its debit and credit
/// totals.
pub struct JournalEntrySummary {
    pub id: String,
    pub entry_date: CalendarDate,
    pub description: String,
    pub reference_number: Option<String>,
    pub line_count: i64,
    pub debit_total: Amount,
    pub credit_total: Amount,
    pub created_at: Timestamp,
}

/// The header of a journal entry.
pub struct JournalEntryHeader {
    pub id: String,
    pub entry_date: CalendarDate,
    pub description: String,
    pub reference_number: Option<String>,
    pub created_at: Timestamp,
}

/// One posted split of a journal entry, with the account it was posted to.
pub struct JournalLineResponse {
    pub id: String,
    pub account_id: String,
    pub account_code: String,
    pub account_name: String,
    pub account_type: String,
    pub amount: Amount,
    pub job_code: Option<String>,
    pub created_at: Timestamp,
}

/// A journal entry with all of its lines.
pub struct JournalEntryResponse {
    pub id: String,
    pub entry_date: CalendarDate,
    pub description: String,
    pub reference_number: Option<String>,
    pub created_at: Timestamp,
    pub lines: Vec<JournalLineResponse>,
}

impl JournalEntryResponse {
    /// The entry made of a header and its lines: the header's fields, and the
    /// lines in the order given.
    pub fn from_parts(header: JournalEntryHeader, lines: Vec<JournalLineResponse>) -> (r: Self)
        ensures
            r.id == header.id,
            r.entry_date == header.entry_date,
            r.description == header.description,
            r.reference_number == header.reference_number,
            r.created_at == header.created_at,
            r.lines == lines,
    {
        Self {
            id: header.id,
            entry_date: header.entry_date,
            description: header.description,
            reference_number: header.reference_number,
            created_at: header.created_at,
            lines,
        }
    }
}

/// The balance of one active account: the sum of all amounts posted to it.
pub struct TrialBalanceLine {
    pub account_id: String,
    pub account_code: String,
    pub account_name: String,
    pub account_type: String,
    pub balance: Amount,
}

/// One line of an account's ledger, with the account's running balance after it.
pub struct AccountLedgerLine {
    pub journal_entry_id: String,
    pub journal_line_id: String,
    pub entry_date: CalendarDate,
    pub description: String,
    pub reference_number: Option<String>,
    pub amount: Amount,
    pub job_code: Option<String>,
    pub running_balance: Amount,
}

} // verus!
