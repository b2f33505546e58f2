use trussbooks::money::Amount;
use trussbooks::responses::{CalendarDate, JournalEntryHeader, JournalEntryResponse, JournalLineResponse, Timestamp};

fn line(id: &str, mantissa: i128) -> JournalLineResponse {
    JournalLineResponse {
        id: id.to_string(),
        account_id: "acc".to_string(),
        account_code: "1010".to_string(),
        account_name: "Operating Checking".to_string(),
        account_type: "asset".to_string(),
        amount: Amount::from_parts(mantissa, 2).unwrap(),
        job_code: Some("JOB-12".to_string()),
        created_at: Timestamp { seconds: 1_700_000_000, nanos: 5 },
    }
}

#[test]
fn from_parts_keeps_header_and_lines() {
    let header = JournalEntryHeader {
        id: "e-1".to_string(),
        entry_date: CalendarDate { year: 2024, month: 3, day: 1 },
        description: "Materials".to_string(),
        reference_number: Some("INV-7".to_string()),
        created_at: Timestamp { seconds: 1_700_000_100, nanos: 0 },
    };
    let entry = JournalEntryResponse::from_parts(header, vec![line("l-1", 500), line("l-2", -500)]);
    assert_eq!(entry.id, "e-1");
    assert_eq!((entry.entry_date.year, entry.entry_date.month, entry.entry_date.day), (2024, 3, 1));
    assert_eq!(entry.description, "Materials");
    assert_eq!(entry.reference_number.as_deref(), Some("INV-7"));
    assert_eq!(entry.created_at.seconds, 1_700_000_100);
    let ids: Vec<&str> = entry.lines.iter().map(|l| l.id.as_str()).collect();
    assert_eq!(ids, vec!["l-1", "l-2"]);
    assert_eq!(entry.lines[1].amount.mantissa(), -500);
}
