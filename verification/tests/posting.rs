use trussbooks::money::Amount;
use trussbooks::posting::{JournalPosting, Phase, PostingAction, PostingEvent};
use trussbooks::requests::{CreateJournalEntry, CreateJournalLine};

fn entry(codes: &[&str]) -> CreateJournalEntry {
    CreateJournalEntry {
        entry_date: "2024-03-01".to_string(),
        description: "Materials".to_string(),
        reference_number: Some("INV-7".to_string()),
        lines: codes
            .iter()
            .map(|c| CreateJournalLine {
                account_code: c.to_string(),
                amount: Amount::from_parts(1, 0).unwrap(),
                job_code: None,
            })
            .collect(),
    }
}

fn finish(action: PostingAction) -> Result<String, String> {
    match action {
        PostingAction::Finish(r) => r,
        _ => panic!("expected the posting to finish"),
    }
}

#[test]
fn successful_posting_inserts_every_line_then_commits() {
    let e = entry(&["5010", "1010"]);
    let (mut p, first) = JournalPosting::start(&e);
    assert!(matches!(first, PostingAction::BeginTransaction));
    assert_eq!(p.codes().len(), 2);
    assert!(matches!(p.step(PostingEvent::TransactionBegun(Ok(()))), PostingAction::InsertHeader));
    assert!(matches!(p.step(PostingEvent::HeaderInserted(Ok("E1".to_string()))), PostingAction::LookUpAccount { line: 0 }));
    match p.step(PostingEvent::AccountFound(Ok(Some("A1".to_string())))) {
        PostingAction::InsertLine { line, account_id } => {
            assert_eq!(line, 0);
            assert_eq!(account_id, "A1");
        }
        _ => panic!("expected a line insert"),
    }
    assert!(matches!(p.step(PostingEvent::LineInserted(Ok(()))), PostingAction::LookUpAccount { line: 1 }));
    assert!(matches!(p.step(PostingEvent::AccountFound(Ok(Some("A2".to_string())))), PostingAction::InsertLine { line: 1, .. }));
    assert!(matches!(p.step(PostingEvent::LineInserted(Ok(()))), PostingAction::Commit));
    assert_eq!(p.phase(), Phase::Committing);
    assert_eq!(finish(p.step(PostingEvent::Committed(Ok(())))), Ok("E1".to_string()));
    assert_eq!(p.phase(), Phase::Finished);
}

#[test]
fn unknown_account_code_stops_the_posting() {
    let e = entry(&["5010", "9999"]);
    let (mut p, _) = JournalPosting::start(&e);
    p.step(PostingEvent::TransactionBegun(Ok(())));
    p.step(PostingEvent::HeaderInserted(Ok("E1".to_string())));
    p.step(PostingEvent::AccountFound(Ok(Some("A1".to_string()))));
    p.step(PostingEvent::LineInserted(Ok(())));
    let end = finish(p.step(PostingEvent::AccountFound(Ok(None))));
    assert_eq!(end, Err("Invalid account code provided: 9999".to_string()));
}

#[test]
fn store_failures_are_reported_with_context() {
    let e = entry(&["5010", "1010"]);
    let (mut p, _) = JournalPosting::start(&e);
    p.step(PostingEvent::TransactionBegun(Ok(())));
    let end = finish(p.step(PostingEvent::HeaderInserted(Err("invalid date".to_string()))));
    assert_eq!(end, Err("Failed to insert journal entry header: invalid date".to_string()));

    let (mut p, _) = JournalPosting::start(&e);
    p.step(PostingEvent::TransactionBegun(Ok(())));
    p.step(PostingEvent::HeaderInserted(Ok("E2".to_string())));
    p.step(PostingEvent::AccountFound(Ok(Some("A1".to_string()))));
    let end = finish(p.step(PostingEvent::LineInserted(Err("check violation".to_string()))));
    assert_eq!(end, Err("Failed to insert journal line: check violation".to_string()));

    let (mut p, _) = JournalPosting::start(&e);
    let end = finish(p.step(PostingEvent::TransactionBegun(Err("pool closed".to_string()))));
    assert_eq!(end, Err("pool closed".to_string()));
}

#[test]
fn an_entry_without_lines_commits_after_its_header() {
    let e = entry(&[]);
    let (mut p, _) = JournalPosting::start(&e);
    p.step(PostingEvent::TransactionBegun(Ok(())));
    assert!(matches!(p.step(PostingEvent::HeaderInserted(Ok("E3".to_string()))), PostingAction::Commit));
    let end = finish(p.step(PostingEvent::Committed(Err("serialization failure".to_string()))));
    assert_eq!(end, Err("serialization failure".to_string()));
}

#[test]
fn commit_comes_only_after_every_line_was_inserted() {
    let e = entry(&["5010", "5020", "1010"]);
    let (mut p, _) = JournalPosting::start(&e);
    let mut inserted: Vec<usize> = Vec::new();
    let mut action = p.step(PostingEvent::TransactionBegun(Ok(())));
    assert!(matches!(action, PostingAction::InsertHeader));
    action = p.step(PostingEvent::HeaderInserted(Ok("E9".to_string())));
    loop {
        match action {
            PostingAction::LookUpAccount { .. } => {
                action = p.step(PostingEvent::AccountFound(Ok(Some("A".to_string()))));
            }
            PostingAction::InsertLine { line, .. } => {
                inserted.push(line);
                action = p.step(PostingEvent::LineInserted(Ok(())));
            }
            PostingAction::Commit => break,
            _ => panic!("unexpected action before the commit"),
        }
    }
    assert_eq!(inserted, vec![0, 1, 2]);
    assert_eq!(finish(p.step(PostingEvent::Committed(Ok(())))), Ok("E9".to_string()));
}
