use trussbooks::reply::{
    change_reply, create_reply, list_reply, lookup_reply, posted_message, posted_reply, query_reply, rejected,
    template_reply, validation_reply, Body, Reply, StatusCode, Subject,
};

fn failure_of<T>(reply: &Reply<T>) -> (u16, &'static str, String) {
    match &reply.body {
        Body::Failure { status, reason } => (reply.status.code(), *status, reason.clone()),
        _ => panic!("not a failure"),
    }
}

#[test]
fn status_codes_are_the_http_numbers() {
    assert_eq!(StatusCode::Success.code(), 200);
    assert_eq!(StatusCode::Created.code(), 201);
    assert_eq!(StatusCode::BadRequest.code(), 400);
    assert_eq!(StatusCode::NotFound.code(), 404);
    assert_eq!(StatusCode::InternalServerError.code(), 500);
}

#[test]
fn validation_failures_are_rejected() {
    let r: Option<Reply<()>> = validation_reply(Err("Business name cannot be empty."));
    let r = r.expect("a rejection");
    assert_eq!(failure_of(&r), (400, "rejected", "Business name cannot be empty.".to_string()));
    let none: Option<Reply<()>> = validation_reply(Ok(()));
    assert!(none.is_none());
    let direct: Reply<()> = rejected("why");
    assert_eq!(failure_of(&direct), (400, "rejected", "why".to_string()));
}

#[test]
fn listings_and_store_errors() {
    let ok = list_reply("accounts", Ok(vec![1, 2, 3]));
    assert_eq!(ok.status, StatusCode::Success);
    assert!(matches!(ok.body, Body::Listing { key: "accounts", ref value } if *value == vec![1, 2, 3]));
    let err: Reply<Vec<i32>> = list_reply("accounts", Err("connection refused".to_string()));
    assert_eq!(failure_of(&err), (500, "error", "connection refused".to_string()));
    let q: Reply<Vec<i32>> = query_reply("ledger", Err("bad date".to_string()));
    assert_eq!(failure_of(&q), (400, "query_rejected", "bad date".to_string()));
}

#[test]
fn lookups_distinguish_missing_records() {
    let found = lookup_reply("business", Subject::Business, Ok(Some(7)));
    assert_eq!(found.status.code(), 200);
    assert!(matches!(found.body, Body::Listing { key: "business", value: 7 }));
    let missing: Reply<i32> = lookup_reply("contact", Subject::Contact, Ok(None));
    assert_eq!(failure_of(&missing), (404, "not_found", "Contact was not found.".to_string()));
    let entry: Reply<i32> = lookup_reply("journal_entry", Subject::JournalEntry, Ok(None));
    assert_eq!(failure_of(&entry), (404, "not_found", "Journal entry was not found.".to_string()));
    let broken: Reply<i32> = lookup_reply("account", Subject::Account, Err("invalid uuid".to_string()));
    assert_eq!(failure_of(&broken), (400, "query_rejected", "invalid uuid".to_string()));
}

#[test]
fn writes_report_success_or_db_rejection() {
    let created = create_reply("account", Ok("1010"));
    assert_eq!(created.status.code(), 201);
    assert!(matches!(created.body, Body::Saved { key: "account", value: "1010" }));
    let refused: Reply<&str> = create_reply("account", Err("duplicate key".to_string()));
    assert_eq!(failure_of(&refused), (400, "db_rejected", "duplicate key".to_string()));
    let changed = change_reply("account", Subject::Account, Ok(Some(1)));
    assert_eq!(changed.status.code(), 200);
    assert!(matches!(changed.body, Body::Saved { key: "account", value: 1 }));
    let gone: Reply<i32> = change_reply("account", Subject::Account, Ok(None));
    assert_eq!(failure_of(&gone), (404, "not_found", "Account was not found.".to_string()));
}

#[test]
fn posted_entries_carry_their_id() {
    let posted = posted_reply(Ok("3f2a".to_string()));
    assert_eq!(posted.status.code(), 201);
    assert!(matches!(posted.body, Body::Posted { ref journal_entry_id } if journal_entry_id == "3f2a"));
    assert_eq!(posted_message(), "Transaction permanently saved to ledger.");
    let refused = posted_reply(Err("Invalid account code provided: 9999".to_string()));
    assert_eq!(failure_of(&refused), (400, "db_rejected", "Invalid account code provided: 9999".to_string()));
}

#[test]
fn template_replies_echo_the_key() {
    let r = template_reply("framing".to_string(), Ok(2));
    assert_eq!(r.status.code(), 200);
    assert!(matches!(r.body, Body::Template { ref template_key, accounts: 2 } if template_key == "framing"));
    let e: Reply<i32> = template_reply("framing".to_string(), Err("boom".to_string()));
    assert_eq!(failure_of(&e), (400, "query_rejected", "boom".to_string()));
}
