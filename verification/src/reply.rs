//! How the service answers: the status code and the shape of the body for each
//! outcome of a request, from validation failures to missing records.

use vstd::prelude::*;

verus! {

/// The HTTP statuses the service answers with.
#[derive(Clone, Copy, Debug, PartialEq, Eq, Structural)]
pub enum StatusCode {
    Success,
    Created,
    BadRequest,
    NotFound,
    InternalServerError,
}

impl StatusCode {
    /// The numeric HTTP status.
    pub open spec fn spec_code(self) -> u16 {
        match self {
            StatusCode::Success => 200,
            StatusCode::Created => 201,
            StatusCode::BadRequest => 400,
            StatusCode::NotFound => 404,
            StatusCode::InternalServerError => 500,
        }
    }

    /// The numeric HTTP status.
    pub fn code(&self) -> (r: u16)
        ensures
            r == self.spec_code(),
            *self == StatusCode::Success ==> r == 200,
            *self == StatusCode::Created ==> r == 201,
            *self == StatusCode::BadRequest ==> r == 400,
            *self == StatusCode::NotFound ==> r == 404,
            *self == StatusCode::InternalServerError ==> r == 500,
    {
        match self {
            StatusCode::Success => 200,
            StatusCode::Created => 201,
            StatusCode::BadRequest => 400,
            StatusCode::NotFound => 404,
            StatusCode::InternalServerError => 500,
        }
    }
}

/// The kinds of record a request can look up.
#[derive(Clone, Copy, Debug, PartialEq, Eq, Structural)]
pub enum Subject {
    Account,
    Business,
    Contact,
    JournalEntry,
}

impl Subject {
    /// The reason given when a record of this kind does not exist.
    pub open spec fn spec_not_found_reason(self) -> &'static str {
        match self {
            Subject::Account => "Account was not found.",
            Subject::Business => "Business was not found.",
            Subject::Contact => "Contact was not found.",
            Subject::JournalEntry => "Journal entry was not found.",
        }
    }

    /// The reason given when a record of this kind does not exist.
    pub fn not_found_reason(&self) -> (r: &'static str)
        ensures
            r == self.spec_not_found_reason(),
            *self == Subject::Account ==> r == "Account was not found.",
            *self == Subject::Business ==> r == "Business was not found.",
            *self == Subject::Contact ==> r == "Contact was not found.",
            *self == Subject::JournalEntry ==> r == "Journal entry was not found.",
    {
        match self {
            Subject::Account => "Account was not found.",
            Subject::Business => "Business was not found.",
            Subject::Contact => "Contact was not found.",
            Subject::JournalEntry => "Journal entry was not found.",
        }
    }
}

/// The body of a reply, as a JSON object.
pub enum Body<T> {
    /// `{ key: value }`: records that were read.
    Listing { key: &'static str, value: T },
    /// `{ "status": "success", key: value }`: a record that was written.
    Saved { key: &'static str, value: T },
    /// `{ "status": "success", "message": ..., "journal_entry_id": id }`: a
    /// journal entry that was posted.
    Posted { journal_entry_id: String },
    /// `{ "template_key": key, "accounts": accounts }`: the accounts of a
    /// template chart.
    Template { template_key: String, accounts: T },
    /// `{ "status": status, "reason": reason }`: a request that failed.
    Failure { status: &'static str, reason: String },
}

/// A status and a body.
pub struct Reply<T> {
    pub status: StatusCode,
    pub body: Body<T>,
}

/// The message that accompanies a posted journal entry.
pub open spec fn spec_posted_message() -> &'static str {
    "Transaction permanently saved to ledger."
}

/// The message that accompanies a posted journal entry.
pub fn posted_message() -> (r: &'static str)
    ensures
        r == spec_posted_message(),
        r == "Transaction permanently saved to ledger.",
{
    "Transaction permanently saved to ledger."
}

/// The reply is a failure with the given status, status word and reason.
pub open spec fn is_failure<T>(r: Reply<T>, status: StatusCode, word: &'static str, reason: Seq<char>) -> bool {
    &&& r.status == status
    &&& r.body matches Body::Failure { status: s, reason: text } && s == word && text@ == reason
}

/// A reply's status matches its body: failures carry a client or server error
/// status, every other body a success status.
pub open spec fn status_fits_body<T>(r: Reply<T>) -> bool {
    match r.body {
        Body::Failure { .. } => r.status.spec_code() >= 400,
        _ => 200 <= r.status.spec_code() < 300,
    }
}

fn failure<T>(status: StatusCode, word: &'static str, reason: &str) -> (r: Reply<T>)
    ensures
        is_failure(r, status, word, reason@),
{
    Reply { status, body: Body::Failure { status: word, reason: String::from_str(reason) } }
}

/// The reply to a request that broke a validation rule: 400, "rejected", with
/// the rule's message.
pub fn rejected<T>(reason: &str) -> (r: Reply<T>)
    ensures
        is_failure(r, StatusCode::BadRequest, "rejected", reason@),
        status_fits_body(r),
{
    failure(StatusCode::BadRequest, "rejected", reason)
}

/// The reply to a request whose validation verdict is `verdict`, when the
/// request must stop there: a rejection for a broken rule, none otherwise.
pub fn validation_reply<T>(verdict: Result<(), &'static str>) -> (r: Option<Reply<T>>)
    ensures
        verdict is Ok <==> r is None,
        verdict matches Err(reason) ==> r matches Some(reply) && is_failure(reply, StatusCode::BadRequest, "rejected", reason@)
            && status_fits_body(reply),
{
    match verdict {
        Ok(()) => None,
        Err(reason) => Some(rejected(reason)),
    }
}

/// The reply to a read of a whole collection: 200 with the records under
/// `key`, or 500 "error" with the store's message.
pub fn list_reply<T>(key: &'static str, outcome: Result<T, String>) -> (r: Reply<T>)
    ensures
        outcome matches Ok(value) ==> r.status == StatusCode::Success && r.body == (Body::Listing { key, value }),
        outcome matches Err(e) ==> is_failure(r, StatusCode::InternalServerError, "error", e@),
        status_fits_body(r),
{
    match outcome {
        Ok(value) => Reply { status: StatusCode::Success, body: Body::Listing { key, value } },
        Err(e) => failure(StatusCode::InternalServerError, "error", e.as_str()),
    }
}

/// The reply to a filtered read: 200 with the records under `key`, or 400
/// "query_rejected" with the store's message.
pub fn query_reply<T>(key: &'static str, outcome: Result<T, String>) -> (r: Reply<T>)
    ensures
        outcome matches Ok(value) ==> r.status == StatusCode::Success && r.body == (Body::Listing { key, value }),
        outcome matches Err(e) ==> is_failure(r, StatusCode::BadRequest, "query_rejected", e@),
        status_fits_body(r),
{
    match outcome {
        Ok(value) => Reply { status: StatusCode::Success, body: Body::Listing { key, value } },
        Err(e) => failure(StatusCode::BadRequest, "query_rejected", e.as_str()),
    }
}

/// The reply to a read of one record: 200 with the record under `key`, 404
/// "not_found" when there is none, or 400 "query_rejected" with the store's
/// message.
pub fn lookup_reply<T>(key: &'static str, subject: Subject, outcome: Result<Option<T>, String>) -> (r: Reply<T>)
    ensures
        outcome matches Ok(Some(value)) ==> r.status == StatusCode::Success && r.body == (Body::Listing { key, value }),
        outcome matches Ok(None) ==> is_failure(r, StatusCode::NotFound, "not_found", subject.spec_not_found_reason()@),
        outcome matches Err(e) ==> is_failure(r, StatusCode::BadRequest, "query_rejected", e@),
        status_fits_body(r),
{
    match outcome {
        Ok(Some(value)) => Reply { status: StatusCode::Success, body: Body::Listing { key, value } },
        Ok(None) => failure(StatusCode::NotFound, "not_found", subject.not_found_reason()),
        Err(e) => failure(StatusCode::BadRequest, "query_rejected", e.as_str()),
    }
}

/// The reply to the creation of a record: 201 "success" with the new record
/// under `key`, or 400 "db_rejected" with the store's message.
pub fn create_reply<T>(key: &'static str, outcome: Result<T, String>) -> (r: Reply<T>)
    ensures
        outcome matches Ok(value) ==> r.status == StatusCode::Created && r.body == (Body::Saved { key, value }),
        outcome matches Err(e) ==> is_failure(r, StatusCode::BadRequest, "db_rejected", e@),
        status_fits_body(r),
{
    match outcome {
        Ok(value) => Reply { status: StatusCode::Created, body: Body::Saved { key, value } },
        Err(e) => failure(StatusCode::BadRequest, "db_rejected", e.as_str()),
    }
}

/// The reply to a change of one record (an update or a deactivation): 200
/// "success" with the changed record under `key`, 404 "not_found" when there is
/// none, or 400 "db_rejected" with the store's message.
pub fn change_reply<T>(key: &'static str, subject: Subject, outcome: Result<Option<T>, String>) -> (r: Reply<T>)
    ensures
        outcome matches Ok(Some(value)) ==> r.status == StatusCode::Success && r.body == (Body::Saved { key, value }),
        outcome matches Ok(None) ==> is_failure(r, StatusCode::NotFound, "not_found", subject.spec_not_found_reason()@),
        outcome matches Err(e) ==> is_failure(r, StatusCode::BadRequest, "db_rejected", e@),
        status_fits_body(r),
{
    match outcome {
        Ok(Some(value)) => Reply { status: StatusCode::Success, body: Body::Saved { key, value } },
        Ok(None) => failure(StatusCode::NotFound, "not_found", subject.not_found_reason()),
        Err(e) => failure(StatusCode::BadRequest, "db_rejected", e.as_str()),
    }
}

/// The reply to the posting of a journal entry: 201 with the new entry's id,
/// or 400 "db_rejected" with the reason the ledger refused it.
pub fn posted_reply(outcome: Result<String, String>) -> (r: Reply<()>)
    ensures
        outcome matches Ok(id) ==> r.status == StatusCode::Created && r.body == (Body::<()>::Posted { journal_entry_id: id }),
        outcome matches Err(e) ==> is_failure(r, StatusCode::BadRequest, "db_rejected", e@),
        status_fits_body(r),
{
    match outcome {
        Ok(id) => Reply { status: StatusCode::Created, body: Body::Posted { journal_entry_id: id } },
        Err(e) => failure(StatusCode::BadRequest, "db_rejected", e.as_str()),
    }
}

/// The reply to a read of a template chart: 200 with the template key and its
/// accounts, or 400 "query_rejected" with the store's message.
pub fn template_reply<T>(template_key: String, outcome: Result<T, String>) -> (r: Reply<T>)
    ensures
        outcome matches Ok(accounts) ==> r.status == StatusCode::Success && r.body == (Body::Template { template_key, accounts }),
        outcome matches Err(e) ==> is_failure(r, StatusCode::BadRequest, "query_rejected", e@),
        status_fits_body(r),
{
    match outcome {
        Ok(accounts) => Reply { status: StatusCode::Success, body: Body::Template { template_key, accounts } },
        Err(e) => failure(StatusCode::BadRequest, "query_rejected", e.as_str()),
    }
}

} // verus!
