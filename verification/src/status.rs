//! The status record of a job: a JSON object under the key `job:<id>`.
//!
//! The worker only changes records that exist. It reads the record, sets the
//! members it is responsible for, keeps every other member as it was written,
//! and hands the new text back to be stored.

use crate::json::{
    assign, json_members, json_quoted, lemma_lookup_assigned, lemma_lookup_other, lookup,
    object_text, JsonObject, Members,
};
use crate::text::{decimal_digits, optional_str};
use vstd::prelude::*;

verus! {

/// Why a status record could not be changed.
#[derive(Clone, Copy, Debug, PartialEq, Eq, Structural)]
pub enum StatusError {
    /// The stored text is no JSON object.
    Malformed,
}

/// The key under which the status record of a job is stored.
pub open spec fn record_key(job_id: Seq<char>) -> Seq<char> {
    "job:"@ + job_id
}

/// The key under which the status record of a job is stored.
pub fn status_key(job_id: &str) -> (r: String)
    ensures
        r@ == record_key(job_id@),
{
    "job:".to_string().concat(job_id)
}

/// The members of a record after a status update.
pub open spec fn stamped(
    members: Members,
    status: Seq<char>,
    progress: nat,
    now: Seq<char>,
) -> Members {
    assign(
        assign(
            assign(members, "status"@, json_quoted(status)),
            "progress"@,
            decimal_digits(progress),
        ),
        "updated_at"@,
        json_quoted(now),
    )
}

/// What a change to a status record yields: nothing to store where there is
/// no record, an error where the record is no JSON object, and otherwise the
/// text of the record with its members changed by `change`.
pub open spec fn changed(record: Option<Seq<char>>, change: spec_fn(Members) -> Members) -> Result<
    Option<Seq<char>>,
    StatusError,
> {
    match record {
        None => Ok(None),
        Some(text) => match json_members(text) {
            None => Err(StatusError::Malformed),
            Some(members) => Ok(Some(object_text(change(members)))),
        },
    }
}

/// What a status update at the time `now` yields.
pub open spec fn status_update(
    record: Option<Seq<char>>,
    status: Seq<char>,
    progress: nat,
    now: Seq<char>,
) -> Result<Option<Seq<char>>, StatusError> {
    changed(record, |members: Members| stamped(members, status, progress, now))
}

/// What noting an error message on a record yields.
pub open spec fn failure_note(record: Option<Seq<char>>, message: Seq<char>) -> Result<
    Option<Seq<char>>,
    StatusError,
> {
    changed(record, |members: Members| assign(members, "error_message"@, json_quoted(message)))
}

/// Whether `result` is what `expected` describes.
pub open spec fn yields(
    result: Result<Option<String>, StatusError>,
    expected: Result<Option<Seq<char>>, StatusError>,
) -> bool {
    match result {
        Ok(None) => expected == Ok::<Option<Seq<char>>, StatusError>(None),
        Ok(Some(text)) => expected == Ok::<Option<Seq<char>>, StatusError>(Some(text@)),
        Err(e) => expected == Err::<Option<Seq<char>>, StatusError>(e),
    }
}

/// After a status update the record holds the new status, progress and time
/// under their keys, and under every other key what it held before.
pub proof fn lemma_stamped_members(
    members: Members,
    status: Seq<char>,
    progress: nat,
    now: Seq<char>,
    other: Seq<char>,
)
    ensures
        lookup(stamped(members, status, progress, now), "status"@) == Some(json_quoted(status)),
        lookup(stamped(members, status, progress, now), "progress"@) == Some(
            decimal_digits(progress),
        ),
        lookup(stamped(members, status, progress, now), "updated_at"@) == Some(json_quoted(now)),
        other != "status"@ && other != "progress"@ && other != "updated_at"@ ==> lookup(
            stamped(members, status, progress, now),
            other,
        ) == lookup(members, other),
{
    reveal_strlit("status");
    reveal_strlit("progress");
    reveal_strlit("updated_at");
    let first = assign(members, "status"@, json_quoted(status));
    let second = assign(first, "progress"@, decimal_digits(progress));
    assert("status"@[0] != "progress"@[0]);
    assert("status"@[0] != "updated_at"@[0]);
    assert("progress"@[0] != "updated_at"@[0]);
    lemma_lookup_assigned(members, "status"@, json_quoted(status));
    lemma_lookup_other(first, "progress"@, decimal_digits(progress), "status"@);
    lemma_lookup_other(second, "updated_at"@, json_quoted(now), "status"@);
    lemma_lookup_assigned(first, "progress"@, decimal_digits(progress));
    lemma_lookup_other(second, "updated_at"@, json_quoted(now), "progress"@);
    lemma_lookup_assigned(second, "updated_at"@, json_quoted(now));
    if other != "status"@ && other != "progress"@ && other != "updated_at"@ {
        lemma_lookup_other(members, "status"@, json_quoted(status), other);
        lemma_lookup_other(first, "progress"@, decimal_digits(progress), other);
        lemma_lookup_other(second, "updated_at"@, json_quoted(now), other);
    }
}

/// `chrono::Utc::now().to_rfc3339()`: the current time in UTC, written as
/// RFC 3339 says. Nothing is promised of the text: it depends on the clock.
#[verifier::external_body]
fn current_time() -> (r: String) {
    chrono::Utc::now().to_rfc3339()
}

/// Updates a status record as of the time `now`: sets `status`, `progress`
/// and `updated_at`. `record` is the stored text, absent where no record
/// exists; the result is the text to store, absent where nothing is to be
/// stored.
pub fn stamp_status(record: Option<&str>, status: &str, progress: u32, now: &str) -> (r: Result<
    Option<String>,
    StatusError,
>)
    ensures
        yields(r, status_update(optional_str(record), status@, progress as nat, now@)),
{
    match record {
        None => Ok(None),
        Some(text) => match JsonObject::parse(text) {
            None => Err(StatusError::Malformed),
            Some(mut object) => {
                object.set_string("status", status);
                object.set_unsigned("progress", progress);
                object.set_string("updated_at", now);
                Ok(Some(object.render()))
            },
        },
    }
}

/// Updates a status record as of now. A record that does not exist is left
/// alone, and that is a success.
pub fn update_job_status(record: Option<&str>, status: &str, progress: u32) -> (r: Result<
    Option<String>,
    StatusError,
>)
    ensures
        record is None ==> r == Ok::<Option<String>, StatusError>(None),
        exists|now: Seq<char>|
            yields(r, #[trigger] status_update(optional_str(record), status@, progress as nat, now)),
{
    let now = current_time();
    let r = stamp_status(record, status, progress, now.as_str());
    assert(yields(r, status_update(optional_str(record), status@, progress as nat, now@)));
    r
}

/// Notes the error message of a failed job on its status record. It is called
/// on the record as it stands after the update to status `failed`. A record
/// that does not exist is left alone, and that is a success.
pub fn fail_job(record: Option<&str>, message: &str) -> (r: Result<Option<String>, StatusError>)
    ensures
        record is None ==> r == Ok::<Option<String>, StatusError>(None),
        yields(r, failure_note(optional_str(record), message@)),
{
    match record {
        None => Ok(None),
        Some(text) => match JsonObject::parse(text) {
            None => Err(StatusError::Malformed),
            Some(mut object) => {
                object.set_string("error_message", message);
                Ok(Some(object.render()))
            },
        },
    }
}

} // verus!
