//! The job envelope that arrives on the input stream.
//!
//! A message carries the envelope either as one JSON object under the field
//! `data`, or as the plain fields `job_id` and `url`.

use crate::json::{
    find, json_valid, lookup, member_models, members_or_none, read_valid, string_at, JsonObject,
    Members,
};
use crate::text::optional_text;
use vstd::prelude::*;

verus! {

/// A request to process one video.
#[derive(Debug)]
pub struct JobEnvelope {
    pub job_id: String,
    pub url: String,
}

/// What a `JobEnvelope` holds.
pub struct EnvelopeModel {
    pub job_id: Seq<char>,
    pub url: Seq<char>,
}

impl View for JobEnvelope {
    type V = EnvelopeModel;

    open spec fn view(&self) -> EnvelopeModel {
        EnvelopeModel { job_id: self.job_id@, url: self.url@ }
    }
}

impl Clone for JobEnvelope {
    fn clone(&self) -> (r: Self)
        ensures
            r@ == self@,
    {
        JobEnvelope { job_id: self.job_id.clone(), url: self.url.clone() }
    }
}

/// Why a message holds no envelope.
#[derive(Clone, Copy, Debug, PartialEq, Eq, Structural)]
pub enum EnvelopeError {
    /// There is neither a decodable `data` nor a field `job_id`.
    Undecodable,
    /// The decoded `data` names no job.
    MissingJobId,
    /// No URL is given.
    MissingUrl,
}

/// The text that describes the error.
pub open spec fn error_text(error: EnvelopeError) -> Seq<char> {
    match error {
        EnvelopeError::Undecodable => "Failed to parse job data"@,
        EnvelopeError::MissingJobId => "Job ID not found"@,
        EnvelopeError::MissingUrl => "URL not found"@,
    }
}

impl EnvelopeError {
    /// The text that describes the error.
    pub fn message(&self) -> (r: &'static str)
        ensures
            r@ == error_text(*self),
    {
        match self {
            EnvelopeError::Undecodable => "Failed to parse job data",
            EnvelopeError::MissingJobId => "Job ID not found",
            EnvelopeError::MissingUrl => "URL not found",
        }
    }
}

/// The envelope made of a job id and a URL, where both are there. A missing
/// URL is reported as such; a missing job id as `without_id`.
pub open spec fn assembled(
    job_id: Option<Seq<char>>,
    url: Option<Seq<char>>,
    without_id: EnvelopeError,
) -> Result<EnvelopeModel, EnvelopeError> {
    match job_id {
        None => Err(without_id),
        Some(id) => match url {
            None => Err(EnvelopeError::MissingUrl),
            Some(u) => Ok(EnvelopeModel { job_id: id, url: u }),
        },
    }
}

/// The envelope in the plain fields of a message.
pub open spec fn flat_envelope(fields: Members) -> Result<EnvelopeModel, EnvelopeError> {
    assembled(lookup(fields, "job_id"@), lookup(fields, "url"@), EnvelopeError::Undecodable)
}

/// The envelope in a decoded `data` document: its strings `job_id` and `url`.
pub open spec fn nested_envelope(document: Members) -> Result<EnvelopeModel, EnvelopeError> {
    assembled(
        string_at(document, "job_id"@),
        string_at(document, "url"@),
        EnvelopeError::MissingJobId,
    )
}

/// The envelope that the fields of a message hold. A field `data` that is
/// JSON decides alone; otherwise the plain fields are read.
pub open spec fn envelope_of(fields: Members) -> Result<EnvelopeModel, EnvelopeError> {
    match lookup(fields, "data"@) {
        Some(data) => if json_valid(data) {
            nested_envelope(members_or_none(data))
        } else {
            flat_envelope(fields)
        },
        None => flat_envelope(fields),
    }
}

/// Makes an envelope of a job id and a URL, where both are there.
pub fn assemble(job_id: Option<String>, url: Option<String>, without_id: EnvelopeError) -> (r:
    Result<JobEnvelope, EnvelopeError>)
    ensures
        r is Ok <==> assembled(optional_text(job_id), optional_text(url), without_id) is Ok,
        r matches Ok(envelope) ==> envelope@ == assembled(
            optional_text(job_id),
            optional_text(url),
            without_id,
        )->Ok_0,
        r matches Err(e) ==> e == assembled(optional_text(job_id), optional_text(url), without_id)->Err_0,
{
    match job_id {
        None => Err(without_id),
        Some(id) => match url {
            None => Err(EnvelopeError::MissingUrl),
            Some(u) => Ok(JobEnvelope { job_id: id, url: u }),
        },
    }
}

fn field(fields: &Vec<(String, String)>, key: &str) -> (r: Option<String>)
    ensures
        optional_text(r) == lookup(member_models(fields@), key@),
{
    match find(fields, key) {
        Some(value) => Some(value.clone()),
        None => None,
    }
}

/// Reads the envelope out of the fields of a message.
pub fn parse_envelope(fields: &Vec<(String, String)>) -> (r: Result<JobEnvelope, EnvelopeError>)
    ensures
        r is Ok <==> envelope_of(member_models(fields@)) is Ok,
        r matches Ok(envelope) ==> envelope@ == envelope_of(member_models(fields@))->Ok_0,
        r matches Err(e) ==> e == envelope_of(member_models(fields@))->Err_0,
{
    match find(fields, "data") {
        Some(data) => {
            if read_valid(data.as_str()) {
                let document = JsonObject::parse_or_empty(data.as_str());
                return assemble(
                    document.string_member("job_id"),
                    document.string_member("url"),
                    EnvelopeError::MissingJobId,
                );
            }
        },
        None => {},
    }
    assemble(field(fields, "job_id"), field(fields, "url"), EnvelopeError::Undecodable)
}

} // verus!
