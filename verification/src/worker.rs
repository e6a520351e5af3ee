//! The stream consumer: the worker's names, the broker commands it sends, how
//! it reads a reply, and how long it waits between polls.

use crate::envelope::{envelope_of, parse_envelope, EnvelopeError};
use crate::json::{member_models, Members};
use crate::pipeline::{start, Action, ActionModel, Job, JobModel, Outcome, OutcomeModel};
use crate::status::record_key;
use crate::text::optional_str;
use crate::tools::{arg_models, arguments};
use vstd::prelude::*;

verus! {

/// The stream that jobs are read from.
pub const INPUT_STREAM: &'static str = "queue:video_processing";

/// The stream that enriched records are appended to.
pub const OUTPUT_STREAM: &'static str = "queue:ai_processing";

/// The stream that jobs are read from.
pub open spec fn input_stream() -> Seq<char> {
    "queue:video_processing"@
}

/// The stream that enriched records are appended to.
pub open spec fn output_stream() -> Seq<char> {
    "queue:ai_processing"@
}

/// A consumer of the input stream, member of a consumer group.
#[derive(Debug)]
pub struct VideoWorker {
    group_name: String,
    consumer_name: String,
}

/// What a `VideoWorker` holds.
pub struct WorkerModel {
    pub group_name: Seq<char>,
    pub consumer_name: Seq<char>,
}

impl View for VideoWorker {
    type V = WorkerModel;

    closed spec fn view(&self) -> WorkerModel {
        WorkerModel { group_name: self.group_name@, consumer_name: self.consumer_name@ }
    }
}

/// The name of a consumer that was given none, made of a unique text.
pub open spec fn consumer_label(unique: Seq<char>) -> Seq<char> {
    "consumer-"@ + unique
}

/// The worker of a group: under the given name, or under one made of `unique`.
pub open spec fn worker_named(
    group_name: Seq<char>,
    consumer_name: Option<Seq<char>>,
    unique: Seq<char>,
) -> WorkerModel {
    WorkerModel {
        group_name,
        consumer_name: match consumer_name {
            Some(name) => name,
            None => consumer_label(unique),
        },
    }
}

/// The command that creates the consumer group at the end of the input
/// stream, and the stream with it where it does not exist.
pub open spec fn group_creation(worker: WorkerModel) -> Seq<Seq<char>> {
    seq!["XGROUP"@, "CREATE"@, input_stream(), worker.group_name, "$"@, "MKSTREAM"@]
}

/// The command that reads one new message for this consumer, waiting up to
/// five seconds for it.
pub open spec fn group_read(worker: WorkerModel) -> Seq<Seq<char>> {
    seq![
        "XREADGROUP"@,
        "GROUP"@,
        worker.group_name,
        worker.consumer_name,
        "COUNT"@,
        "1"@,
        "BLOCK"@,
        "5000"@,
        "STREAMS"@,
        input_stream(),
        ">"@,
    ]
}

/// The command that acknowledges a message of `stream` for the group.
pub open spec fn acknowledgement(
    worker: WorkerModel,
    stream: Seq<char>,
    message_id: Seq<char>,
) -> Seq<Seq<char>> {
    seq!["XACK"@, stream, worker.group_name, message_id]
}

/// The command that appends a job's encoded record to the output stream.
pub open spec fn publication(job_id: Seq<char>, video_data: Seq<char>) -> Seq<Seq<char>> {
    seq!["XADD"@, output_stream(), "*"@, "job_id"@, job_id, "video_data"@, video_data]
}

/// The command that reads the status record of a job.
pub open spec fn status_read(job_id: Seq<char>) -> Seq<Seq<char>> {
    seq!["GET"@, record_key(job_id)]
}

/// The command that stores the status record of a job.
pub open spec fn status_write(job_id: Seq<char>, record: Seq<char>) -> Seq<Seq<char>> {
    seq!["SET"@, record_key(job_id), record]
}

/// `uuid::Uuid::new_v4` and the text of its result: a random identifier.
/// Nothing is promised of it: each call draws anew.
#[verifier::external_body]
fn unique_id() -> (r: String) {
    uuid::Uuid::new_v4().to_string()
}

/// What the broker answers to a read: the stream, and its messages as pairs
/// of id and fields.
pub type StreamReply = (String, Vec<(String, Vec<(String, String)>)>);

/// A message taken off the input stream.
#[derive(Debug)]
pub struct Delivery {
    pub stream: String,
    pub message_id: String,
    pub fields: Vec<(String, String)>,
}

/// What a `Delivery` holds.
pub struct DeliveryModel {
    pub stream: Seq<char>,
    pub message_id: Seq<char>,
    pub fields: Members,
}

impl View for Delivery {
    type V = DeliveryModel;

    open spec fn view(&self) -> DeliveryModel {
        DeliveryModel {
            stream: self.stream@,
            message_id: self.message_id@,
            fields: member_models(self.fields@),
        }
    }
}

/// The first message of a reply; none where there is no reply or it holds no
/// message.
pub open spec fn first_message(reply: Option<StreamReply>) -> Option<DeliveryModel> {
    match reply {
        Some(r) => if r.1@.len() > 0 {
            Some(
                DeliveryModel {
                    stream: r.0@,
                    message_id: r.1@[0].0@,
                    fields: member_models(r.1@[0].1@),
                },
            )
        } else {
            None
        },
        None => None,
    }
}

/// What a `Delivery` that may be absent holds.
pub open spec fn delivery_model(delivery: Option<Delivery>) -> Option<DeliveryModel> {
    match delivery {
        Some(d) => Some(d@),
        None => None,
    }
}

/// The first message of a reply, if there is one.
pub fn next_message(reply: Option<StreamReply>) -> (r: Option<Delivery>)
    ensures
        delivery_model(r) == first_message(reply),
{
    match reply {
        Some(answer) => {
            let (stream, mut messages) = answer;
            if messages.len() > 0 {
                let (message_id, fields) = messages.remove(0);
                Some(Delivery { stream, message_id, fields })
            } else {
                None
            }
        },
        None => None,
    }
}

/// What the worker makes of a poll.
#[derive(Debug)]
pub enum Intake {
    /// No message came: the worker waits and polls again.
    Idle,
    /// A message came that holds no envelope. It is not acknowledged.
    Rejected(EnvelopeError),
    /// A job begins: `action` is its first action, `stream` the stream to
    /// acknowledge its message on.
    Started { stream: String, job: Job, action: Action },
}

/// What an `Intake` holds.
pub enum IntakeModel {
    Idle,
    Rejected(EnvelopeError),
    Started { stream: Seq<char>, job: JobModel, action: ActionModel },
}

impl View for Intake {
    type V = IntakeModel;

    open spec fn view(&self) -> IntakeModel {
        match self {
            Intake::Idle => IntakeModel::Idle,
            Intake::Rejected(e) => IntakeModel::Rejected(*e),
            Intake::Started { stream, job, action } => IntakeModel::Started {
                stream: stream@,
                job: job@,
                action: action@,
            },
        }
    }
}

/// What the worker makes of a message: the start of the job whose envelope
/// the message holds, or a rejection.
pub open spec fn intake_of(delivery: Option<DeliveryModel>) -> IntakeModel {
    match delivery {
        None => IntakeModel::Idle,
        Some(d) => match envelope_of(d.fields) {
            Err(e) => IntakeModel::Rejected(e),
            Ok(envelope) => IntakeModel::Started {
                stream: d.stream,
                job: start(envelope, d.message_id).0,
                action: start(envelope, d.message_id).1,
            },
        },
    }
}

/// How a turn of the worker loop ended.
#[derive(Clone, Copy, Debug, PartialEq, Eq, Structural)]
pub enum Turn {
    /// A job was taken to its end, completed or failed.
    Processed,
    /// There was no job.
    Idle,
    /// The broker or the status store failed, or a message held no envelope.
    Failed,
}

/// The seconds to wait after a turn: none after a job, one when there was
/// none, five after a failure.
pub open spec fn pause_seconds(turn: Turn) -> nat {
    match turn {
        Turn::Processed => 0,
        Turn::Idle => 1,
        Turn::Failed => 5,
    }
}

/// How the turn ended in which a job ended with `outcome`.
pub open spec fn turn_after(outcome: OutcomeModel) -> Turn {
    match outcome {
        OutcomeModel::Completed => Turn::Processed,
        OutcomeModel::Failed => Turn::Processed,
        OutcomeModel::Aborted(_) => Turn::Failed,
    }
}

impl Turn {
    /// How the turn ended in which a job ended with `outcome`.
    pub fn after(outcome: &Outcome) -> (r: Turn)
        ensures
            r == turn_after(outcome@),
    {
        match outcome {
            Outcome::Completed => Turn::Processed,
            Outcome::Failed => Turn::Processed,
            Outcome::Aborted(_) => Turn::Failed,
        }
    }
}

impl VideoWorker {
    /// The worker of a group: under the given name, or under one made of
    /// `unique`.
    pub fn named(group_name: &str, consumer_name: Option<&str>, unique: &str) -> (r: VideoWorker)
        ensures
            r@ == worker_named(group_name@, optional_str(consumer_name), unique@),
    {
        let consumer_name = match consumer_name {
            Some(name) => name.to_string(),
            None => "consumer-".to_string().concat(unique),
        };
        VideoWorker { group_name: group_name.to_string(), consumer_name }
    }

    /// The worker of a group: under the given name, or under a new unique one.
    pub fn new(group_name: &str, consumer_name: Option<&str>) -> (r: VideoWorker)
        ensures
            r@.group_name == group_name@,
            consumer_name matches Some(name) ==> r@.consumer_name == name@,
            consumer_name is None ==> exists|unique: Seq<char>|
                r@.consumer_name == #[trigger] consumer_label(unique),
    {
        match consumer_name {
            Some(_) => VideoWorker::named(group_name, consumer_name, ""),
            None => {
                let unique = unique_id();
                let r = VideoWorker::named(group_name, consumer_name, unique.as_str());
                assert(r@.consumer_name == consumer_label(unique@));
                r
            },
        }
    }

    /// The name of the consumer group.
    pub fn group_name(&self) -> (r: &String)
        ensures
            r@ == self@.group_name,
    {
        &self.group_name
    }

    /// The name of this consumer.
    pub fn consumer_name(&self) -> (r: &String)
        ensures
            r@ == self@.consumer_name,
    {
        &self.consumer_name
    }

    /// The command that creates the consumer group. That the group exists
    /// already is no failure.
    pub fn create_group_command(&self) -> (r: Vec<String>)
        ensures
            arg_models(r@) == group_creation(self@),
    {
        let texts = vec![
            "XGROUP",
            "CREATE",
            "queue:video_processing",
            self.group_name.as_str(),
            "$",
            "MKSTREAM",
        ];
        let r = arguments(&texts);
        assert(arg_models(r@) =~= group_creation(self@));
        r
    }

    /// The command that reads the next message.
    pub fn read_command(&self) -> (r: Vec<String>)
        ensures
            arg_models(r@) == group_read(self@),
    {
        let texts = vec![
            "XREADGROUP",
            "GROUP",
            self.group_name.as_str(),
            self.consumer_name.as_str(),
            "COUNT",
            "1",
            "BLOCK",
            "5000",
            "STREAMS",
            "queue:video_processing",
            ">",
        ];
        let r = arguments(&texts);
        assert(arg_models(r@) =~= group_read(self@));
        r
    }

    /// The command that acknowledges a message.
    pub fn ack_message(&self, stream: &str, message_id: &str) -> (r: Vec<String>)
        ensures
            arg_models(r@) == acknowledgement(self@, stream@, message_id@),
    {
        let texts = vec!["XACK", stream, self.group_name.as_str(), message_id];
        let r = arguments(&texts);
        assert(arg_models(r@) =~= acknowledgement(self@, stream@, message_id@));
        r
    }

    /// Takes the broker's reply to a read: starts the job of its first
    /// message, rejects the message where it holds no envelope, or finds that
    /// there is nothing to do.
    pub fn process_next_job(&self, reply: Option<StreamReply>) -> (r: Intake)
        ensures
            r@ == intake_of(first_message(reply)),
            r matches Intake::Started { job, .. } ==> job@.wf(),
    {
        match next_message(reply) {
            None => Intake::Idle,
            Some(delivery) => match parse_envelope(&delivery.fields) {
                Err(e) => Intake::Rejected(e),
                Ok(envelope) => {
                    let (job, action) = Job::begin(envelope, delivery.message_id);
                    Intake::Started { stream: delivery.stream, job, action }
                },
            },
        }
    }

    /// The seconds the worker loop waits after a turn before it polls again.
    pub fn run(&self, turn: Turn) -> (seconds: u64)
        ensures
            seconds == pause_seconds(turn),
    {
        match turn {
            Turn::Processed => 0,
            Turn::Idle => 1,
            Turn::Failed => 5,
        }
    }
}

/// The command that appends a job's encoded record to the output stream.
pub fn publish_command(job_id: &str, video_data: &str) -> (r: Vec<String>)
    ensures
        arg_models(r@) == publication(job_id@, video_data@),
{
    let texts = vec!["XADD", "queue:ai_processing", "*", "job_id", job_id, "video_data", video_data];
    let r = arguments(&texts);
    assert(arg_models(r@) =~= publication(job_id@, video_data@));
    r
}

/// The command that reads the status record of a job.
pub fn status_read_command(job_id: &str) -> (r: Vec<String>)
    ensures
        arg_models(r@) == status_read(job_id@),
{
    let key = crate::status::status_key(job_id);
    let texts = vec!["GET", key.as_str()];
    let r = arguments(&texts);
    assert(arg_models(r@) =~= status_read(job_id@));
    r
}

/// The command that stores the status record of a job.
pub fn status_write_command(job_id: &str, record: &str) -> (r: Vec<String>)
    ensures
        arg_models(r@) == status_write(job_id@, record@),
{
    let key = crate::status::status_key(job_id);
    let texts = vec!["SET", key.as_str(), record];
    let r = arguments(&texts);
    assert(arg_models(r@) =~= status_write(job_id@, record@));
    r
}

} // verus!
