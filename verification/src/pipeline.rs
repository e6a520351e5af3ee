//! The per-job state machine.
//!
//! A job is a value that remembers which outside operation is pending. The
//! caller performs the operation that an `Action` names and reports how it
//! ended as an `Event`; `Job::advance` answers with the next state and the next
//! action. The machine itself is the spec function `step`, and `advance`
//! computes exactly that.

use crate::envelope::{EnvelopeModel, JobEnvelope};
use crate::ocr::{
    lemma_with_texts_ascending, outcome_models, process_frames, with_texts, OcrModel, OcrOutcome,
};
use crate::scalar::Scalar;
use crate::tools::{description, ExternalToolError, ToolErrorModel};
use crate::text::optional_text;
use crate::video::{
    ascending, frame_models, in_order, lemma_in_order_ascending, sort_frames, FrameData,
    FrameModel, VideoInfo, VideoInfoModel,
};
use vstd::prelude::*;

verus! {

/// The status values that the worker writes into a job's status record.
#[derive(Clone, Copy, Debug, PartialEq, Eq, Structural)]
pub enum JobStatus {
    Downloading,
    ProcessingVideo,
    ExtractingOcr,
    TranscribingAudio,
    AiProcessing,
    Failed,
}

/// The text under which a status is stored.
pub open spec fn status_name(status: JobStatus) -> Seq<char> {
    match status {
        JobStatus::Downloading => "downloading"@,
        JobStatus::ProcessingVideo => "processing_video"@,
        JobStatus::ExtractingOcr => "extracting_ocr"@,
        JobStatus::TranscribingAudio => "transcribing_audio"@,
        JobStatus::AiProcessing => "ai_processing"@,
        JobStatus::Failed => "failed"@,
    }
}

/// The progress, in percent, that is stored with a status.
pub open spec fn status_progress(status: JobStatus) -> nat {
    match status {
        JobStatus::Downloading => 10,
        JobStatus::ProcessingVideo => 25,
        JobStatus::ExtractingOcr => 40,
        JobStatus::TranscribingAudio => 60,
        JobStatus::AiProcessing => 80,
        JobStatus::Failed => 0,
    }
}

impl JobStatus {
    /// The text under which the status is stored.
    pub fn name(&self) -> (r: &'static str)
        ensures
            r@ == status_name(*self),
    {
        match self {
            JobStatus::Downloading => "downloading",
            JobStatus::ProcessingVideo => "processing_video",
            JobStatus::ExtractingOcr => "extracting_ocr",
            JobStatus::TranscribingAudio => "transcribing_audio",
            JobStatus::AiProcessing => "ai_processing",
            JobStatus::Failed => "failed",
        }
    }

    /// The progress, in percent, that is stored with the status.
    pub fn progress(&self) -> (r: u32)
        ensures
            r == status_progress(*self),
    {
        match self {
            JobStatus::Downloading => 10,
            JobStatus::ProcessingVideo => 25,
            JobStatus::ExtractingOcr => 40,
            JobStatus::TranscribingAudio => 60,
            JobStatus::AiProcessing => 80,
            JobStatus::Failed => 0,
        }
    }
}

/// The outside operation that a job is waiting for.
#[derive(Clone, Copy, Debug, PartialEq, Eq, Structural)]
pub enum Phase {
    /// Status `downloading` is being written.
    AnnounceDownload,
    /// The video is being downloaded.
    Download,
    /// Status `processing_video` is being written.
    AnnounceProcessing,
    /// The video is being probed.
    Probe,
    /// Status `extracting_ocr` is being written.
    AnnounceExtraction,
    /// Frames are being extracted.
    ExtractFrames,
    /// Text is being read off the frames.
    Recognize,
    /// Status `transcribing_audio` is being written.
    AnnounceTranscription,
    /// The audio track is being extracted.
    ExtractAudio,
    /// The audio is being transcribed.
    Transcribe,
    /// Status `ai_processing` is being written.
    AnnouncePublication,
    /// The enriched record is being appended to the downstream stream.
    Publish,
    /// Status `failed` is being written.
    AnnounceFailure,
    /// The error message is being written.
    NoteFailure,
    /// The message of a published job is being acknowledged.
    AcknowledgeCompleted,
    /// The message of a failed job is being acknowledged.
    AcknowledgeFailed,
    /// Nothing is pending: the job has ended.
    Finished,
}

/// How a job ended.
#[derive(Debug)]
pub enum Outcome {
    /// The record was published and the message acknowledged.
    Completed,
    /// A fatal stage failed; the job was marked failed and the message acknowledged.
    Failed,
    /// The status store or the broker failed, or an event did not fit the
    /// pending operation. The message was not acknowledged by this run.
    Aborted(String),
}

/// What an `Outcome` holds.
pub enum OutcomeModel {
    Completed,
    Failed,
    Aborted(Seq<char>),
}

impl View for Outcome {
    type V = OutcomeModel;

    open spec fn view(&self) -> OutcomeModel {
        match self {
            Outcome::Completed => OutcomeModel::Completed,
            Outcome::Failed => OutcomeModel::Failed,
            Outcome::Aborted(reason) => OutcomeModel::Aborted(reason@),
        }
    }
}

/// Width and height of the picture, in pixels.
#[derive(Clone, Copy, Debug, PartialEq, Eq, Structural)]
pub struct Resolution {
    pub width: u32,
    pub height: u32,
}

/// The record that is published downstream for a processed video.
#[derive(Debug)]
pub struct EnrichedRecord {
    pub job_id: String,
    pub video_path: String,
    pub duration_seconds: Scalar,
    pub resolution: Resolution,
    pub fps: Scalar,
    pub frames: Vec<FrameData>,
    pub audio_path: Option<String>,
    pub transcription: String,
}

/// What an `EnrichedRecord` holds.
pub struct RecordModel {
    pub job_id: Seq<char>,
    pub video_path: Seq<char>,
    pub duration_seconds: Scalar,
    pub resolution: Resolution,
    pub fps: Scalar,
    pub frames: Seq<FrameModel>,
    pub audio_path: Option<Seq<char>>,
    pub transcription: Seq<char>,
}

impl View for EnrichedRecord {
    type V = RecordModel;

    open spec fn view(&self) -> RecordModel {
        RecordModel {
            job_id: self.job_id@,
            video_path: self.video_path@,
            duration_seconds: self.duration_seconds,
            resolution: self.resolution,
            fps: self.fps,
            frames: frame_models(self.frames@),
            audio_path: optional_text(self.audio_path),
            transcription: self.transcription@,
        }
    }
}

/// How the pending operation ended.
#[derive(Debug)]
pub enum Event {
    /// It succeeded and yields nothing (a status write, a publish, an acknowledgement).
    Done,
    /// It failed; the text says why.
    Failed(String),
    /// It produced the file at this path (download, audio extraction).
    File(String),
    /// It produced the video's metadata (probe).
    Info(VideoInfo),
    /// It produced these frames (frame extraction).
    Frames(Vec<FrameData>),
    /// It ended like this for each of the job's frames, in their order (text
    /// recognition).
    Texts(Vec<OcrOutcome>),
    /// It produced this transcript (transcription).
    Transcript(String),
}

/// What an `Event` holds.
pub enum EventModel {
    Done,
    Failed(Seq<char>),
    File(Seq<char>),
    Info(VideoInfoModel),
    Frames(Seq<FrameModel>),
    Texts(Seq<OcrModel>),
    Transcript(Seq<char>),
}

impl View for Event {
    type V = EventModel;

    open spec fn view(&self) -> EventModel {
        match self {
            Event::Done => EventModel::Done,
            Event::Failed(detail) => EventModel::Failed(detail@),
            Event::File(path) => EventModel::File(path@),
            Event::Info(info) => EventModel::Info(info@),
            Event::Frames(frames) => EventModel::Frames(frame_models(frames@)),
            Event::Texts(outcomes) => EventModel::Texts(outcome_models(outcomes@)),
            Event::Transcript(text) => EventModel::Transcript(text@),
        }
    }
}

/// The event of an adapter that yields a file: its path, or the description
/// of its failure.
pub open spec fn file_event(result: Result<Seq<char>, ToolErrorModel>) -> EventModel {
    match result {
        Ok(path) => EventModel::File(path),
        Err(e) => EventModel::Failed(description(e)),
    }
}

/// The event of the probe: the metadata, or the description of its failure.
pub open spec fn info_event(result: Result<VideoInfoModel, ToolErrorModel>) -> EventModel {
    match result {
        Ok(info) => EventModel::Info(info),
        Err(e) => EventModel::Failed(description(e)),
    }
}

/// The event of frame extraction: the frames, or the description of its
/// failure.
pub open spec fn frames_event(result: Result<Seq<FrameModel>, ToolErrorModel>) -> EventModel {
    match result {
        Ok(frames) => EventModel::Frames(frames),
        Err(e) => EventModel::Failed(description(e)),
    }
}

impl Event {
    /// The event that reports what the download or the audio adapter yielded.
    pub fn of_file(result: Result<String, ExternalToolError>) -> (r: Event)
        ensures
            r@ == file_event(
                match result {
                    Ok(path) => Ok(path@),
                    Err(e) => Err(e@),
                },
            ),
    {
        match result {
            Ok(path) => Event::File(path),
            Err(e) => Event::Failed(e.describe()),
        }
    }

    /// The event that reports what the probe yielded.
    pub fn of_info(result: Result<VideoInfo, ExternalToolError>) -> (r: Event)
        ensures
            r@ == info_event(
                match result {
                    Ok(info) => Ok(info@),
                    Err(e) => Err(e@),
                },
            ),
    {
        match result {
            Ok(info) => Event::Info(info),
            Err(e) => Event::Failed(e.describe()),
        }
    }

    /// The event that reports what frame extraction yielded.
    pub fn of_frames(result: Result<Vec<FrameData>, ExternalToolError>) -> (r: Event)
        ensures
            r@ == frames_event(
                match result {
                    Ok(frames) => Ok(frame_models(frames@)),
                    Err(e) => Err(e@),
                },
            ),
    {
        match result {
            Ok(frames) => Event::Frames(frames),
            Err(e) => Event::Failed(e.describe()),
        }
    }
}

/// The operation that the caller is to perform next.
#[derive(Debug)]
pub enum Action {
    /// Write this status, with its progress, into the job's status record.
    UpdateStatus(JobStatus),
    /// Download the video from the envelope's URL.
    Download,
    /// Probe the downloaded video.
    Probe,
    /// Extract frames from the downloaded video.
    ExtractFrames,
    /// Read text off the job's frames.
    RunOcr,
    /// Extract the audio track of the downloaded video.
    ExtractAudio,
    /// Transcribe the extracted audio.
    Transcribe,
    /// Append this record to the downstream stream.
    Publish(EnrichedRecord),
    /// Write this error message into the job's status record.
    NoteError(String),
    /// Acknowledge the job's message on the input stream.
    Acknowledge,
    /// Stop: the job has ended in this way.
    Finish(Outcome),
}

/// What an `Action` holds.
pub enum ActionModel {
    UpdateStatus(JobStatus),
    Download,
    Probe,
    ExtractFrames,
    RunOcr,
    ExtractAudio,
    Transcribe,
    Publish(RecordModel),
    NoteError(Seq<char>),
    Acknowledge,
    Finish(OutcomeModel),
}

impl View for Action {
    type V = ActionModel;

    open spec fn view(&self) -> ActionModel {
        match self {
            Action::UpdateStatus(status) => ActionModel::UpdateStatus(*status),
            Action::Download => ActionModel::Download,
            Action::Probe => ActionModel::Probe,
            Action::ExtractFrames => ActionModel::ExtractFrames,
            Action::RunOcr => ActionModel::RunOcr,
            Action::ExtractAudio => ActionModel::ExtractAudio,
            Action::Transcribe => ActionModel::Transcribe,
            Action::Publish(record) => ActionModel::Publish(record@),
            Action::NoteError(message) => ActionModel::NoteError(message@),
            Action::Acknowledge => ActionModel::Acknowledge,
            Action::Finish(outcome) => ActionModel::Finish(outcome@),
        }
    }
}

/// What a `Job` holds.
pub struct JobModel {
    pub envelope: EnvelopeModel,
    pub message_id: Seq<char>,
    pub phase: Phase,
    pub video_path: Option<Seq<char>>,
    pub info: Option<VideoInfoModel>,
    pub frames: Seq<FrameModel>,
    pub audio_path: Option<Seq<char>>,
    pub transcription: Seq<char>,
    pub failure: Option<Seq<char>>,
}

impl JobModel {
    /// A job holds what its pending operation and the ones after it need: the
    /// video's path from the end of the download until the record is built,
    /// the metadata from the end of the probe until then, and the error
    /// message while status `failed` is being written. Its frames are in
    /// ascending order of their timestamps.
    pub open spec fn wf(self) -> bool {
        &&& has_video(self.phase) ==> self.video_path is Some
        &&& has_info(self.phase) ==> self.info is Some
        &&& self.phase is AnnounceFailure ==> self.failure is Some
        &&& ascending(self.frames)
    }
}

/// The phases in which a job holds the path of the downloaded video.
pub open spec fn has_video(phase: Phase) -> bool {
    phase is AnnounceProcessing || phase is Probe || has_info(phase)
}

/// The phases in which a job holds the video's metadata.
pub open spec fn has_info(phase: Phase) -> bool {
    ||| phase is AnnounceExtraction
    ||| phase is ExtractFrames
    ||| phase is Recognize
    ||| phase is AnnounceTranscription
    ||| phase is ExtractAudio
    ||| phase is Transcribe
    ||| phase is AnnouncePublication
}

/// The reason given when an event does not fit the pending operation.
pub open spec fn unexpected_event() -> Seq<char> {
    "unexpected event"@
}

/// The reason given when an event arrives for a job that has ended.
pub open spec fn nothing_pending() -> Seq<char> {
    "no operation is pending"@
}

/// The error message of a job whose download failed.
pub open spec fn download_failure(detail: Seq<char>) -> Seq<char> {
    "Download failed: "@ + detail
}

/// The error message of a job whose probe failed.
pub open spec fn probe_failure(detail: Seq<char>) -> Seq<char> {
    "Video processing failed: "@ + detail
}

/// The job a new envelope starts as, and the first action: the status
/// `downloading` is written before anything else happens.
pub open spec fn start(envelope: EnvelopeModel, message_id: Seq<char>) -> (JobModel, ActionModel) {
    (
        JobModel {
            envelope,
            message_id,
            phase: Phase::AnnounceDownload,
            video_path: None,
            info: None,
            frames: Seq::empty(),
            audio_path: None,
            transcription: Seq::empty(),
            failure: None,
        },
        ActionModel::UpdateStatus(JobStatus::Downloading),
    )
}

/// The job moves on to `phase` and asks for `action`.
pub open spec fn proceed(job: JobModel, phase: Phase, action: ActionModel) -> (
    JobModel,
    ActionModel,
) {
    (JobModel { phase, ..job }, action)
}

/// The job ends without an acknowledgement.
pub open spec fn abort(job: JobModel, reason: Seq<char>) -> (JobModel, ActionModel) {
    proceed(job, Phase::Finished, ActionModel::Finish(OutcomeModel::Aborted(reason)))
}

/// An operation that must succeed did not report success: the job ends
/// without an acknowledgement, with the failure's text where there is one.
pub open spec fn interrupted(job: JobModel, event: EventModel) -> (JobModel, ActionModel) {
    match event {
        EventModel::Failed(detail) => abort(job, detail),
        _ => abort(job, unexpected_event()),
    }
}

/// A fatal stage failed: the job remembers the error message and has status
/// `failed` written first.
pub open spec fn fail(job: JobModel, message: Seq<char>) -> (JobModel, ActionModel) {
    proceed(
        JobModel { failure: Some(message), ..job },
        Phase::AnnounceFailure,
        ActionModel::UpdateStatus(JobStatus::Failed),
    )
}

/// The record that is published for a job whose stages are behind it.
pub open spec fn record_of(job: JobModel) -> RecordModel
    recommends
        job.video_path is Some,
        job.info is Some,
{
    RecordModel {
        job_id: job.envelope.job_id,
        video_path: job.video_path->0,
        duration_seconds: job.info->0.duration_seconds,
        resolution: Resolution { width: job.info->0.width, height: job.info->0.height },
        fps: job.info->0.fps,
        frames: job.frames,
        audio_path: job.audio_path,
        transcription: job.transcription,
    }
}

/// The state machine: the job after `event` has ended its pending operation,
/// and the operation to perform next.
///
/// Status writes, the publish and the acknowledgement must succeed; when one
/// fails the job is aborted and its message stays unacknowledged. After a
/// failed download or probe the job is marked failed: first status `failed`
/// is written, then the error message, and then the message is acknowledged.
/// Extracted frames are put in ascending order of their timestamps, and the
/// texts recognised on them are attached to them in place. Failed frame
/// extraction or text recognition leaves the job without frames, failed audio
/// extraction without audio and transcript, a failed transcription without
/// transcript; none of these stops the job.
pub open spec fn step(job: JobModel, event: EventModel) -> (JobModel, ActionModel) {
    match job.phase {
        Phase::AnnounceDownload => match event {
            EventModel::Done => proceed(job, Phase::Download, ActionModel::Download),
            _ => interrupted(job, event),
        },
        Phase::Download => match event {
            EventModel::File(path) => proceed(
                JobModel { video_path: Some(path), ..job },
                Phase::AnnounceProcessing,
                ActionModel::UpdateStatus(JobStatus::ProcessingVideo),
            ),
            EventModel::Failed(detail) => fail(job, download_failure(detail)),
            _ => abort(job, unexpected_event()),
        },
        Phase::AnnounceProcessing => match event {
            EventModel::Done => proceed(job, Phase::Probe, ActionModel::Probe),
            _ => interrupted(job, event),
        },
        Phase::Probe => match event {
            EventModel::Info(info) => proceed(
                JobModel { info: Some(info), ..job },
                Phase::AnnounceExtraction,
                ActionModel::UpdateStatus(JobStatus::ExtractingOcr),
            ),
            EventModel::Failed(detail) => fail(job, probe_failure(detail)),
            _ => abort(job, unexpected_event()),
        },
        Phase::AnnounceExtraction => match event {
            EventModel::Done => proceed(job, Phase::ExtractFrames, ActionModel::ExtractFrames),
            _ => interrupted(job, event),
        },
        Phase::ExtractFrames => match event {
            EventModel::Frames(frames) => proceed(
                JobModel { frames: in_order(frames), ..job },
                Phase::Recognize,
                ActionModel::RunOcr,
            ),
            EventModel::Failed(_) => proceed(
                JobModel { frames: Seq::empty(), ..job },
                Phase::Recognize,
                ActionModel::RunOcr,
            ),
            _ => abort(job, unexpected_event()),
        },
        Phase::Recognize => match event {
            EventModel::Texts(outcomes) => proceed(
                JobModel { frames: with_texts(job.frames, outcomes), ..job },
                Phase::AnnounceTranscription,
                ActionModel::UpdateStatus(JobStatus::TranscribingAudio),
            ),
            EventModel::Failed(_) => proceed(
                JobModel { frames: Seq::empty(), ..job },
                Phase::AnnounceTranscription,
                ActionModel::UpdateStatus(JobStatus::TranscribingAudio),
            ),
            _ => abort(job, unexpected_event()),
        },
        Phase::AnnounceTranscription => match event {
            EventModel::Done => proceed(job, Phase::ExtractAudio, ActionModel::ExtractAudio),
            _ => interrupted(job, event),
        },
        Phase::ExtractAudio => match event {
            EventModel::File(path) => proceed(
                JobModel { audio_path: Some(path), ..job },
                Phase::Transcribe,
                ActionModel::Transcribe,
            ),
            EventModel::Failed(_) => proceed(
                JobModel { audio_path: None, transcription: Seq::empty(), ..job },
                Phase::AnnouncePublication,
                ActionModel::UpdateStatus(JobStatus::AiProcessing),
            ),
            _ => abort(job, unexpected_event()),
        },
        Phase::Transcribe => match event {
            EventModel::Transcript(text) => proceed(
                JobModel { transcription: text, ..job },
                Phase::AnnouncePublication,
                ActionModel::UpdateStatus(JobStatus::AiProcessing),
            ),
            EventModel::Failed(_) => proceed(
                JobModel { transcription: Seq::empty(), ..job },
                Phase::AnnouncePublication,
                ActionModel::UpdateStatus(JobStatus::AiProcessing),
            ),
            _ => abort(job, unexpected_event()),
        },
        Phase::AnnouncePublication => match event {
            EventModel::Done => proceed(
                JobModel { frames: Seq::empty(), ..job },
                Phase::Publish,
                ActionModel::Publish(record_of(job)),
            ),
            _ => interrupted(job, event),
        },
        Phase::Publish => match event {
            EventModel::Done => proceed(job, Phase::AcknowledgeCompleted, ActionModel::Acknowledge),
            _ => interrupted(job, event),
        },
        Phase::AnnounceFailure => match event {
            EventModel::Done => proceed(
                job,
                Phase::NoteFailure,
                ActionModel::NoteError(job.failure->0),
            ),
            _ => interrupted(job, event),
        },
        Phase::NoteFailure => match event {
            EventModel::Done => proceed(job, Phase::AcknowledgeFailed, ActionModel::Acknowledge),
            _ => interrupted(job, event),
        },
        Phase::AcknowledgeCompleted => match event {
            EventModel::Done => proceed(
                job,
                Phase::Finished,
                ActionModel::Finish(OutcomeModel::Completed),
            ),
            _ => interrupted(job, event),
        },
        Phase::AcknowledgeFailed => match event {
            EventModel::Done => proceed(
                job,
                Phase::Finished,
                ActionModel::Finish(OutcomeModel::Failed),
            ),
            _ => interrupted(job, event),
        },
        Phase::Finished => abort(job, nothing_pending()),
    }
}

/// A job that holds what it needs keeps holding it, step by step, and every
/// record it hands over for publication has its frames in ascending order of
/// their timestamps.
pub proof fn lemma_step_keeps_wf(job: JobModel, event: EventModel)
    requires
        job.wf(),
    ensures
        step(job, event).0.wf(),
        step(job, event).1 matches ActionModel::Publish(record) ==> ascending(record.frames),
{
    match event {
        EventModel::Frames(frames) => {
            lemma_in_order_ascending(frames);
        },
        EventModel::Texts(outcomes) => {
            lemma_with_texts_ascending(job.frames, outcomes);
        },
        _ => {},
    }
}

/// One job on its way through the pipeline.
#[derive(Debug)]
pub struct Job {
    envelope: JobEnvelope,
    message_id: String,
    phase: Phase,
    video_path: Option<String>,
    info: Option<VideoInfo>,
    frames: Vec<FrameData>,
    audio_path: Option<String>,
    transcription: String,
    failure: Option<String>,
}

/// What optional metadata holds.
pub open spec fn optional_info(info: Option<VideoInfo>) -> Option<VideoInfoModel> {
    match info {
        Some(i) => Some(i@),
        None => None,
    }
}

impl View for Job {
    type V = JobModel;

    closed spec fn view(&self) -> JobModel {
        JobModel {
            envelope: self.envelope@,
            message_id: self.message_id@,
            phase: self.phase,
            video_path: optional_text(self.video_path),
            info: optional_info(self.info),
            frames: frame_models(self.frames@),
            audio_path: optional_text(self.audio_path),
            transcription: self.transcription@,
            failure: optional_text(self.failure),
        }
    }
}

fn reason_text(text: &'static str) -> (r: String)
    ensures
        r@ == text@,
{
    text.to_string()
}

impl Job {
    /// Starts the job that the message `message_id` asks for. The first action
    /// is the write of status `downloading`.
    pub fn begin(envelope: JobEnvelope, message_id: String) -> (r: (Job, Action))
        ensures
            r.0@ == start(envelope@, message_id@).0,
            r.1@ == start(envelope@, message_id@).1,
            r.0@.wf(),
    {
        let job = Job {
            envelope,
            message_id,
            phase: Phase::AnnounceDownload,
            video_path: None,
            info: None,
            frames: Vec::new(),
            audio_path: None,
            transcription: String::new(),
            failure: None,
        };
        assert(frame_models(job.frames@) =~= Seq::empty());
        (job, Action::UpdateStatus(JobStatus::Downloading))
    }

    /// The envelope that started the job.
    pub fn envelope(&self) -> (r: &JobEnvelope)
        ensures
            r@ == self@.envelope,
    {
        &self.envelope
    }

    /// The id of the message that carried the envelope.
    pub fn message_id(&self) -> (r: &String)
        ensures
            r@ == self@.message_id,
    {
        &self.message_id
    }

    /// The operation that the job is waiting for.
    pub fn phase(&self) -> (r: Phase)
        ensures
            r == self@.phase,
    {
        self.phase
    }

    /// The path of the downloaded video, once there is one.
    pub fn video_path(&self) -> (r: &Option<String>)
        ensures
            optional_text(*r) == self@.video_path,
    {
        &self.video_path
    }

    /// The video's metadata, once it has been probed.
    pub fn info(&self) -> (r: &Option<VideoInfo>)
        ensures
            optional_info(*r) == self@.info,
    {
        &self.info
    }

    /// The frames that the job holds.
    pub fn frames(&self) -> (r: &Vec<FrameData>)
        ensures
            frame_models(r@) == self@.frames,
    {
        &self.frames
    }

    /// The path of the extracted audio, if there is one.
    pub fn audio_path(&self) -> (r: &Option<String>)
        ensures
            optional_text(*r) == self@.audio_path,
    {
        &self.audio_path
    }

    /// The transcript, empty until there is one.
    pub fn transcription(&self) -> (r: &String)
        ensures
            r@ == self@.transcription,
    {
        &self.transcription
    }

    /// The error message of a job that a fatal stage failed.
    pub fn failure(&self) -> (r: &Option<String>)
        ensures
            optional_text(*r) == self@.failure,
    {
        &self.failure
    }

    /// Whether the job has ended.
    pub fn is_finished(&self) -> (r: bool)
        ensures
            r == (self@.phase is Finished),
    {
        match self.phase {
            Phase::Finished => true,
            _ => false,
        }
    }

    fn proceed(self, phase: Phase, action: Action) -> (r: (Job, Action))
        ensures
            r.0@ == proceed(self@, phase, action@).0,
            r.1@ == action@,
    {
        (Job { phase, ..self }, action)
    }

    fn abort(self, reason: String) -> (r: (Job, Action))
        ensures
            r.0@ == abort(self@, reason@).0,
            r.1@ == abort(self@, reason@).1,
    {
        self.proceed(Phase::Finished, Action::Finish(Outcome::Aborted(reason)))
    }

    fn interrupted(self, event: Event) -> (r: (Job, Action))
        ensures
            r.0@ == interrupted(self@, event@).0,
            r.1@ == interrupted(self@, event@).1,
    {
        match event {
            Event::Failed(detail) => self.abort(detail),
            _ => self.abort(reason_text("unexpected event")),
        }
    }

    fn unexpected(self) -> (r: (Job, Action))
        ensures
            r.0@ == abort(self@, unexpected_event()).0,
            r.1@ == abort(self@, unexpected_event()).1,
    {
        self.abort(reason_text("unexpected event"))
    }

    fn expect_done(self, event: Event, phase: Phase, action: Action) -> (r: (Job, Action))
        ensures
            event is Done ==> r.0@ == proceed(self@, phase, action@).0 && r.1@ == action@,
            !(event is Done) ==> r.0@ == interrupted(self@, event@).0 && r.1@ == interrupted(
                self@,
                event@,
            ).1,
    {
        match event {
            Event::Done => self.proceed(phase, action),
            other => self.interrupted(other),
        }
    }

    fn fail(self, message: String) -> (r: (Job, Action))
        ensures
            r.0@ == fail(self@, message@).0,
            r.1@ == fail(self@, message@).1,
    {
        let job = Job { failure: Some(message), ..self };
        job.proceed(Phase::AnnounceFailure, Action::UpdateStatus(JobStatus::Failed))
    }

    fn note_failure(self) -> (r: (Job, Action))
        requires
            self@.failure is Some,
        ensures
            r.0@ == proceed(self@, Phase::NoteFailure, ActionModel::NoteError(self@.failure->0)).0,
            r.1@ == ActionModel::NoteError(self@.failure->0),
    {
        let message = match &self.failure {
            Some(m) => m.clone(),
            None => String::new(),
        };
        self.proceed(Phase::NoteFailure, Action::NoteError(message))
    }

    fn recognize(self, outcomes: Vec<OcrOutcome>) -> (r: (Job, Action))
        ensures
            r.0@ == (JobModel {
                frames: with_texts(self@.frames, outcome_models(outcomes@)),
                phase: Phase::AnnounceTranscription,
                ..self@
            }),
            r.1@ == ActionModel::UpdateStatus(JobStatus::TranscribingAudio),
    {
        let Job {
            envelope,
            message_id,
            phase: _,
            video_path,
            info,
            frames,
            audio_path,
            transcription,
            failure,
        } = self;
        let job = Job {
            envelope,
            message_id,
            phase: Phase::AnnounceTranscription,
            video_path,
            info,
            frames: process_frames(frames, outcomes),
            audio_path,
            transcription,
            failure,
        };
        (job, Action::UpdateStatus(JobStatus::TranscribingAudio))
    }

    fn publish(self) -> (r: (Job, Action))
        requires
            self@.video_path is Some,
            self@.info is Some,
        ensures
            r.0@ == (JobModel { frames: Seq::empty(), phase: Phase::Publish, ..self@ }),
            r.1@ == ActionModel::Publish(record_of(self@)),
    {
        let Job {
            envelope,
            message_id,
            phase: _,
            video_path,
            info,
            frames,
            audio_path,
            transcription,
            failure,
        } = self;
        let path = match &video_path {
            Some(p) => p.clone(),
            None => String::new(),
        };
        let (duration_seconds, width, height, fps) = match &info {
            Some(i) => (i.duration_seconds, i.width, i.height, i.fps),
            None => (Scalar::zero(), 0, 0, Scalar::zero()),
        };
        let audio = match &audio_path {
            Some(p) => Some(p.clone()),
            None => None,
        };
        let record = EnrichedRecord {
            job_id: envelope.job_id.clone(),
            video_path: path,
            duration_seconds,
            resolution: Resolution { width, height },
            fps,
            frames,
            audio_path: audio,
            transcription: transcription.clone(),
        };
        let job = Job {
            envelope,
            message_id,
            phase: Phase::Publish,
            video_path,
            info,
            frames: Vec::new(),
            audio_path,
            transcription,
            failure,
        };
        assert(frame_models(job.frames@) =~= Seq::empty());
        (job, Action::Publish(record))
    }

    /// Takes the outcome of the pending operation and answers with the job's
    /// next state and the operation to perform next, as `step` defines them.
    pub fn advance(self, event: Event) -> (r: (Job, Action))
        requires
            self@.wf(),
        ensures
            r.0@ == step(self@, event@).0,
            r.1@ == step(self@, event@).1,
            r.0@.wf(),
    {
        proof {
            lemma_step_keeps_wf(self@, event@);
        }
        match self.phase {
            Phase::AnnounceDownload => self.expect_done(event, Phase::Download, Action::Download),
            Phase::Download => match event {
                Event::File(path) => {
                    let job = Job { video_path: Some(path), ..self };
                    job.proceed(
                        Phase::AnnounceProcessing,
                        Action::UpdateStatus(JobStatus::ProcessingVideo),
                    )
                },
                Event::Failed(detail) => {
                    let message = reason_text("Download failed: ").concat(detail.as_str());
                    self.fail(message)
                },
                _ => self.unexpected(),
            },
            Phase::AnnounceProcessing => self.expect_done(event, Phase::Probe, Action::Probe),
            Phase::Probe => match event {
                Event::Info(info) => {
                    let job = Job { info: Some(info), ..self };
                    job.proceed(
                        Phase::AnnounceExtraction,
                        Action::UpdateStatus(JobStatus::ExtractingOcr),
                    )
                },
                Event::Failed(detail) => {
                    let message = reason_text("Video processing failed: ").concat(detail.as_str());
                    self.fail(message)
                },
                _ => self.unexpected(),
            },
            Phase::AnnounceExtraction => self.expect_done(
                event,
                Phase::ExtractFrames,
                Action::ExtractFrames,
            ),
            Phase::ExtractFrames => match event {
                Event::Frames(frames) => {
                    let job = Job { frames: sort_frames(frames), ..self };
                    job.proceed(Phase::Recognize, Action::RunOcr)
                },
                Event::Failed(_) => {
                    let job = Job { frames: Vec::new(), ..self };
                    assert(frame_models(job.frames@) =~= Seq::empty());
                    job.proceed(Phase::Recognize, Action::RunOcr)
                },
                _ => self.unexpected(),
            },
            Phase::Recognize => match event {
                Event::Texts(outcomes) => self.recognize(outcomes),
                Event::Failed(_) => {
                    let job = Job { frames: Vec::new(), ..self };
                    assert(frame_models(job.frames@) =~= Seq::empty());
                    job.proceed(
                        Phase::AnnounceTranscription,
                        Action::UpdateStatus(JobStatus::TranscribingAudio),
                    )
                },
                _ => self.unexpected(),
            },
            Phase::AnnounceTranscription => self.expect_done(
                event,
                Phase::ExtractAudio,
                Action::ExtractAudio,
            ),
            Phase::ExtractAudio => match event {
                Event::File(path) => {
                    let job = Job { audio_path: Some(path), ..self };
                    job.proceed(Phase::Transcribe, Action::Transcribe)
                },
                Event::Failed(_) => {
                    let job = Job { audio_path: None, transcription: String::new(), ..self };
                    job.proceed(
                        Phase::AnnouncePublication,
                        Action::UpdateStatus(JobStatus::AiProcessing),
                    )
                },
                _ => self.unexpected(),
            },
            Phase::Transcribe => match event {
                Event::Transcript(text) => {
                    let job = Job { transcription: text, ..self };
                    job.proceed(
                        Phase::AnnouncePublication,
                        Action::UpdateStatus(JobStatus::AiProcessing),
                    )
                },
                Event::Failed(_) => {
                    let job = Job { transcription: String::new(), ..self };
                    job.proceed(
                        Phase::AnnouncePublication,
                        Action::UpdateStatus(JobStatus::AiProcessing),
                    )
                },
                _ => self.unexpected(),
            },
            Phase::AnnouncePublication => match event {
                Event::Done => self.publish(),
                other => self.interrupted(other),
            },
            Phase::Publish => self.expect_done(
                event,
                Phase::AcknowledgeCompleted,
                Action::Acknowledge,
            ),
            Phase::AnnounceFailure => match event {
                Event::Done => self.note_failure(),
                other => self.interrupted(other),
            },
            Phase::NoteFailure => self.expect_done(
                event,
                Phase::AcknowledgeFailed,
                Action::Acknowledge,
            ),
            Phase::AcknowledgeCompleted => self.expect_done(
                event,
                Phase::Finished,
                Action::Finish(Outcome::Completed),
            ),
            Phase::AcknowledgeFailed => self.expect_done(
                event,
                Phase::Finished,
                Action::Finish(Outcome::Failed),
            ),
            Phase::Finished => self.abort(reason_text("no operation is pending")),
        }
    }
}

} // verus!
