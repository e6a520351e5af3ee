//! Whole runs of the state machine, and what holds of every one of them.

use crate::envelope::EnvelopeModel;
use crate::pipeline::{
    record_of, start, status_progress, step, ActionModel, EventModel, JobModel, JobStatus,
    OutcomeModel, Phase, RecordModel,
};
use crate::ocr::{with_texts, OcrModel};
use crate::pipeline::lemma_step_keeps_wf;
use crate::video::{ascending, in_order, FrameModel, VideoInfoModel};
use vstd::prelude::*;

verus! {

/// The job after `events` have been fed to it one by one, and the actions it
/// asked for on the way. Events that arrive after the job has ended are not
/// looked at.
pub open spec fn run(job: JobModel, events: Seq<EventModel>) -> (JobModel, Seq<ActionModel>)
    decreases events.len(),
{
    if events.len() == 0 || job.phase is Finished {
        (job, Seq::empty())
    } else {
        let next = step(job, events.first());
        let rest = run(next.0, events.drop_first());
        (rest.0, seq![next.1] + rest.1)
    }
}

/// Every action that the job of `envelope` asks for, from the first one on,
/// while `events` are fed to it.
pub open spec fn actions_of(
    envelope: EnvelopeModel,
    message_id: Seq<char>,
    events: Seq<EventModel>,
) -> Seq<ActionModel> {
    let first = start(envelope, message_id);
    seq![first.1] + run(first.0, events).1
}

/// How many of `actions` acknowledge the message.
pub open spec fn acknowledgements(actions: Seq<ActionModel>) -> nat
    decreases actions.len(),
{
    if actions.len() == 0 {
        0
    } else {
        (if actions.first() is Acknowledge {
            1nat
        } else {
            0nat
        }) + acknowledgements(actions.drop_first())
    }
}

/// The progress values that `actions` write into the status record, in order.
/// Status `failed` comes with 0.
pub open spec fn progress_trace(actions: Seq<ActionModel>) -> Seq<nat>
    decreases actions.len(),
{
    if actions.len() == 0 {
        Seq::empty()
    } else {
        let rest = progress_trace(actions.drop_first());
        match actions.first() {
            ActionModel::UpdateStatus(status) => seq![status_progress(status)] + rest,
            _ => rest,
        }
    }
}

/// Each value is above the one before it and above `floor`, but for a 0, which
/// can only come last.
pub open spec fn rises_from(values: Seq<nat>, floor: nat) -> bool
    decreases values.len(),
{
    if values.len() == 0 {
        true
    } else if values.first() == 0 {
        values.len() == 1
    } else {
        values.first() > floor && rises_from(values.drop_first(), values.first())
    }
}

/// How many of `actions` publish a record.
pub open spec fn publications(actions: Seq<ActionModel>) -> nat
    decreases actions.len(),
{
    if actions.len() == 0 {
        0
    } else {
        (if actions.first() is Publish {
            1nat
        } else {
            0nat
        }) + publications(actions.drop_first())
    }
}

/// How many of `actions` write status `failed`.
pub open spec fn failure_marks(actions: Seq<ActionModel>) -> nat
    decreases actions.len(),
{
    if actions.len() == 0 {
        0
    } else {
        (if actions.first() == ActionModel::UpdateStatus(JobStatus::Failed) {
            1nat
        } else {
            0nat
        }) + failure_marks(actions.drop_first())
    }
}

/// How many of `actions` write an error message.
pub open spec fn error_notes(actions: Seq<ActionModel>) -> nat
    decreases actions.len(),
{
    if actions.len() == 0 {
        0
    } else {
        (if actions.first() is NoteError {
            1nat
        } else {
            0nat
        }) + error_notes(actions.drop_first())
    }
}

/// Whether a run that ends in `actions` ended with the job completed or failed.
pub open spec fn ends_settled(actions: Seq<ActionModel>) -> bool {
    actions.len() > 0 && (actions.last() == ActionModel::Finish(OutcomeModel::Completed)
        || actions.last() == ActionModel::Finish(OutcomeModel::Failed))
}

/// The progress that stands in the status record while the job is in `phase`,
/// counting a write that is pending as done.
pub open spec fn announced(phase: Phase) -> nat {
    match phase {
        Phase::AnnounceDownload | Phase::Download => 10,
        Phase::AnnounceProcessing | Phase::Probe => 25,
        Phase::AnnounceExtraction | Phase::ExtractFrames | Phase::Recognize => 40,
        Phase::AnnounceTranscription | Phase::ExtractAudio | Phase::Transcribe => 60,
        Phase::AnnouncePublication | Phase::Publish | Phase::AcknowledgeCompleted => 80,
        Phase::AnnounceFailure | Phase::NoteFailure | Phase::AcknowledgeFailed
        | Phase::Finished => 0,
    }
}

/// The phases from which no status is written any more.
pub open spec fn past_status_writes(phase: Phase) -> bool {
    ||| phase is AnnouncePublication
    ||| phase is Publish
    ||| phase is AnnounceFailure
    ||| phase is NoteFailure
    ||| phase is AcknowledgeCompleted
    ||| phase is AcknowledgeFailed
    ||| phase is Finished
}

/// The acknowledgements that a job in `phase` still has to ask for.
pub open spec fn acknowledgements_due(phase: Phase) -> nat {
    if phase is AcknowledgeCompleted || phase is AcknowledgeFailed || phase is Finished {
        0
    } else {
        1
    }
}

proof fn lemma_run_unfold(job: JobModel, events: Seq<EventModel>)
    requires
        events.len() > 0,
        !(job.phase is Finished),
    ensures
        run(job, events).1.len() > 0,
        run(job, events).1.first() == step(job, events.first()).1,
        run(job, events).1.drop_first() == run(step(job, events.first()).0, events.drop_first()).1,
        run(job, events).1.last() == (if run(
            step(job, events.first()).0,
            events.drop_first(),
        ).1.len() > 0 {
            run(step(job, events.first()).0, events.drop_first()).1.last()
        } else {
            step(job, events.first()).1
        }),
{
    let next = step(job, events.first());
    let rest = run(next.0, events.drop_first());
    assert((seq![next.1] + rest.1).drop_first() =~= rest.1);
}

/// The job after the first `n` of `events`.
pub open spec fn state_after(job: JobModel, events: Seq<EventModel>, n: nat) -> JobModel
    decreases n,
{
    if n == 0 {
        job
    } else {
        step(state_after(job, events, (n - 1) as nat), events[n - 1]).0
    }
}

proof fn lemma_state_shift(job: JobModel, events: Seq<EventModel>, n: nat)
    requires
        n < events.len(),
    ensures
        state_after(job, events, n + 1) == state_after(
            step(job, events.first()).0,
            events.drop_first(),
            n,
        ),
    decreases n,
{
    reveal_with_fuel(state_after, 2);
    if n > 0 {
        lemma_state_shift(job, events, (n - 1) as nat);
        assert(events.drop_first()[n - 1] == events[n as int]);
    }
}

proof fn lemma_run_steps(job: JobModel, events: Seq<EventModel>)
    requires
        forall|k: nat| k < events.len() ==> !(#[trigger] state_after(job, events, k).phase is Finished),
    ensures
        run(job, events).1.len() == events.len(),
        forall|i: int|
            0 <= i < events.len() ==> #[trigger] run(job, events).1[i] == step(
                state_after(job, events, i as nat),
                events[i],
            ).1,
    decreases events.len(),
{
    if events.len() > 0 {
        assert(!(state_after(job, events, 0nat).phase is Finished));
        let next = step(job, events.first());
        let tail = events.drop_first();
        assert forall|k: nat| k < tail.len() implies !(#[trigger] state_after(
            next.0,
            tail,
            k,
        ).phase is Finished) by {
            lemma_state_shift(job, events, k);
            assert(!(state_after(job, events, k + 1).phase is Finished));
        }
        lemma_run_steps(next.0, tail);
        assert forall|i: int| 0 <= i < events.len() implies #[trigger] run(job, events).1[i]
            == step(state_after(job, events, i as nat), events[i]).1 by {
            if i > 0 {
                lemma_state_shift(job, events, (i - 1) as nat);
                assert(run(job, events).1[i] == run(next.0, tail).1[i - 1]);
                assert(tail[i - 1] == events[i]);
            }
        }
    }
}

proof fn lemma_acknowledgements_from(job: JobModel, events: Seq<EventModel>)
    ensures
        acknowledgements(run(job, events).1) <= acknowledgements_due(job.phase),
        ends_settled(run(job, events).1) ==> acknowledgements(run(job, events).1)
            == acknowledgements_due(job.phase),
    decreases events.len(),
{
    if events.len() > 0 && !(job.phase is Finished) {
        let next = step(job, events.first());
        lemma_run_unfold(job, events);
        lemma_acknowledgements_from(next.0, events.drop_first());
        let rest = run(next.0, events.drop_first()).1;
        if rest.len() == 0 {
            assert(run(job, events).1.drop_first().len() == 0);
        }
    }
}

/// The phases of a job for which status `failed` has been asked for.
pub open spec fn after_failure(phase: Phase) -> bool {
    phase is AnnounceFailure || phase is NoteFailure || phase is AcknowledgeFailed
}

/// The error messages that a job in `phase` has to write before it can end
/// failed.
pub open spec fn error_notes_due(phase: Phase) -> nat {
    if phase is NoteFailure || phase is AcknowledgeFailed {
        0
    } else {
        1
    }
}

/// The phases of a job whose record has been handed over for publication.
pub open spec fn after_publication(phase: Phase) -> bool {
    phase is Publish || phase is AcknowledgeCompleted
}

proof fn lemma_settlement_from(job: JobModel, events: Seq<EventModel>)
    ensures
        ({
            let actions = run(job, events).1;
            let published = publications(actions);
            let marked = failure_marks(actions);
            let completed = actions.len() > 0 && actions.last() == ActionModel::Finish(
                OutcomeModel::Completed,
            );
            let failed = actions.len() > 0 && actions.last() == ActionModel::Finish(
                OutcomeModel::Failed,
            );
            &&& published + marked <= 1
            &&& after_failure(job.phase) ==> published == 0 && marked == 0 && !completed
            &&& after_publication(job.phase) ==> published == 0 && marked == 0 && !failed
            &&& !after_failure(job.phase) && !after_publication(job.phase) && completed
                ==> published == 1 && marked == 0
            &&& !after_failure(job.phase) && !after_publication(job.phase) && failed ==> published
                == 0 && marked == 1
            &&& error_notes(actions) <= error_notes_due(job.phase)
            &&& failed ==> error_notes(actions) == error_notes_due(job.phase)
            &&& completed ==> error_notes(actions) == 0
        }),
    decreases events.len(),
{
    if events.len() > 0 && !(job.phase is Finished) {
        let next = step(job, events.first());
        lemma_run_unfold(job, events);
        lemma_settlement_from(next.0, events.drop_first());
        let rest = run(next.0, events.drop_first()).1;
        if rest.len() == 0 {
            assert(run(job, events).1.drop_first().len() == 0);
        }
    }
}

proof fn lemma_progress_from(job: JobModel, events: Seq<EventModel>)
    ensures
        rises_from(progress_trace(run(job, events).1), announced(job.phase)),
        past_status_writes(job.phase) && !(job.phase is AnnouncePublication) ==> progress_trace(
            run(job, events).1,
        ).len() == 0,
    decreases events.len(),
{
    if events.len() > 0 && !(job.phase is Finished) {
        let next = step(job, events.first());
        lemma_run_unfold(job, events);
        lemma_progress_from(next.0, events.drop_first());
        let rest = progress_trace(run(next.0, events.drop_first()).1);
        match next.1 {
            ActionModel::UpdateStatus(status) => {
                assert((seq![status_progress(status)] + rest).drop_first() =~= rest);
            },
            _ => {},
        }
    }
}

proof fn lemma_message_id_unread(job: JobModel, other: Seq<char>, events: Seq<EventModel>)
    ensures
        run(JobModel { message_id: other, ..job }, events).1 == run(job, events).1,
    decreases events.len(),
{
    let twin = JobModel { message_id: other, ..job };
    if events.len() > 0 && !(job.phase is Finished) {
        let next = step(job, events.first());
        assert(step(twin, events.first()).0 == JobModel { message_id: other, ..next.0 });
        assert(step(twin, events.first()).1 == next.1);
        lemma_message_id_unread(next.0, other, events.drop_first());
    }
}

/// A message is acknowledged at most once, and exactly once where its job ends
/// completed or failed, whatever the stages in between yielded.
pub proof fn lemma_acknowledged_once(
    envelope: EnvelopeModel,
    message_id: Seq<char>,
    events: Seq<EventModel>,
)
    ensures
        acknowledgements(actions_of(envelope, message_id, events)) <= 1,
        ends_settled(actions_of(envelope, message_id, events)) ==> acknowledgements(
            actions_of(envelope, message_id, events),
        ) == 1,
{
    let first = start(envelope, message_id);
    let rest = run(first.0, events).1;
    lemma_acknowledgements_from(first.0, events);
    assert((seq![first.1] + rest).drop_first() =~= rest);
    if rest.len() > 0 {
        assert((seq![first.1] + rest).last() == rest.last());
    }
}

/// A job is published at most once and marked failed at most once, and never
/// both. One that ends completed has been published and has written no error
/// message; one that ends failed has written status `failed` and its error
/// message, each once, and has published nothing.
pub proof fn lemma_published_or_failed(
    envelope: EnvelopeModel,
    message_id: Seq<char>,
    events: Seq<EventModel>,
)
    ensures
        ({
            let actions = actions_of(envelope, message_id, events);
            &&& publications(actions) + failure_marks(actions) <= 1
            &&& actions.last() == ActionModel::Finish(OutcomeModel::Completed) ==> publications(
                actions,
            ) == 1 && error_notes(actions) == 0
            &&& actions.last() == ActionModel::Finish(OutcomeModel::Failed) ==> failure_marks(
                actions,
            ) == 1 && error_notes(actions) == 1 && publications(actions) == 0
        }),
{
    let first = start(envelope, message_id);
    let rest = run(first.0, events).1;
    lemma_settlement_from(first.0, events);
    assert((seq![first.1] + rest).drop_first() =~= rest);
    if rest.len() > 0 {
        assert((seq![first.1] + rest).last() == rest.last());
    }
}

proof fn lemma_ordered_from(job: JobModel, events: Seq<EventModel>, at: int)
    requires
        job.wf(),
        0 <= at < run(job, events).1.len(),
    ensures
        run(job, events).1[at] matches ActionModel::Publish(record) ==> ascending(record.frames),
    decreases events.len(),
{
    if events.len() > 0 && !(job.phase is Finished) {
        let next = step(job, events.first());
        lemma_run_unfold(job, events);
        lemma_step_keeps_wf(job, events.first());
        if at > 0 {
            let rest = run(next.0, events.drop_first()).1;
            assert(run(job, events).1[at] == run(job, events).1.drop_first()[at - 1]);
            lemma_ordered_from(next.0, events.drop_first(), at - 1);
        }
    }
}

/// Every record that a job hands over for publication has its frames in
/// ascending order of their timestamps, whatever the stages yielded.
pub proof fn lemma_published_frames_ordered(
    envelope: EnvelopeModel,
    message_id: Seq<char>,
    events: Seq<EventModel>,
    at: int,
)
    requires
        0 <= at < actions_of(envelope, message_id, events).len(),
    ensures
        actions_of(envelope, message_id, events)[at] matches ActionModel::Publish(record)
            ==> ascending(record.frames),
{
    let first = start(envelope, message_id);
    if at > 0 {
        lemma_ordered_from(first.0, events, at - 1);
    }
}

/// A failure of frame extraction, text recognition, audio extraction or
/// transcription stops no job: the job goes on to its next operation, without
/// frames, without audio and transcript, or without transcript.
pub proof fn lemma_degraded_stage_goes_on(job: JobModel, detail: Seq<char>)
    requires
        job.phase is ExtractFrames || job.phase is Recognize || job.phase is ExtractAudio
            || job.phase is Transcribe,
    ensures
        ({
            let next = step(job, EventModel::Failed(detail));
            &&& !(next.0.phase is Finished)
            &&& !after_failure(next.0.phase)
            &&& !(next.1 is Finish)
            &&& next.1 != ActionModel::UpdateStatus(JobStatus::Failed)
            &&& job.phase is ExtractFrames || job.phase is Recognize ==> next.0.frames.len() == 0
            &&& job.phase is ExtractAudio ==> next.0.audio_path is None
                && next.0.transcription.len() == 0 && next.1 == ActionModel::UpdateStatus(
                JobStatus::AiProcessing,
            )
            &&& job.phase is Transcribe ==> next.0.transcription.len() == 0
                && next.0.audio_path == job.audio_path
        }),
{
}

/// The progress written for a job only rises: each value is above the one
/// before it, starting with 10. The one exception is the 0 written with
/// status `failed`, and no progress is written after that.
pub proof fn lemma_progress_rises(
    envelope: EnvelopeModel,
    message_id: Seq<char>,
    events: Seq<EventModel>,
)
    ensures
        rises_from(progress_trace(actions_of(envelope, message_id, events)), 0),
        progress_trace(actions_of(envelope, message_id, events)).len() > 0,
        progress_trace(actions_of(envelope, message_id, events)).first() == 10,
{
    let first = start(envelope, message_id);
    let rest = run(first.0, events).1;
    lemma_progress_from(first.0, events);
    assert((seq![first.1] + rest).drop_first() =~= rest);
    let tail = progress_trace(rest);
    assert((seq![10nat] + tail).drop_first() =~= tail);
}

/// The events of a run in which every operation succeeds.
pub open spec fn smooth_events(
    video: Seq<char>,
    info: VideoInfoModel,
    extracted: Seq<FrameModel>,
    recognized: Seq<OcrModel>,
    audio: Seq<char>,
    transcript: Seq<char>,
) -> Seq<EventModel> {
    seq![
        EventModel::Done,
        EventModel::File(video),
        EventModel::Done,
        EventModel::Info(info),
        EventModel::Done,
        EventModel::Frames(extracted),
        EventModel::Texts(recognized),
        EventModel::Done,
        EventModel::File(audio),
        EventModel::Transcript(transcript),
        EventModel::Done,
        EventModel::Done,
        EventModel::Done,
    ]
}

/// Where every operation succeeds, the progress values written are 10, 25,
/// 40, 60 and 80, in this order; the record published holds what the stages
/// yielded, the frames in order and with their texts; and the job ends
/// completed.
pub proof fn lemma_smooth_run(
    envelope: EnvelopeModel,
    message_id: Seq<char>,
    video: Seq<char>,
    info: VideoInfoModel,
    extracted: Seq<FrameModel>,
    recognized: Seq<OcrModel>,
    audio: Seq<char>,
    transcript: Seq<char>,
)
    ensures
        ({
            let events = smooth_events(video, info, extracted, recognized, audio, transcript);
            let actions = actions_of(envelope, message_id, events);
            let published = JobModel {
                video_path: Some(video),
                info: Some(info),
                frames: with_texts(in_order(extracted), recognized),
                audio_path: Some(audio),
                transcription: transcript,
                ..start(envelope, message_id).0
            };
            &&& progress_trace(actions) == seq![10nat, 25, 40, 60, 80]
            &&& actions.len() == 14
            &&& actions[11] == ActionModel::Publish(record_of(published))
            &&& actions[12] == ActionModel::Acknowledge
            &&& actions[13] == ActionModel::Finish(OutcomeModel::Completed)
        }),
{
    let events = smooth_events(video, info, extracted, recognized, audio, transcript);
    let first = start(envelope, message_id);
    let tail = run(first.0, events).1;
    lemma_smooth_states(first.0, video, info, extracted, recognized, audio, transcript);
    assert forall|k: nat| k < events.len() implies !(#[trigger] state_after(
        first.0,
        events,
        k,
    ).phase is Finished) by {
        assert(k == 0 || k == 1 || k == 2 || k == 3 || k == 4 || k == 5 || k == 6 || k == 7 || k
            == 8 || k == 9 || k == 10 || k == 11 || k == 12);
    }
    lemma_run_steps(first.0, events);
    let published = JobModel {
        video_path: Some(video),
        info: Some(info),
        frames: with_texts(in_order(extracted), recognized),
        audio_path: Some(audio),
        transcription: transcript,
        ..first.0
    };
    let expected = seq![
        ActionModel::UpdateStatus(JobStatus::Downloading),
        ActionModel::Download,
        ActionModel::UpdateStatus(JobStatus::ProcessingVideo),
        ActionModel::Probe,
        ActionModel::UpdateStatus(JobStatus::ExtractingOcr),
        ActionModel::ExtractFrames,
        ActionModel::RunOcr,
        ActionModel::UpdateStatus(JobStatus::TranscribingAudio),
        ActionModel::ExtractAudio,
        ActionModel::Transcribe,
        ActionModel::UpdateStatus(JobStatus::AiProcessing),
        ActionModel::Publish(record_of(published)),
        ActionModel::Acknowledge,
        ActionModel::Finish(OutcomeModel::Completed),
    ];
    assert(tail[0] == expected[1]);
    assert(tail[1] == expected[2]);
    assert(tail[2] == expected[3]);
    assert(tail[3] == expected[4]);
    assert(tail[4] == expected[5]);
    assert(tail[5] == expected[6]);
    assert(tail[6] == expected[7]);
    assert(tail[7] == expected[8]);
    assert(tail[8] == expected[9]);
    assert(tail[9] == expected[10]);
    assert(tail[10] == expected[11]);
    assert(tail[11] == expected[12]);
    assert(tail[12] == expected[13]);
    assert(seq![first.1] + tail =~= expected);
    lemma_smooth_progress(record_of(published));
}

proof fn lemma_trace_step(action: ActionModel, rest: Seq<ActionModel>)
    ensures
        progress_trace(seq![action] + rest) == match action {
            ActionModel::UpdateStatus(status) => seq![status_progress(status)] + progress_trace(
                rest,
            ),
            _ => progress_trace(rest),
        },
{
    assert((seq![action] + rest).drop_first() =~= rest);
}

proof fn lemma_smooth_progress(record: RecordModel)
    ensures
        progress_trace(
            seq![
                ActionModel::UpdateStatus(JobStatus::Downloading),
                ActionModel::Download,
                ActionModel::UpdateStatus(JobStatus::ProcessingVideo),
                ActionModel::Probe,
                ActionModel::UpdateStatus(JobStatus::ExtractingOcr),
                ActionModel::ExtractFrames,
                ActionModel::RunOcr,
                ActionModel::UpdateStatus(JobStatus::TranscribingAudio),
                ActionModel::ExtractAudio,
                ActionModel::Transcribe,
                ActionModel::UpdateStatus(JobStatus::AiProcessing),
                ActionModel::Publish(record),
                ActionModel::Acknowledge,
                ActionModel::Finish(OutcomeModel::Completed),
            ],
        ) == seq![10nat, 25, 40, 60, 80],
{
    let a13 = seq![ActionModel::Finish(OutcomeModel::Completed)];
    let a12 = seq![ActionModel::Acknowledge] + a13;
    let a11 = seq![ActionModel::Publish(record)] + a12;
    let a10 = seq![ActionModel::UpdateStatus(JobStatus::AiProcessing)] + a11;
    let a9 = seq![ActionModel::Transcribe] + a10;
    let a8 = seq![ActionModel::ExtractAudio] + a9;
    let a7 = seq![ActionModel::UpdateStatus(JobStatus::TranscribingAudio)] + a8;
    let a6 = seq![ActionModel::RunOcr] + a7;
    let a5 = seq![ActionModel::ExtractFrames] + a6;
    let a4 = seq![ActionModel::UpdateStatus(JobStatus::ExtractingOcr)] + a5;
    let a3 = seq![ActionModel::Probe] + a4;
    let a2 = seq![ActionModel::UpdateStatus(JobStatus::ProcessingVideo)] + a3;
    let a1 = seq![ActionModel::Download] + a2;
    let a0 = seq![ActionModel::UpdateStatus(JobStatus::Downloading)] + a1;
    assert(progress_trace(Seq::<ActionModel>::empty()) =~= Seq::empty());
    assert(a13 =~= seq![ActionModel::Finish(OutcomeModel::Completed)] + Seq::empty());
    lemma_trace_step(ActionModel::Finish(OutcomeModel::Completed), Seq::empty());
    lemma_trace_step(ActionModel::Acknowledge, a13);
    lemma_trace_step(ActionModel::Publish(record), a12);
    lemma_trace_step(ActionModel::UpdateStatus(JobStatus::AiProcessing), a11);
    assert(progress_trace(a10) =~= seq![80nat]);
    lemma_trace_step(ActionModel::Transcribe, a10);
    lemma_trace_step(ActionModel::ExtractAudio, a9);
    lemma_trace_step(ActionModel::UpdateStatus(JobStatus::TranscribingAudio), a8);
    assert(progress_trace(a7) =~= seq![60nat, 80]);
    lemma_trace_step(ActionModel::RunOcr, a7);
    lemma_trace_step(ActionModel::ExtractFrames, a6);
    lemma_trace_step(ActionModel::UpdateStatus(JobStatus::ExtractingOcr), a5);
    assert(progress_trace(a4) =~= seq![40nat, 60, 80]);
    lemma_trace_step(ActionModel::Probe, a4);
    lemma_trace_step(ActionModel::UpdateStatus(JobStatus::ProcessingVideo), a3);
    assert(progress_trace(a2) =~= seq![25nat, 40, 60, 80]);
    lemma_trace_step(ActionModel::Download, a2);
    lemma_trace_step(ActionModel::UpdateStatus(JobStatus::Downloading), a1);
    assert(progress_trace(a0) =~= seq![10nat, 25, 40, 60, 80]);
    assert(a0 =~= seq![
        ActionModel::UpdateStatus(JobStatus::Downloading),
        ActionModel::Download,
        ActionModel::UpdateStatus(JobStatus::ProcessingVideo),
        ActionModel::Probe,
        ActionModel::UpdateStatus(JobStatus::ExtractingOcr),
        ActionModel::ExtractFrames,
        ActionModel::RunOcr,
        ActionModel::UpdateStatus(JobStatus::TranscribingAudio),
        ActionModel::ExtractAudio,
        ActionModel::Transcribe,
        ActionModel::UpdateStatus(JobStatus::AiProcessing),
        ActionModel::Publish(record),
        ActionModel::Acknowledge,
        ActionModel::Finish(OutcomeModel::Completed),
    ]);
}

proof fn lemma_smooth_states(
    job: JobModel,
    video: Seq<char>,
    info: VideoInfoModel,
    extracted: Seq<FrameModel>,
    recognized: Seq<OcrModel>,
    audio: Seq<char>,
    transcript: Seq<char>,
)
    requires
        job.phase is AnnounceDownload,
    ensures
        ({
            let events = smooth_events(video, info, extracted, recognized, audio, transcript);
            let probed = JobModel { video_path: Some(video), info: Some(info), ..job };
            let read = with_texts(in_order(extracted), recognized);
            let heard = JobModel { frames: read, audio_path: Some(audio), ..probed };
            let full = JobModel { transcription: transcript, ..heard };
            &&& state_after(job, events, 0) == job
            &&& state_after(job, events, 1) == JobModel { phase: Phase::Download, ..job }
            &&& state_after(job, events, 2) == JobModel {
                phase: Phase::AnnounceProcessing,
                video_path: Some(video),
                ..job
            }
            &&& state_after(job, events, 3) == JobModel {
                phase: Phase::Probe,
                video_path: Some(video),
                ..job
            }
            &&& state_after(job, events, 4) == JobModel {
                phase: Phase::AnnounceExtraction,
                ..probed
            }
            &&& state_after(job, events, 5) == JobModel { phase: Phase::ExtractFrames, ..probed }
            &&& state_after(job, events, 6) == JobModel {
                phase: Phase::Recognize,
                frames: in_order(extracted),
                ..probed
            }
            &&& state_after(job, events, 7) == JobModel {
                phase: Phase::AnnounceTranscription,
                frames: read,
                ..probed
            }
            &&& state_after(job, events, 8) == JobModel {
                phase: Phase::ExtractAudio,
                frames: read,
                ..probed
            }
            &&& state_after(job, events, 9) == JobModel { phase: Phase::Transcribe, ..heard }
            &&& state_after(job, events, 10) == JobModel {
                phase: Phase::AnnouncePublication,
                ..full
            }
            &&& state_after(job, events, 11) == JobModel {
                phase: Phase::Publish,
                frames: Seq::empty(),
                ..full
            }
            &&& state_after(job, events, 12) == JobModel {
                phase: Phase::AcknowledgeCompleted,
                frames: Seq::empty(),
                ..full
            }
        }),
{
    let events = smooth_events(video, info, extracted, recognized, audio, transcript);
    assert(state_after(job, events, 0) == job);
    assert(state_after(job, events, 1).phase is Download);
    assert(state_after(job, events, 2).phase is AnnounceProcessing);
    assert(state_after(job, events, 3).phase is Probe);
    assert(state_after(job, events, 4).phase is AnnounceExtraction);
    assert(state_after(job, events, 5).phase is ExtractFrames);
    assert(state_after(job, events, 6).phase is Recognize);
    assert(state_after(job, events, 7).phase is AnnounceTranscription);
    assert(state_after(job, events, 8).phase is ExtractAudio);
    assert(state_after(job, events, 9).phase is Transcribe);
    assert(state_after(job, events, 10).phase is AnnouncePublication);
    assert(state_after(job, events, 11).phase is Publish);
    assert(state_after(job, events, 12).phase is AcknowledgeCompleted);
}

/// The same envelope, delivered again under another message id and met with
/// the same outcomes, leads to the same actions, the published record among
/// them.
pub proof fn lemma_redelivery_repeats(
    envelope: EnvelopeModel,
    first_id: Seq<char>,
    second_id: Seq<char>,
    events: Seq<EventModel>,
)
    ensures
        actions_of(envelope, first_id, events) == actions_of(envelope, second_id, events),
{
    let first = start(envelope, first_id);
    lemma_message_id_unread(first.0, second_id, events);
    assert(start(envelope, second_id).0 == JobModel { message_id: second_id, ..first.0 });
}

} // verus!
