//! Attaching recognised text to frames.

use crate::text::{blank, is_blank};
use crate::video::{ascending, frame_models, FrameData, FrameModel};
use vstd::prelude::*;

verus! {

/// The language the recogniser is set to.
pub const OCR_LANGUAGE: &'static str = "eng";

/// The page segmentation mode the recogniser is set to: one uniform block of
/// text.
pub const OCR_PAGE_SEGMENTATION: &'static str = "6";

/// How text recognition ended for one frame.
#[derive(Debug)]
pub enum OcrOutcome {
    /// The recogniser returned this text.
    Text(String),
    /// The recogniser reported an error.
    Failed,
    /// The task that ran the recogniser did not finish.
    Aborted,
}

/// What an `OcrOutcome` holds.
pub enum OcrModel {
    Text(Seq<char>),
    Failed,
    Aborted,
}

impl View for OcrOutcome {
    type V = OcrModel;

    open spec fn view(&self) -> OcrModel {
        match self {
            OcrOutcome::Text(text) => OcrModel::Text(text@),
            OcrOutcome::Failed => OcrModel::Failed,
            OcrOutcome::Aborted => OcrModel::Aborted,
        }
    }
}

/// What a list of outcomes holds.
pub open spec fn outcome_models(outcomes: Seq<OcrOutcome>) -> Seq<OcrModel> {
    outcomes.map_values(|o: OcrOutcome| o@)
}

/// The frame after recognition: it carries the text, untrimmed, where the
/// recogniser returned one that is not blank, and is unchanged otherwise.
pub open spec fn recognized(frame: FrameModel, outcome: OcrModel) -> FrameModel {
    match outcome {
        OcrModel::Text(text) => if blank(text) {
            frame
        } else {
            FrameModel { ocr_text: Some(text), ..frame }
        },
        _ => frame,
    }
}

/// The frames after recognition, each with the outcome at its own position.
/// A frame for which there is no outcome is unchanged.
pub open spec fn with_texts(frames: Seq<FrameModel>, outcomes: Seq<OcrModel>) -> Seq<FrameModel> {
    Seq::new(
        frames.len(),
        |i: int|
            if i < outcomes.len() {
                recognized(frames[i], outcomes[i])
            } else {
                frames[i]
            },
    )
}

/// How many of the frames carry text.
pub open spec fn text_count(frames: Seq<FrameModel>) -> nat
    decreases frames.len(),
{
    if frames.len() == 0 {
        0
    } else {
        text_count(frames.drop_last()) + if frames.last().ocr_text is Some {
            1nat
        } else {
            0nat
        }
    }
}

/// Recognition keeps every frame in its place and changes nothing of a frame
/// but its text.
pub proof fn lemma_with_texts_preserves(frames: Seq<FrameModel>, outcomes: Seq<OcrModel>)
    ensures
        with_texts(frames, outcomes).len() == frames.len(),
        forall|i: int|
            0 <= i < frames.len() ==> {
                &&& (#[trigger] with_texts(frames, outcomes)[i]).timestamp == frames[i].timestamp
                &&& with_texts(frames, outcomes)[i].frame_path == frames[i].frame_path
                &&& with_texts(frames, outcomes)[i].is_keyframe == frames[i].is_keyframe
            },
{
}

/// Frames that were in ascending order of timestamps before recognition are
/// so after it.
pub proof fn lemma_with_texts_ascending(frames: Seq<FrameModel>, outcomes: Seq<OcrModel>)
    requires
        ascending(frames),
    ensures
        ascending(with_texts(frames, outcomes)),
{
    lemma_with_texts_preserves(frames, outcomes);
}

/// Attaches to each frame the text recognised on it. `outcomes[i]` is how
/// recognition ended for `frames[i]`.
pub fn process_frames(frames: Vec<FrameData>, outcomes: Vec<OcrOutcome>) -> (r: Vec<FrameData>)
    ensures
        frame_models(r@) == with_texts(frame_models(frames@), outcome_models(outcomes@)),
        r@.len() == frames@.len(),
        forall|i: int|
            0 <= i < frames@.len() ==> {
                &&& (#[trigger] r@[i]).timestamp == frames@[i].timestamp
                &&& r@[i].frame_path@ == frames@[i].frame_path@
                &&& r@[i].is_keyframe == frames@[i].is_keyframe
            },
        ascending(frame_models(frames@)) ==> ascending(frame_models(r@)),
{
    let ghost before = frame_models(frames@);
    let ghost results = outcome_models(outcomes@);
    let mut rest = frames;
    let mut texts = outcomes;
    let mut reversed: Vec<FrameData> = Vec::new();
    while rest.len() > 0
        invariant
            rest@.len() <= before.len(),
            frame_models(rest@) == before.take(rest@.len() as int),
            texts@.len() <= results.len(),
            outcome_models(texts@) == results.take(texts@.len() as int),
            texts@.len() == results.len() || texts@.len() >= rest@.len(),
            reversed@.len() == before.len() - rest@.len(),
            forall|k: int|
                0 <= k < reversed@.len() ==> (#[trigger] reversed@[k])@ == with_texts(
                    before,
                    results,
                )[before.len() - 1 - k],
        decreases rest@.len() + texts@.len(),
    {
        let ghost n = rest@.len() as int;
        if texts.len() > rest.len() {
            let ghost m = texts@.len() as int;
            let dropped = texts.pop();
            assert(outcome_models(texts@) =~= results.take(m - 1));
        } else {
            let ghost held = frame_models(rest@);
            let ghost heard = outcome_models(texts@);
            let frame = rest.pop().unwrap();
            assert(frame@ == held[n - 1]);
            assert(frame_models(rest@) =~= before.take(n - 1));
            let updated = if texts.len() > rest.len() {
                let outcome = texts.pop().unwrap();
                assert(outcome@ == heard[n - 1]);
                assert(outcome_models(texts@) =~= results.take(n - 1));
                match outcome {
                    OcrOutcome::Text(text) => if is_blank(text.as_str()) {
                        frame
                    } else {
                        FrameData { ocr_text: Some(text), ..frame }
                    },
                    _ => frame,
                }
            } else {
                frame
            };
            assert(updated@ == with_texts(before, results)[n - 1]);
            reversed.push(updated);
        }
    }
    let mut out: Vec<FrameData> = Vec::new();
    while reversed.len() > 0
        invariant
            reversed@.len() + out@.len() == before.len(),
            forall|k: int|
                0 <= k < reversed@.len() ==> (#[trigger] reversed@[k])@ == with_texts(
                    before,
                    results,
                )[before.len() - 1 - k],
            forall|k: int|
                0 <= k < out@.len() ==> (#[trigger] out@[k])@ == with_texts(before, results)[k],
        decreases reversed@.len(),
    {
        let frame = reversed.pop().unwrap();
        out.push(frame);
    }
    assert(frame_models(out@) =~= with_texts(before, results));
    proof {
        lemma_with_texts_preserves(before, results);
        if ascending(before) {
            lemma_with_texts_ascending(before, results);
        }
        assert forall|i: int| 0 <= i < frames@.len() implies {
            &&& (#[trigger] out@[i]).timestamp == frames@[i].timestamp
            &&& out@[i].frame_path@ == frames@[i].frame_path@
            &&& out@[i].is_keyframe == frames@[i].is_keyframe
        } by {
            assert(out@[i]@ == with_texts(before, results)[i]);
            assert(before[i] == frames@[i]@);
        }
    }
    out
}

/// How many of the frames carry text.
pub fn frames_with_text(frames: &Vec<FrameData>) -> (r: usize)
    ensures
        r == text_count(frame_models(frames@)),
{
    let ghost all = frame_models(frames@);
    let mut n: usize = 0;
    let mut i: usize = 0;
    while i < frames.len()
        invariant
            i <= frames.len(),
            all == frame_models(frames@),
            n <= i,
            n == text_count(all.take(i as int)),
        decreases frames.len() - i,
    {
        proof {
            let head = all.take(i + 1);
            assert(head.drop_last() =~= all.take(i as int));
            assert(head.last() == frames@[i as int]@);
        }
        if frames[i].ocr_text.is_some() {
            n += 1;
        }
        i += 1;
    }
    assert(all.take(i as int) =~= all);
    n
}

} // verus!
