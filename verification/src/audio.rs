//! The audio adapter and the transcription adapter.

use crate::paths::{join_path, joined};
use crate::text::{optional_text, trim_trailing, without_trailing};
use crate::tools::{
    arg_models, arguments, output_failure, run_failure, CommandModel, ExternalToolError, Fault,
    RunModel, ToolCommand, ToolErrorKind, ToolErrorModel, ToolRun,
};
use crate::video::encoder;
use vstd::prelude::*;

verus! {

/// The path of a job's audio file.
pub open spec fn audio_file(output_dir: Seq<char>, job_id: Seq<char>) -> Seq<char> {
    joined(output_dir, job_id + "_audio.wav"@)
}

/// The path of a job's audio file.
pub fn audio_path(output_dir: &str, job_id: &str) -> (r: String)
    ensures
        r@ == audio_file(output_dir@, job_id@),
{
    let name = job_id.to_string().concat("_audio.wav");
    join_path(output_dir, name.as_str())
}

/// The encoder's invocation for the audio track: no video, signed 16-bit
/// little-endian PCM, 16 kHz, one channel, an existing file overwritten.
pub open spec fn audio_invocation(video_path: Seq<char>, output_path: Seq<char>) -> CommandModel {
    CommandModel {
        program: encoder(),
        args: seq![
            "-i"@,
            video_path,
            "-vn"@,
            "-acodec"@,
            "pcm_s16le"@,
            "-ar"@,
            "16000"@,
            "-ac"@,
            "1"@,
            "-y"@,
            output_path,
        ],
    }
}

/// The command that extracts the audio track of `video_path` to `output_path`.
pub fn audio_command(video_path: &str, output_path: &str) -> (r: ToolCommand)
    ensures
        r@ == audio_invocation(video_path@, output_path@),
{
    let texts = vec![
        "-i",
        video_path,
        "-vn",
        "-acodec",
        "pcm_s16le",
        "-ar",
        "16000",
        "-ac",
        "1",
        "-y",
        output_path,
    ];
    let args = arguments(&texts);
    assert(arg_models(args@) =~= audio_invocation(video_path@, output_path@).args);
    ToolCommand { program: "ffmpeg".to_string(), args }
}

/// What audio extraction yields. The encoder's exit status does not count: a
/// video without an audio track makes it complain and still leaves a file.
/// The path is the result where the encoder ran and the file exists.
pub open spec fn audio_result(run: RunModel, output_exists: bool, output_path: Seq<char>) -> Result<
    Seq<char>,
    ToolErrorModel,
> {
    if run is NotStarted {
        Err(run_failure(ToolErrorKind::AudioMissing, encoder(), run))
    } else if output_exists {
        Ok(output_path)
    } else {
        Err(output_failure(ToolErrorKind::AudioMissing, Fault::OutputMissing, encoder(), run))
    }
}

/// Reads the outcome of audio extraction: `run` is how the encoder ended,
/// `output_exists` whether the file at `output_path` exists afterwards.
pub fn extract_audio(run: &ToolRun, output_exists: bool, output_path: &str) -> (r: Result<
    String,
    ExternalToolError,
>)
    ensures
        r is Ok <==> audio_result(run@, output_exists, output_path@) is Ok,
        r matches Ok(path) ==> path@ == audio_result(run@, output_exists, output_path@)->Ok_0,
        r matches Err(e) ==> e@ == audio_result(run@, output_exists, output_path@)->Err_0,
{
    match run {
        ToolRun::NotStarted => Err(
            ExternalToolError::of_run(ToolErrorKind::AudioMissing, "ffmpeg", run),
        ),
        _ => if output_exists {
            Ok(output_path.to_string())
        } else {
            Err(
                ExternalToolError::of_output(
                    ToolErrorKind::AudioMissing,
                    Fault::OutputMissing,
                    "ffmpeg",
                    run,
                ),
            )
        },
    }
}

/// The name under which the speech recogniser is run.
pub open spec fn transcriber() -> Seq<char> {
    "whisper"@
}

/// The recogniser's invocation: the base model, English, plain text output.
pub open spec fn transcribe_invocation(audio_path: Seq<char>) -> CommandModel {
    CommandModel {
        program: transcriber(),
        args: seq![
            audio_path,
            "--model"@,
            "base"@,
            "--language"@,
            "en"@,
            "--output_format"@,
            "txt"@,
            "--output_dir"@,
            "/tmp"@,
        ],
    }
}

/// The command that transcribes the audio at `audio_path`.
pub fn transcribe_command(audio_path: &str) -> (r: ToolCommand)
    ensures
        r@ == transcribe_invocation(audio_path@),
{
    let texts = vec![
        audio_path,
        "--model",
        "base",
        "--language",
        "en",
        "--output_format",
        "txt",
        "--output_dir",
        "/tmp",
    ];
    let args = arguments(&texts);
    assert(arg_models(args@) =~= transcribe_invocation(audio_path@).args);
    ToolCommand { program: "whisper".to_string(), args }
}

/// The file in which the transcript of `audio_path` is looked for: the same
/// path with `.txt` in place of `.wav`.
pub open spec fn transcript_file(audio_path: Seq<char>) -> Seq<char> {
    without_trailing(audio_path, ".wav"@) + ".txt"@
}

/// The file in which the transcript of `audio_path` is looked for.
pub fn transcript_path(audio_path: &str) -> (r: String)
    ensures
        r@ == transcript_file(audio_path@),
{
    trim_trailing(audio_path, ".wav").concat(".txt")
}

/// The transcript of a job: what the transcript file held, where the
/// recogniser succeeded and the file could be read; the empty text otherwise.
pub open spec fn transcription_of(run: RunModel, transcript: Option<Seq<char>>) -> Seq<char> {
    if run.succeeded() && transcript is Some {
        transcript->0
    } else {
        Seq::empty()
    }
}

/// Reads the outcome of a transcription: `run` is how the recogniser ended,
/// `transcript` what the transcript file held, if it was there and readable.
/// Transcription never fails a job.
pub fn transcribe_audio(run: &ToolRun, transcript: Option<String>) -> (r: String)
    ensures
        r@ == transcription_of(run@, optional_text(transcript)),
{
    if run.succeeded() {
        match transcript {
            Some(text) => text,
            None => String::new(),
        }
    } else {
        String::new()
    }
}

} // verus!
