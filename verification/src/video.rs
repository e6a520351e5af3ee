//! Video metadata and frame descriptors, the probe adapter and the keyframe
//! adapter.

use crate::json::{
    json_elements, json_valid, lookup, members_or_none, read_elements, read_valid, string_at,
    unsigned_at, JsonObject, Members,
};
use crate::paths::{extension_of, file_extension, file_stem, join_path, joined, stem_of};
use crate::scalar::{rank_of, Scalar, SIGN_BIT};
use crate::text::{
    count_of, last_index_of, last_position, occurrences, optional_text, starts_with,
};
use crate::tools::{
    arg_models, arguments, output_failure, run_failure, CommandModel, ExternalToolError, Fault,
    RunModel, ToolCommand, ToolErrorKind, ToolErrorModel, ToolRun,
};
use vstd::prelude::*;

verus! {

/// What is known of a video after probing it.
#[derive(Debug)]
pub struct VideoInfo {
    pub duration_seconds: Scalar,
    pub width: u32,
    pub height: u32,
    pub fps: Scalar,
    pub codec: String,
}

/// What a `VideoInfo` holds.
pub struct VideoInfoModel {
    pub duration_seconds: Scalar,
    pub width: u32,
    pub height: u32,
    pub fps: Scalar,
    pub codec: Seq<char>,
}

impl View for VideoInfo {
    type V = VideoInfoModel;

    open spec fn view(&self) -> VideoInfoModel {
        VideoInfoModel {
            duration_seconds: self.duration_seconds,
            width: self.width,
            height: self.height,
            fps: self.fps,
            codec: self.codec@,
        }
    }
}

impl Clone for VideoInfo {
    fn clone(&self) -> (r: Self)
        ensures
            r@ == self@,
    {
        VideoInfo {
            duration_seconds: self.duration_seconds,
            width: self.width,
            height: self.height,
            fps: self.fps,
            codec: self.codec.clone(),
        }
    }
}

/// One extracted frame.
#[derive(Debug)]
pub struct FrameData {
    pub timestamp: Scalar,
    pub frame_path: String,
    pub ocr_text: Option<String>,
    pub is_keyframe: bool,
}

/// What a `FrameData` holds.
pub struct FrameModel {
    pub timestamp: Scalar,
    pub frame_path: Seq<char>,
    pub ocr_text: Option<Seq<char>>,
    pub is_keyframe: bool,
}

impl View for FrameData {
    type V = FrameModel;

    open spec fn view(&self) -> FrameModel {
        FrameModel {
            timestamp: self.timestamp,
            frame_path: self.frame_path@,
            ocr_text: optional_text(self.ocr_text),
            is_keyframe: self.is_keyframe,
        }
    }
}

impl Clone for FrameData {
    fn clone(&self) -> (r: Self)
        ensures
            r@ == self@,
    {
        let ocr_text = match &self.ocr_text {
            Some(t) => Some(t.clone()),
            None => None,
        };
        FrameData {
            timestamp: self.timestamp,
            frame_path: self.frame_path.clone(),
            ocr_text,
            is_keyframe: self.is_keyframe,
        }
    }
}

/// What a list of frames holds, frame by frame.
pub open spec fn frame_models(frames: Seq<FrameData>) -> Seq<FrameModel> {
    frames.map_values(|f: FrameData| f@)
}

/// The name under which the probe is run.
pub open spec fn prober() -> Seq<char> {
    "ffprobe"@
}

/// The name under which the frame and audio encoder is run.
pub open spec fn encoder() -> Seq<char> {
    "ffmpeg"@
}

/// The probe's invocation: width, height, frame rate and codec of the first
/// video stream and the duration of the container, as JSON.
pub open spec fn probe_invocation(video_path: Seq<char>) -> CommandModel {
    CommandModel {
        program: prober(),
        args: seq![
            "-v"@,
            "error"@,
            "-select_streams"@,
            "v:0"@,
            "-show_entries"@,
            "stream=width,height,r_frame_rate,codec_name"@,
            "-show_entries"@,
            "format=duration"@,
            "-of"@,
            "json"@,
            video_path,
        ],
    }
}

/// The command that probes the video at `video_path`.
pub fn probe_command(video_path: &str) -> (r: ToolCommand)
    ensures
        r@ == probe_invocation(video_path@),
{
    let texts = vec![
        "-v",
        "error",
        "-select_streams",
        "v:0",
        "-show_entries",
        "stream=width,height,r_frame_rate,codec_name",
        "-show_entries",
        "format=duration",
        "-of",
        "json",
        video_path,
    ];
    let args = arguments(&texts);
    assert(arg_models(args@) =~= probe_invocation(video_path@).args);
    ToolCommand { program: "ffprobe".to_string(), args }
}

/// What the probe reported, numbers that may have a fraction still as text.
#[derive(Debug)]
pub struct ProbeReport {
    pub width: u32,
    pub height: u32,
    pub frame_rate: String,
    pub duration: String,
    pub codec: String,
}

/// What a `ProbeReport` holds.
pub struct ReportModel {
    pub width: u32,
    pub height: u32,
    pub frame_rate: Seq<char>,
    pub duration: Seq<char>,
    pub codec: Seq<char>,
}

impl View for ProbeReport {
    type V = ReportModel;

    open spec fn view(&self) -> ReportModel {
        ReportModel {
            width: self.width,
            height: self.height,
            frame_rate: self.frame_rate@,
            duration: self.duration@,
            codec: self.codec@,
        }
    }
}

/// The members of the first entry of the document's `streams`, none where
/// there is no such entry.
pub open spec fn first_stream(document: Members) -> Members {
    match lookup(document, "streams"@) {
        Some(list) => match json_elements(list) {
            Some(streams) => if streams.len() > 0 {
                members_or_none(streams[0])
            } else {
                Seq::empty()
            },
            None => Seq::empty(),
        },
        None => Seq::empty(),
    }
}

/// The members of the document's `format`, none where there is none.
pub open spec fn format_section(document: Members) -> Members {
    match lookup(document, "format"@) {
        Some(format) => members_or_none(format),
        None => Seq::empty(),
    }
}

/// A picture dimension: the unsigned number under `key`, cut to 32 bits, or 0.
pub open spec fn dimension(stream: Members, key: Seq<char>) -> u32 {
    match unsigned_at(stream, key) {
        Some(n) => (n % 0x1_0000_0000) as u32,
        None => 0,
    }
}

/// The string under `key`, or `fallback`.
pub open spec fn string_or(members: Members, key: Seq<char>, fallback: Seq<char>) -> Seq<char> {
    match string_at(members, key) {
        Some(text) => text,
        None => fallback,
    }
}

/// What the probe's JSON output says; what it leaves out is 0, `30/1` for the
/// frame rate, `0` for the duration and `unknown` for the codec.
pub open spec fn report_of(stdout: Seq<char>) -> ReportModel {
    let document = members_or_none(stdout);
    let stream = first_stream(document);
    let format = format_section(document);
    ReportModel {
        width: dimension(stream, "width"@),
        height: dimension(stream, "height"@),
        frame_rate: string_or(stream, "r_frame_rate"@, "30/1"@),
        duration: string_or(format, "duration"@, "0"@),
        codec: string_or(stream, "codec_name"@, "unknown"@),
    }
}

/// What the probe yields: a report where it exited with status zero and
/// printed JSON, an error otherwise.
pub open spec fn probe_result(run: RunModel) -> Result<ReportModel, ToolErrorModel> {
    if !run.succeeded() {
        Err(run_failure(ToolErrorKind::ProbeFailed, prober(), run))
    } else if !json_valid(run->stdout) {
        Err(output_failure(ToolErrorKind::ProbeFailed, Fault::OutputUnreadable, prober(), run))
    } else {
        Ok(report_of(run->stdout))
    }
}

fn first_stream_of(document: &JsonObject) -> (r: JsonObject)
    ensures
        r@ == first_stream(document@),
{
    match document.get("streams") {
        Some(list) => match read_elements(list.as_str()) {
            Some(streams) => if streams.len() > 0 {
                JsonObject::parse_or_empty(streams[0].as_str())
            } else {
                JsonObject::new()
            },
            None => JsonObject::new(),
        },
        None => JsonObject::new(),
    }
}

fn format_section_of(document: &JsonObject) -> (r: JsonObject)
    ensures
        r@ == format_section(document@),
{
    match document.get("format") {
        Some(format) => JsonObject::parse_or_empty(format.as_str()),
        None => JsonObject::new(),
    }
}

fn dimension_of(stream: &JsonObject, key: &str) -> (r: u32)
    ensures
        r == dimension(stream@, key@),
{
    match stream.unsigned_member(key) {
        Some(n) => (n % 0x1_0000_0000) as u32,
        None => 0,
    }
}

fn string_or_else(members: &JsonObject, key: &str, fallback: &str) -> (r: String)
    ensures
        r@ == string_or(members@, key@, fallback@),
{
    match members.string_member(key) {
        Some(text) => text,
        None => fallback.to_string(),
    }
}

/// Reads the outcome of a probe.
pub fn process_video(run: &ToolRun) -> (r: Result<ProbeReport, ExternalToolError>)
    ensures
        r is Ok <==> probe_result(run@) is Ok,
        r matches Ok(report) ==> report@ == probe_result(run@)->Ok_0,
        r matches Err(e) ==> e@ == probe_result(run@)->Err_0,
{
    if !run.succeeded() {
        return Err(ExternalToolError::of_run(ToolErrorKind::ProbeFailed, "ffprobe", run));
    }
    match run {
        ToolRun::NotStarted => Err(
            ExternalToolError::of_run(ToolErrorKind::ProbeFailed, "ffprobe", run),
        ),
        ToolRun::Exited { code: _, stdout, stderr: _ } => {
            if !read_valid(stdout.as_str()) {
                return Err(
                    ExternalToolError::of_output(
                        ToolErrorKind::ProbeFailed,
                        Fault::OutputUnreadable,
                        "ffprobe",
                        run,
                    ),
                );
            }
            let document = JsonObject::parse_or_empty(stdout.as_str());
            let stream = first_stream_of(&document);
            let format = format_section_of(&document);
            Ok(
                ProbeReport {
                    width: dimension_of(&stream, "width"),
                    height: dimension_of(&stream, "height"),
                    frame_rate: string_or_else(&stream, "r_frame_rate", "30/1"),
                    duration: string_or_else(&format, "duration", "0"),
                    codec: string_or_else(&stream, "codec_name", "unknown"),
                },
            )
        },
    }
}

impl VideoInfo {
    /// The metadata of a probed video: dimensions and codec from the report,
    /// duration and frame rate as the caller has read them off the report's
    /// texts.
    pub fn from_report(report: ProbeReport, duration_seconds: Scalar, fps: Scalar) -> (r:
        VideoInfo)
        ensures
            r@ == (VideoInfoModel {
                duration_seconds,
                width: report.width,
                height: report.height,
                fps,
                codec: report.codec@,
            }),
    {
        VideoInfo {
            duration_seconds,
            width: report.width,
            height: report.height,
            fps,
            codec: report.codec,
        }
    }
}

/// A frame rate as it is written.
#[derive(Debug)]
pub enum FrameRate {
    /// Two texts with one `/` between them: the rate is their quotient.
    Ratio { numerator: String, denominator: String },
    /// Any other text: the rate is the number it denotes.
    Plain(String),
}

/// What a `FrameRate` holds.
pub enum RateModel {
    Ratio { numerator: Seq<char>, denominator: Seq<char> },
    Plain(Seq<char>),
}

impl View for FrameRate {
    type V = RateModel;

    open spec fn view(&self) -> RateModel {
        match self {
            FrameRate::Ratio { numerator, denominator } => RateModel::Ratio {
                numerator: numerator@,
                denominator: denominator@,
            },
            FrameRate::Plain(text) => RateModel::Plain(text@),
        }
    }
}

/// How a frame rate's text is read: as a ratio where exactly one `/` is in
/// it, as a plain number otherwise.
pub open spec fn rate_of(text: Seq<char>) -> RateModel {
    if occurrences(text, '/') == 1 {
        let at = last_position(text, '/')->0;
        RateModel::Ratio {
            numerator: text.subrange(0, at),
            denominator: text.subrange(at + 1, text.len() as int),
        }
    } else {
        RateModel::Plain(text)
    }
}

/// A character that occurs in a text has a last position there.
proof fn lemma_occurs_has_position(text: Seq<char>, c: char)
    ensures
        occurrences(text, c) > 0 <==> last_position(text, c) is Some,
        last_position(text, c) matches Some(at) ==> 0 <= at < text.len(),
    decreases text.len(),
{
    if text.len() > 0 {
        lemma_occurs_has_position(text.drop_last(), c);
    }
}

/// Parts the text of a frame rate into the texts of the numbers that make it
/// up. A caller reads the numbers off them and has `resolve_fps` settle the
/// rate.
pub fn parse_fps(text: &str) -> (r: FrameRate)
    ensures
        r@ == rate_of(text@),
{
    if count_of(text, '/') == 1 {
        proof {
            lemma_occurs_has_position(text@, '/');
        }
        match last_index_of(text, '/') {
            Some(at) => {
                let len = text.unicode_len();
                FrameRate::Ratio {
                    numerator: text.substring_char(0, at).to_string(),
                    denominator: text.substring_char(at + 1, len).to_string(),
                }
            },
            None => FrameRate::Plain(text.to_string()),
        }
    } else {
        FrameRate::Plain(text.to_string())
    }
}

/// The bit pattern of the number 30, the frame rate of a video whose rate is
/// not known.
pub const DEFAULT_FPS_BITS: u64 = 0x403E_0000_0000_0000;

/// The numbers that a caller has read off the text of a frame rate.
#[derive(Clone, Copy, Debug)]
pub struct RateNumbers {
    /// Denominator and quotient of a ratio, where both of its parts are
    /// numbers.
    pub ratio: Option<(Scalar, Scalar)>,
    /// The number that the whole text denotes, where it denotes one.
    pub whole: Option<Scalar>,
}

/// Whether a number is zero, positive or negative.
pub open spec fn is_zero(value: Scalar) -> bool {
    value.bits == 0 || value.bits == SIGN_BIT
}

/// The frame rate when no quotient can be taken: the number that the whole
/// text denotes, and 30 where it denotes none.
pub open spec fn fallback_rate(numbers: RateNumbers) -> Scalar {
    match numbers.whole {
        Some(value) => value,
        None => Scalar { bits: DEFAULT_FPS_BITS },
    }
}

/// The frame rate: for a ratio whose parts are numbers and whose denominator
/// is not zero, the quotient; otherwise what the whole text denotes, or 30.
pub open spec fn rate_value(rate: RateModel, numbers: RateNumbers) -> Scalar {
    match rate {
        RateModel::Ratio { .. } => match numbers.ratio {
            Some((denominator, quotient)) => if is_zero(denominator) {
                fallback_rate(numbers)
            } else {
                quotient
            },
            None => fallback_rate(numbers),
        },
        RateModel::Plain(_) => fallback_rate(numbers),
    }
}

/// Settles the frame rate from the parted text and the numbers read off it.
pub fn resolve_fps(rate: &FrameRate, numbers: RateNumbers) -> (r: Scalar)
    ensures
        r == rate_value(rate@, numbers),
{
    let fallback = match numbers.whole {
        Some(value) => value,
        None => Scalar::from_bits(DEFAULT_FPS_BITS),
    };
    match rate {
        FrameRate::Ratio { .. } => match numbers.ratio {
            Some((denominator, quotient)) => {
                let bits = denominator.to_bits();
                if bits == 0 || bits == SIGN_BIT {
                    fallback
                } else {
                    quotient
                }
            },
            None => fallback,
        },
        FrameRate::Plain(_) => fallback,
    }
}

/// The directory that holds a job's frames.
pub open spec fn frames_directory(output_dir: Seq<char>, job_id: Seq<char>) -> Seq<char> {
    joined(output_dir, job_id + "_frames"@)
}

/// The directory that holds a job's frames.
pub fn frames_dir(output_dir: &str, job_id: &str) -> (r: String)
    ensures
        r@ == frames_directory(output_dir@, job_id@),
{
    let name = job_id.to_string().concat("_frames");
    join_path(output_dir, name.as_str())
}

/// The scene-change pass: frames whose scene score exceeds 0.3, at a variable
/// frame rate, JPEG quality 2, named `frame_` and the presentation timestamp.
pub open spec fn scene_invocation(video_path: Seq<char>, frames_dir: Seq<char>) -> CommandModel {
    CommandModel {
        program: encoder(),
        args: seq![
            "-i"@,
            video_path,
            "-vf"@,
            "select='gt(scene,0.3)',showinfo"@,
            "-vsync"@,
            "vfr"@,
            "-frame_pts"@,
            "1"@,
            "-q:v"@,
            "2"@,
            joined(frames_dir, "frame_%04d.jpg"@),
        ],
    }
}

/// The regular pass: one frame every two seconds, JPEG quality 2, named
/// `regular_` and the presentation timestamp.
pub open spec fn interval_invocation(video_path: Seq<char>, frames_dir: Seq<char>) -> CommandModel {
    CommandModel {
        program: encoder(),
        args: seq![
            "-i"@,
            video_path,
            "-vf"@,
            "fps=1/2,showinfo"@,
            "-frame_pts"@,
            "1"@,
            "-q:v"@,
            "2"@,
            joined(frames_dir, "regular_%04d.jpg"@),
        ],
    }
}

/// The command of the scene-change pass.
pub fn scene_command(video_path: &str, frames_dir: &str) -> (r: ToolCommand)
    ensures
        r@ == scene_invocation(video_path@, frames_dir@),
{
    let pattern = join_path(frames_dir, "frame_%04d.jpg");
    let texts = vec![
        "-i",
        video_path,
        "-vf",
        "select='gt(scene,0.3)',showinfo",
        "-vsync",
        "vfr",
        "-frame_pts",
        "1",
        "-q:v",
        "2",
        pattern.as_str(),
    ];
    let args = arguments(&texts);
    assert(arg_models(args@) =~= scene_invocation(video_path@, frames_dir@).args);
    ToolCommand { program: "ffmpeg".to_string(), args }
}

/// The command of the regular pass.
pub fn interval_command(video_path: &str, frames_dir: &str) -> (r: ToolCommand)
    ensures
        r@ == interval_invocation(video_path@, frames_dir@),
{
    let pattern = join_path(frames_dir, "regular_%04d.jpg");
    let texts = vec![
        "-i",
        video_path,
        "-vf",
        "fps=1/2,showinfo",
        "-frame_pts",
        "1",
        "-q:v",
        "2",
        pattern.as_str(),
    ];
    let args = arguments(&texts);
    assert(arg_models(args@) =~= interval_invocation(video_path@, frames_dir@).args);
    ToolCommand { program: "ffmpeg".to_string(), args }
}

/// An extracted image, before its timestamp has been read.
#[derive(Debug)]
pub struct FrameEntry {
    pub frame_path: String,
    pub timestamp_text: Option<String>,
    pub is_keyframe: bool,
}

/// What a `FrameEntry` holds.
pub struct EntryModel {
    pub frame_path: Seq<char>,
    pub timestamp_text: Option<Seq<char>>,
    pub is_keyframe: bool,
}

impl View for FrameEntry {
    type V = EntryModel;

    open spec fn view(&self) -> EntryModel {
        EntryModel {
            frame_path: self.frame_path@,
            timestamp_text: optional_text(self.timestamp_text),
            is_keyframe: self.is_keyframe,
        }
    }
}

/// What a list of entries holds.
pub open spec fn entry_models(entries: Seq<FrameEntry>) -> Seq<EntryModel> {
    entries.map_values(|e: FrameEntry| e@)
}

/// The text after the last `_` of a file stem, which names the frame's
/// timestamp; none where the stem has no `_`.
pub open spec fn timestamp_token(stem: Seq<char>) -> Option<Seq<char>> {
    match last_position(stem, '_') {
        Some(at) => Some(stem.subrange(at + 1, stem.len() as int)),
        None => None,
    }
}

/// Whether a file is an extracted image: its extension is `jpg`.
pub open spec fn is_frame_image(name: Seq<char>) -> bool {
    extension_of(name) == Some("jpg"@)
}

/// The entry for the image `name` in `frames_dir`. It is a keyframe where its
/// stem begins with `frame_`.
pub open spec fn entry_of(name: Seq<char>, frames_dir: Seq<char>) -> EntryModel {
    EntryModel {
        frame_path: joined(frames_dir, name),
        timestamp_text: timestamp_token(stem_of(name)),
        is_keyframe: "frame_"@.is_prefix_of(stem_of(name)),
    }
}

/// The entries for the images among `names`, in the order of `names`.
pub open spec fn entries_of(names: Seq<Seq<char>>, frames_dir: Seq<char>) -> Seq<EntryModel>
    decreases names.len(),
{
    if names.len() == 0 {
        Seq::empty()
    } else {
        let head = entries_of(names.drop_last(), frames_dir);
        if is_frame_image(names.last()) {
            head.push(entry_of(names.last(), frames_dir))
        } else {
            head
        }
    }
}

/// The text after the last `_` of a file stem. A caller reads it as a number,
/// the frame's timestamp, and takes 0 where there is none or it denotes none.
pub fn parse_timestamp(stem: &str) -> (r: Option<String>)
    ensures
        optional_text(r) == timestamp_token(stem@),
{
    proof {
        crate::paths::lemma_last_position_in_range(stem@, '_');
    }
    match last_index_of(stem, '_') {
        Some(at) => {
            let len = stem.unicode_len();
            Some(stem.substring_char(at + 1, len).to_string())
        },
        None => None,
    }
}

fn is_jpg(name: &str) -> (r: bool)
    ensures
        r == is_frame_image(name@),
{
    match file_extension(name) {
        Some(extension) => {
            let wanted = "jpg".to_string();
            extension == wanted
        },
        None => false,
    }
}

/// The images among the file names found in a job's frames directory.
pub fn frame_entries(names: &Vec<String>, frames_dir: &str) -> (r: Vec<FrameEntry>)
    ensures
        entry_models(r@) == entries_of(arg_models(names@), frames_dir@),
{
    let mut entries: Vec<FrameEntry> = Vec::new();
    let ghost all = arg_models(names@);
    let mut i: usize = 0;
    assert(entry_models(entries@) =~= entries_of(all.take(0), frames_dir@));
    while i < names.len()
        invariant
            i <= names.len(),
            all == arg_models(names@),
            entry_models(entries@) == entries_of(all.take(i as int), frames_dir@),
        decreases names.len() - i,
    {
        proof {
            let head = all.take(i + 1);
            assert(head.drop_last() =~= all.take(i as int));
            assert(head.last() == names@[i as int]@);
        }
        let name = names[i].as_str();
        if is_jpg(name) {
            let stem = file_stem(name);
            let entry = FrameEntry {
                frame_path: join_path(frames_dir, name),
                timestamp_text: parse_timestamp(stem.as_str()),
                is_keyframe: starts_with(stem.as_str(), "frame_"),
            };
            let ghost before = entry_models(entries@);
            entries.push(entry);
            assert(entry_models(entries@) =~= before.push(entry_of(name@, frames_dir@)));
        }
        i += 1;
    }
    assert(all.take(i as int) =~= all);
    entries
}

impl FrameEntry {
    /// The frame of this image, with the timestamp that the caller has read
    /// off its name, and no text yet.
    pub fn into_frame(self, timestamp: Scalar) -> (r: FrameData)
        ensures
            r@ == (FrameModel {
                timestamp,
                frame_path: self@.frame_path,
                ocr_text: None,
                is_keyframe: self@.is_keyframe,
            }),
    {
        FrameData {
            timestamp,
            frame_path: self.frame_path,
            ocr_text: None,
            is_keyframe: self.is_keyframe,
        }
    }
}

/// The place of a frame in ascending order of timestamps.
pub open spec fn frame_rank(frame: FrameModel) -> int {
    rank_of(frame.timestamp.bits)
}

/// No frame comes before one with a smaller timestamp.
pub open spec fn ascending(frames: Seq<FrameModel>) -> bool {
    forall|i: int, j: int|
        0 <= i < j < frames.len() ==> frame_rank(#[trigger] frames[i]) <= frame_rank(
            #[trigger] frames[j],
        )
}

/// `sorted` with `frame` put before the first frame that is not earlier.
pub open spec fn placed(frame: FrameModel, sorted: Seq<FrameModel>) -> Seq<FrameModel>
    decreases sorted.len(),
{
    if sorted.len() == 0 {
        seq![frame]
    } else if frame_rank(frame) <= frame_rank(sorted.first()) {
        seq![frame] + sorted
    } else {
        seq![sorted.first()] + placed(frame, sorted.drop_first())
    }
}

/// The frames by ascending timestamp; frames with the same timestamp stay in
/// the order they had.
pub open spec fn in_order(frames: Seq<FrameModel>) -> Seq<FrameModel>
    decreases frames.len(),
{
    if frames.len() == 0 {
        Seq::empty()
    } else {
        placed(frames.first(), in_order(frames.drop_first()))
    }
}

/// Putting a frame before the first that is not earlier is an insertion at
/// the position that many earlier frames precede.
proof fn lemma_placed_is_insert(frame: FrameModel, sorted: Seq<FrameModel>, at: int)
    requires
        0 <= at <= sorted.len(),
        forall|j: int| 0 <= j < at ==> frame_rank(#[trigger] sorted[j]) < frame_rank(frame),
        at < sorted.len() ==> frame_rank(frame) <= frame_rank(sorted[at]),
    ensures
        placed(frame, sorted) == sorted.insert(at, frame),
    decreases sorted.len(),
{
    if sorted.len() == 0 {
        assert(seq![frame] =~= sorted.insert(0, frame));
    } else if at == 0 {
        assert(seq![frame] + sorted =~= sorted.insert(0, frame));
    } else {
        let rest = sorted.drop_first();
        assert(frame_rank(sorted[0]) < frame_rank(frame));
        assert forall|j: int| 0 <= j < at - 1 implies frame_rank(#[trigger] rest[j]) < frame_rank(
            frame,
        ) by {
            assert(rest[j] == sorted[j + 1]);
        }
        lemma_placed_is_insert(frame, rest, at - 1);
        assert(seq![sorted.first()] + rest.insert(at - 1, frame) =~= sorted.insert(at, frame));
    }
}

/// Placing a frame keeps an ascending list ascending and adds just that frame.
proof fn lemma_placed_ascending(frame: FrameModel, sorted: Seq<FrameModel>)
    requires
        ascending(sorted),
    ensures
        ascending(placed(frame, sorted)),
        placed(frame, sorted).to_multiset() == sorted.to_multiset().insert(frame),
        placed(frame, sorted).len() == sorted.len() + 1,
        forall|k: int|
            0 <= k < placed(frame, sorted).len() ==> #[trigger] placed(frame, sorted)[k] == frame
                || sorted.contains(placed(frame, sorted)[k]),
    decreases sorted.len(),
{
    broadcast use vstd::seq_lib::to_multiset_insert;

    if sorted.len() == 0 {
        assert(seq![frame] =~= sorted.insert(0, frame));
    } else if frame_rank(frame) <= frame_rank(sorted.first()) {
        assert(seq![frame] + sorted =~= sorted.insert(0, frame));
        let result = sorted.insert(0, frame);
        assert forall|k: int| 0 <= k < result.len() implies #[trigger] result[k] == frame
            || sorted.contains(result[k]) by {
            if k > 0 {
                assert(result[k] == sorted[k - 1]);
            }
        }
        assert forall|i: int, j: int| 0 <= i < j < result.len() implies frame_rank(
            #[trigger] result[i],
        ) <= frame_rank(#[trigger] result[j]) by {
            if i > 0 {
                assert(result[i] == sorted[i - 1]);
            }
            assert(result[j] == sorted[j - 1]);
        }
    } else {
        let rest = sorted.drop_first();
        assert forall|i: int, j: int| 0 <= i < j < rest.len() implies frame_rank(
            #[trigger] rest[i],
        ) <= frame_rank(#[trigger] rest[j]) by {
            assert(rest[i] == sorted[i + 1]);
            assert(rest[j] == sorted[j + 1]);
        }
        lemma_placed_ascending(frame, rest);
        let inner = placed(frame, rest);
        let result = seq![sorted.first()] + inner;
        assert(result =~= inner.insert(0, sorted.first()));
        assert(sorted =~= rest.insert(0, sorted.first()));
        assert forall|i: int, j: int| 0 <= i < j < result.len() implies frame_rank(
            #[trigger] result[i],
        ) <= frame_rank(#[trigger] result[j]) by {
            assert(result[j] == inner[j - 1]);
            if i > 0 {
                assert(result[i] == inner[i - 1]);
            } else {
                if inner[j - 1] != frame {
                    assert(rest.contains(inner[j - 1]));
                    let k = choose|k: int| 0 <= k < rest.len() && rest[k] == inner[j - 1];
                    assert(rest[k] == sorted[k + 1]);
                }
            }
        }
        assert forall|k: int| 0 <= k < result.len() implies #[trigger] result[k] == frame
            || sorted.contains(result[k]) by {
            if k == 0 {
                assert(sorted[0] == result[0]);
            } else {
                assert(result[k] == inner[k - 1]);
                if inner[k - 1] != frame {
                    assert(rest.contains(inner[k - 1]));
                    let m = choose|m: int| 0 <= m < rest.len() && rest[m] == inner[k - 1];
                    assert(sorted[m + 1] == rest[m]);
                }
            }
        }
        assert(result.to_multiset() =~= sorted.to_multiset().insert(frame));
    }
}

/// The frames in order are ascending, and they are the same frames, each as
/// often as before.
pub proof fn lemma_in_order_ascending(frames: Seq<FrameModel>)
    ensures
        ascending(in_order(frames)),
        in_order(frames).to_multiset() == frames.to_multiset(),
        in_order(frames).len() == frames.len(),
    decreases frames.len(),
{
    broadcast use vstd::seq_lib::to_multiset_insert;

    if frames.len() == 0 {
        assert(in_order(frames) =~= frames);
    } else {
        lemma_in_order_ascending(frames.drop_first());
        lemma_placed_ascending(frames.first(), in_order(frames.drop_first()));
        assert(frames =~= frames.drop_first().insert(0, frames.first()));
    }
}

/// Frames that are in ascending order already are left as they are.
pub proof fn lemma_in_order_fixed(frames: Seq<FrameModel>)
    requires
        ascending(frames),
    ensures
        in_order(frames) == frames,
    decreases frames.len(),
{
    if frames.len() > 0 {
        let rest = frames.drop_first();
        assert forall|i: int, j: int| 0 <= i < j < rest.len() implies frame_rank(
            #[trigger] rest[i],
        ) <= frame_rank(#[trigger] rest[j]) by {
            assert(rest[i] == frames[i + 1]);
            assert(rest[j] == frames[j + 1]);
        }
        lemma_in_order_fixed(rest);
        if rest.len() > 0 {
            assert(rest.first() == frames[1]);
        }
        assert(placed(frames.first(), rest) =~= frames);
    } else {
        assert(in_order(frames) =~= frames);
    }
}

/// The frames by ascending timestamp; frames with the same timestamp stay in
/// the order they had.
pub fn sort_frames(frames: Vec<FrameData>) -> (r: Vec<FrameData>)
    ensures
        frame_models(r@) == in_order(frame_models(frames@)),
        ascending(frame_models(r@)),
        frame_models(r@).to_multiset() == frame_models(frames@).to_multiset(),
        r@.len() == frames@.len(),
{
    let ghost all = frame_models(frames@);
    let mut rest = frames;
    let mut out: Vec<FrameData> = Vec::new();
    assert(all.skip(rest@.len() as int) =~= Seq::empty());
    assert(frame_models(out@) =~= Seq::empty());
    while rest.len() > 0
        invariant
            rest@.len() <= all.len(),
            frame_models(rest@) == all.take(rest@.len() as int),
            frame_models(out@) == in_order(all.skip(rest@.len() as int)),
        decreases rest@.len(),
    {
        let ghost n = rest@.len() as int;
        let ghost sorted = frame_models(out@);
        let ghost before = frame_models(rest@);
        let frame = rest.pop().unwrap();
        proof {
            assert(frame@ == before[n - 1]);
            assert(frame@ == all[n - 1]);
            assert(frame_models(rest@) =~= all.take(n - 1));
            assert(all.skip(n - 1).first() == all[n - 1]);
            assert(all.skip(n - 1).drop_first() =~= all.skip(n));
            lemma_in_order_ascending(all.skip(n));
        }
        let rank = frame.timestamp.rank();
        let mut at: usize = 0;
        while at < out.len() && out[at].timestamp.rank() < rank
            invariant
                at <= out.len(),
                sorted == frame_models(out@),
                rank == frame_rank(frame@),
                forall|j: int| 0 <= j < at ==> frame_rank(#[trigger] sorted[j]) < rank,
            decreases out.len() - at,
        {
            assert(sorted[at as int] == out@[at as int]@);
            at += 1;
        }
        proof {
            if at < out.len() {
                assert(sorted[at as int] == out@[at as int]@);
            }
            lemma_placed_is_insert(frame@, sorted, at as int);
        }
        out.insert(at, frame);
        assert(frame_models(out@) =~= sorted.insert(at as int, frame@));
    }
    proof {
        assert(all.skip(0) =~= all);
        lemma_in_order_ascending(all);
    }
    out
}

/// What frame extraction yields: the frames by ascending timestamp, unless
/// the scene-change pass could not be started.
pub open spec fn keyframes_result(run: RunModel, frames: Seq<FrameModel>) -> Result<
    Seq<FrameModel>,
    ToolErrorModel,
> {
    if run is NotStarted {
        Err(run_failure(ToolErrorKind::FramesFailed, encoder(), run))
    } else {
        Ok(in_order(frames))
    }
}

/// Reads the outcome of frame extraction: `run` is how the scene-change pass
/// ended, `frames` are the images found afterwards. How the passes exited
/// does not count, only what they left behind.
pub fn extract_keyframes(run: &ToolRun, frames: Vec<FrameData>) -> (r: Result<
    Vec<FrameData>,
    ExternalToolError,
>)
    ensures
        r is Ok <==> keyframes_result(run@, frame_models(frames@)) is Ok,
        r matches Ok(sorted) ==> {
            &&& frame_models(sorted@) == in_order(frame_models(frames@))
            &&& ascending(frame_models(sorted@))
            &&& frame_models(sorted@).to_multiset() == frame_models(frames@).to_multiset()
        },
        r matches Err(e) ==> e@ == keyframes_result(run@, frame_models(frames@))->Err_0,
{
    match run {
        ToolRun::NotStarted => Err(
            ExternalToolError::of_run(ToolErrorKind::FramesFailed, "ffmpeg", run),
        ),
        _ => Ok(sort_frames(frames)),
    }
}

} // verus!
