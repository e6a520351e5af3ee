use video_worker::envelope::JobEnvelope;
use video_worker::ocr::OcrOutcome;
use video_worker::pipeline::{Action, Event, Job, JobStatus, Outcome, Phase};
use video_worker::scalar::Scalar;
use video_worker::status::{fail_job, update_job_status};
use video_worker::tools::{ExternalToolError, ToolErrorKind, ToolRun};
use video_worker::video::{FrameData, VideoInfo};

fn envelope(job_id: &str, url: &str) -> JobEnvelope {
    JobEnvelope { job_id: job_id.to_string(), url: url.to_string() }
}

fn info(duration: f64) -> VideoInfo {
    VideoInfo {
        duration_seconds: Scalar::from_bits(duration.to_bits()),
        width: 1920,
        height: 1080,
        fps: Scalar::from_bits(30.0f64.to_bits()),
        codec: "h264".to_string(),
    }
}

fn frame(timestamp: f64, path: &str, text: Option<&str>, keyframe: bool) -> FrameData {
    FrameData {
        timestamp: Scalar::from_bits(timestamp.to_bits()),
        frame_path: path.to_string(),
        ocr_text: text.map(|t| t.to_string()),
        is_keyframe: keyframe,
    }
}

fn drive(job_id: &str, message_id: &str, events: Vec<Event>) -> (Job, Vec<Action>) {
    let (mut job, first) = Job::begin(envelope(job_id, "https://example/v.mp4"), message_id.to_string());
    let mut actions = vec![first];
    for event in events {
        if job.is_finished() {
            break;
        }
        let (next, action) = job.advance(event);
        job = next;
        actions.push(action);
    }
    (job, actions)
}

fn smooth_events() -> Vec<Event> {
    vec![
        Event::Done,
        Event::File("/tmp/videos/J1_video.mp4".to_string()),
        Event::Done,
        Event::Info(info(12.5)),
        Event::Done,
        Event::Frames(vec![frame(2.0, "b.jpg", None, false), frame(1.0, "a.jpg", None, true)]),
        Event::Texts(vec![OcrOutcome::Text("Salt".to_string()), OcrOutcome::Text(" \n".to_string())]),
        Event::Done,
        Event::File("/tmp/videos/J1_audio.wav".to_string()),
        Event::Transcript("add the salt".to_string()),
        Event::Done,
        Event::Done,
        Event::Done,
    ]
}

fn progress_values(actions: &Vec<Action>) -> Vec<u32> {
    let mut values = Vec::new();
    for action in actions {
        match action {
            Action::UpdateStatus(status) => values.push(status.progress()),
            _ => {}
        }
    }
    values
}

fn acknowledgements(actions: &Vec<Action>) -> usize {
    actions.iter().filter(|a| matches!(a, Action::Acknowledge)).count()
}

fn publishes(actions: &Vec<Action>) -> usize {
    actions.iter().filter(|a| matches!(a, Action::Publish(_))).count()
}

#[test]
fn happy_path_reaches_ai_processing_and_publishes_once() {
    let (job, actions) = drive("J1", "1-0", smooth_events());
    assert!(job.is_finished());
    assert_eq!(progress_values(&actions), vec![10, 25, 40, 60, 80]);
    assert_eq!(publishes(&actions), 1);
    assert_eq!(acknowledgements(&actions), 1);
    assert!(matches!(actions.last(), Some(Action::Finish(Outcome::Completed))));
    let record = actions.iter().find_map(|a| match a {
        Action::Publish(record) => Some(record),
        _ => None,
    });
    let record = record.unwrap();
    assert_eq!(record.job_id, "J1");
    assert_eq!(record.video_path, "/tmp/videos/J1_video.mp4");
    assert!(f64::from_bits(record.duration_seconds.to_bits()) > 0.0);
    assert_eq!(f64::from_bits(record.duration_seconds.to_bits()), 12.5);
    assert_eq!(record.resolution.width, 1920);
    assert_eq!(record.resolution.height, 1080);
    assert_eq!(f64::from_bits(record.fps.to_bits()), 30.0);
    assert_eq!(record.frames.len(), 2);
    assert_eq!(record.frames[0].frame_path, "a.jpg");
    assert_eq!(record.frames[0].ocr_text.as_deref(), Some("Salt"));
    assert!(record.frames[0].is_keyframe);
    assert_eq!(record.frames[1].frame_path, "b.jpg");
    assert_eq!(record.frames[1].ocr_text, None);
    assert!(f64::from_bits(record.frames[0].timestamp.to_bits()) <= f64::from_bits(record.frames[1].timestamp.to_bits()));
    assert_eq!(record.audio_path.as_deref(), Some("/tmp/videos/J1_audio.wav"));
    assert_eq!(record.transcription, "add the salt");
}

#[test]
fn happy_path_asks_for_the_stages_in_order() {
    let (_, actions) = drive("J1", "1-0", smooth_events());
    assert_eq!(actions.len(), 14);
    assert!(matches!(actions[0], Action::UpdateStatus(JobStatus::Downloading)));
    assert!(matches!(actions[1], Action::Download));
    assert!(matches!(actions[2], Action::UpdateStatus(JobStatus::ProcessingVideo)));
    assert!(matches!(actions[3], Action::Probe));
    assert!(matches!(actions[4], Action::UpdateStatus(JobStatus::ExtractingOcr)));
    assert!(matches!(actions[5], Action::ExtractFrames));
    assert!(matches!(actions[6], Action::RunOcr));
    assert!(matches!(actions[7], Action::UpdateStatus(JobStatus::TranscribingAudio)));
    assert!(matches!(actions[8], Action::ExtractAudio));
    assert!(matches!(actions[9], Action::Transcribe));
    assert!(matches!(actions[10], Action::UpdateStatus(JobStatus::AiProcessing)));
    assert!(matches!(actions[11], Action::Publish(_)));
    assert!(matches!(actions[12], Action::Acknowledge));
    assert!(matches!(actions[13], Action::Finish(Outcome::Completed)));
}

#[test]
fn status_names_and_progress_values() {
    assert_eq!(JobStatus::Downloading.name(), "downloading");
    assert_eq!(JobStatus::ProcessingVideo.name(), "processing_video");
    assert_eq!(JobStatus::ExtractingOcr.name(), "extracting_ocr");
    assert_eq!(JobStatus::TranscribingAudio.name(), "transcribing_audio");
    assert_eq!(JobStatus::AiProcessing.name(), "ai_processing");
    assert_eq!(JobStatus::Failed.name(), "failed");
    assert_eq!(JobStatus::Downloading.progress(), 10);
    assert_eq!(JobStatus::ProcessingVideo.progress(), 25);
    assert_eq!(JobStatus::ExtractingOcr.progress(), 40);
    assert_eq!(JobStatus::TranscribingAudio.progress(), 60);
    assert_eq!(JobStatus::AiProcessing.progress(), 80);
    assert_eq!(JobStatus::Failed.progress(), 0);
}

#[test]
fn silent_audio_still_publishes_with_audio_path_and_empty_transcript() {
    let mut events = smooth_events();
    events[9] = Event::Transcript(String::new());
    let (_, actions) = drive("J2", "2-0", events);
    assert_eq!(progress_values(&actions), vec![10, 25, 40, 60, 80]);
    let record = actions.iter().find_map(|a| match a {
        Action::Publish(record) => Some(record),
        _ => None,
    });
    let record = record.unwrap();
    assert!(record.audio_path.is_some());
    assert_eq!(record.transcription, "");
    assert!(matches!(actions.last(), Some(Action::Finish(Outcome::Completed))));
}

#[test]
fn absent_transcriber_leaves_empty_transcript_and_no_error_message() {
    let mut events = smooth_events();
    events[9] = Event::Failed("whisper not found".to_string());
    let (_, actions) = drive("J3", "3-0", events);
    assert_eq!(progress_values(&actions), vec![10, 25, 40, 60, 80]);
    assert!(!actions.iter().any(|a| matches!(a, Action::NoteError(_))));
    assert!(!actions.iter().any(|a| matches!(a, Action::UpdateStatus(JobStatus::Failed))));
    let record = actions.iter().find_map(|a| match a {
        Action::Publish(record) => Some(record),
        _ => None,
    });
    assert_eq!(record.unwrap().transcription, "");
    assert_eq!(acknowledgements(&actions), 1);
}

#[test]
fn download_failure_marks_failed_acknowledges_and_publishes_nothing() {
    let events = vec![
        Event::Done,
        Event::Failed("yt-dlp failed: HTTP 404".to_string()),
        Event::Done,
        Event::Done,
        Event::Done,
    ];
    let (job, actions) = drive("J4", "4-0", events);
    assert!(job.is_finished());
    assert_eq!(actions.len(), 6);
    assert_eq!(progress_values(&actions), vec![10, 0]);
    assert!(matches!(actions[2], Action::UpdateStatus(JobStatus::Failed)));
    match &actions[3] {
        Action::NoteError(message) => {
            assert!(message.starts_with("Download failed:"));
            assert_eq!(message, "Download failed: yt-dlp failed: HTTP 404");
        }
        _ => panic!("the job was not marked failed"),
    }
    assert_eq!(job.failure().as_deref(), Some("Download failed: yt-dlp failed: HTTP 404"));
    assert_eq!(publishes(&actions), 0);
    assert_eq!(acknowledgements(&actions), 1);
    assert!(matches!(actions.last(), Some(Action::Finish(Outcome::Failed))));
}

#[test]
fn probe_failure_marks_failed_and_acknowledges() {
    let events = vec![
        Event::Done,
        Event::File("v.mp4".to_string()),
        Event::Done,
        Event::Failed("ffprobe failed: moov atom not found".to_string()),
        Event::Done,
        Event::Done,
        Event::Done,
    ];
    let (_, actions) = drive("J5", "5-0", events);
    assert_eq!(progress_values(&actions), vec![10, 25, 0]);
    assert!(matches!(actions[4], Action::UpdateStatus(JobStatus::Failed)));
    match &actions[5] {
        Action::NoteError(message) => {
            assert_eq!(message, "Video processing failed: ffprobe failed: moov atom not found");
        }
        _ => panic!("the job was not marked failed"),
    }
    assert_eq!(publishes(&actions), 0);
    assert_eq!(acknowledgements(&actions), 1);
    assert!(matches!(actions.last(), Some(Action::Finish(Outcome::Failed))));
}

#[test]
fn failed_frame_extraction_publishes_empty_frames() {
    let mut events = smooth_events();
    events[5] = Event::Failed("Failed to execute ffmpeg for frame extraction".to_string());
    events[6] = Event::Texts(Vec::new());
    let (_, actions) = drive("J6", "6-0", events);
    assert!(matches!(actions[6], Action::RunOcr));
    assert_eq!(progress_values(&actions), vec![10, 25, 40, 60, 80]);
    let record = actions.iter().find_map(|a| match a {
        Action::Publish(record) => Some(record),
        _ => None,
    });
    assert!(record.unwrap().frames.is_empty());
    assert_eq!(acknowledgements(&actions), 1);
}

#[test]
fn failed_frame_extraction_hands_recognition_an_empty_list() {
    let (job, _) = drive(
        "J6",
        "6-0",
        vec![
            Event::Done,
            Event::File("v.mp4".to_string()),
            Event::Done,
            Event::Info(info(3.0)),
            Event::Done,
            Event::Failed("Failed to execute ffmpeg for frame extraction".to_string()),
        ],
    );
    assert_eq!(job.phase(), Phase::Recognize);
    assert!(job.frames().is_empty());
}

#[test]
fn failed_recognition_publishes_empty_frames() {
    let mut events = smooth_events();
    events[6] = Event::Failed("recogniser broke".to_string());
    let (_, actions) = drive("J7", "7-0", events);
    let record = actions.iter().find_map(|a| match a {
        Action::Publish(record) => Some(record),
        _ => None,
    });
    assert!(record.unwrap().frames.is_empty());
    assert!(matches!(actions.last(), Some(Action::Finish(Outcome::Completed))));
}

#[test]
fn missing_audio_skips_transcription_and_publishes_null_audio() {
    let events = vec![
        Event::Done,
        Event::File("v.mp4".to_string()),
        Event::Done,
        Event::Info(info(3.0)),
        Event::Done,
        Event::Frames(Vec::new()),
        Event::Texts(Vec::new()),
        Event::Done,
        Event::Failed("Audio file was not created".to_string()),
        Event::Done,
        Event::Done,
        Event::Done,
    ];
    let (_, actions) = drive("J8", "8-0", events);
    assert!(!actions.iter().any(|a| matches!(a, Action::Transcribe)));
    assert_eq!(progress_values(&actions), vec![10, 25, 40, 60, 80]);
    let record = actions.iter().find_map(|a| match a {
        Action::Publish(record) => Some(record),
        _ => None,
    });
    let record = record.unwrap();
    assert_eq!(record.audio_path, None);
    assert_eq!(record.transcription, "");
    assert_eq!(acknowledgements(&actions), 1);
}

#[test]
fn failed_status_write_aborts_without_acknowledgement() {
    let (job, actions) = drive("J9", "9-0", vec![Event::Failed("connection reset".to_string())]);
    assert!(job.is_finished());
    assert_eq!(acknowledgements(&actions), 0);
    match actions.last() {
        Some(Action::Finish(Outcome::Aborted(reason))) => assert_eq!(reason, "connection reset"),
        _ => panic!("the job was not aborted"),
    }
}

#[test]
fn failed_publish_leaves_message_unacknowledged() {
    let mut events = smooth_events();
    events[11] = Event::Failed("stream is full".to_string());
    let (_, actions) = drive("J10", "10-0", events);
    assert_eq!(progress_values(&actions), vec![10, 25, 40, 60, 80]);
    assert_eq!(publishes(&actions), 1);
    assert_eq!(acknowledgements(&actions), 0);
    assert!(matches!(actions.last(), Some(Action::Finish(Outcome::Aborted(_)))));
}

#[test]
fn failed_acknowledgement_aborts() {
    let mut events = smooth_events();
    events[12] = Event::Failed("broker gone".to_string());
    let (_, actions) = drive("J11", "11-0", events);
    assert_eq!(acknowledgements(&actions), 1);
    assert!(matches!(actions.last(), Some(Action::Finish(Outcome::Aborted(_)))));
}

#[test]
fn unexpected_event_aborts() {
    let (job, actions) = drive("J12", "12-0", vec![Event::Done, Event::Transcript("x".to_string())]);
    assert!(job.is_finished());
    match actions.last() {
        Some(Action::Finish(Outcome::Aborted(reason))) => assert_eq!(reason, "unexpected event"),
        _ => panic!("the job was not aborted"),
    }
}

#[test]
fn event_after_the_end_changes_nothing() {
    let (job, _) = drive("J13", "13-0", vec![Event::Failed("down".to_string())]);
    let (job, action) = job.advance(Event::Done);
    assert!(job.is_finished());
    match action {
        Action::Finish(Outcome::Aborted(reason)) => assert_eq!(reason, "no operation is pending"),
        _ => panic!("a finished job asked for work"),
    }
}

#[test]
fn job_keeps_envelope_and_message_id() {
    let (job, _) = drive("J14", "14-7", vec![Event::Done]);
    assert_eq!(job.envelope().job_id, "J14");
    assert_eq!(job.envelope().url, "https://example/v.mp4");
    assert_eq!(job.message_id(), "14-7");
    assert_eq!(job.phase(), Phase::Download);
    assert_eq!(*job.video_path(), None);
    assert!(job.info().is_none());
    assert_eq!(*job.audio_path(), None);
    assert_eq!(job.transcription(), "");
}

#[test]
fn resubmitted_envelope_gives_the_same_record() {
    let (_, first) = drive("J15", "15-0", smooth_events());
    let (_, second) = drive("J15", "99-3", smooth_events());
    let a = first.iter().find_map(|a| match a {
        Action::Publish(record) => Some(record),
        _ => None,
    });
    let b = second.iter().find_map(|a| match a {
        Action::Publish(record) => Some(record),
        _ => None,
    });
    let (a, b) = (a.unwrap(), b.unwrap());
    assert_eq!(a.job_id, b.job_id);
    assert_eq!(a.video_path, b.video_path);
    assert_eq!(a.duration_seconds, b.duration_seconds);
    assert_eq!(a.resolution, b.resolution);
    assert_eq!(a.fps, b.fps);
    assert_eq!(a.audio_path, b.audio_path);
    assert_eq!(a.transcription, b.transcription);
    assert_eq!(a.frames.len(), b.frames.len());
    for i in 0..a.frames.len() {
        assert_eq!(a.frames[i].timestamp, b.frames[i].timestamp);
        assert_eq!(a.frames[i].frame_path, b.frames[i].frame_path);
        assert_eq!(a.frames[i].ocr_text, b.frames[i].ocr_text);
        assert_eq!(a.frames[i].is_keyframe, b.frames[i].is_keyframe);
    }
}

#[test]
fn progress_never_falls_before_failure() {
    let runs: Vec<Vec<Event>> = vec![
        smooth_events(),
        vec![Event::Done, Event::Failed("x".to_string()), Event::Done, Event::Done, Event::Done],
        vec![
            Event::Done,
            Event::File("v".to_string()),
            Event::Done,
            Event::Failed("x".to_string()),
            Event::Done,
            Event::Done,
            Event::Done,
        ],
    ];
    for events in runs {
        let (job, actions) = drive("J16", "16-0", events);
        assert!(job.is_finished());
        let values = progress_values(&actions);
        for i in 1..values.len() {
            if values[i] == 0 {
                assert_eq!(i, values.len() - 1);
            } else {
                assert!(values[i] > values[i - 1]);
            }
        }
    }
}

#[test]
fn missing_status_record_stops_nothing() {
    let (mut job, mut action) = Job::begin(envelope("J17", "https://example/v.mp4"), "17-0".to_string());
    let mut outcomes = smooth_events().into_iter();
    let mut published = 0;
    let mut acknowledged = 0;
    let mut writes = 0;
    loop {
        let event = match &action {
            Action::Finish(outcome) => {
                assert!(matches!(outcome, Outcome::Completed));
                break;
            }
            Action::UpdateStatus(status) => {
                let _ = outcomes.next();
                match update_job_status(None, status.name(), status.progress()) {
                    Ok(None) => Event::Done,
                    Ok(Some(_)) => {
                        writes += 1;
                        Event::Done
                    }
                    Err(_) => Event::Failed("malformed".to_string()),
                }
            }
            Action::NoteError(message) => {
                let _ = outcomes.next();
                assert_eq!(fail_job(None, message), Ok(None));
                Event::Done
            }
            Action::Publish(_) => {
                published += 1;
                outcomes.next().unwrap()
            }
            Action::Acknowledge => {
                acknowledged += 1;
                outcomes.next().unwrap()
            }
            _ => outcomes.next().unwrap(),
        };
        let (next, then) = job.advance(event);
        job = next;
        action = then;
    }
    assert_eq!(writes, 0);
    assert_eq!(published, 1);
    assert_eq!(acknowledged, 1);
}

#[test]
fn missing_status_record_does_not_stop_a_failing_job() {
    let (mut job, mut action) = Job::begin(envelope("J18", "https://example/v.mp4"), "18-0".to_string());
    let mut noted = 0;
    let mut acknowledged = 0;
    loop {
        let event = match &action {
            Action::Finish(outcome) => {
                assert!(matches!(outcome, Outcome::Failed));
                break;
            }
            Action::UpdateStatus(status) => {
                assert_eq!(update_job_status(None, status.name(), status.progress()), Ok(None));
                Event::Done
            }
            Action::NoteError(message) => {
                noted += 1;
                assert_eq!(fail_job(None, message), Ok(None));
                Event::Done
            }
            Action::Download => Event::Failed("yt-dlp failed: gone".to_string()),
            Action::Acknowledge => {
                acknowledged += 1;
                Event::Done
            }
            _ => panic!("a failed job went on"),
        };
        let (next, then) = job.advance(event);
        job = next;
        action = then;
    }
    assert_eq!(noted, 1);
    assert_eq!(acknowledged, 1);
}

#[test]
fn failed_error_note_aborts_without_acknowledgement() {
    let events = vec![
        Event::Done,
        Event::Failed("x".to_string()),
        Event::Done,
        Event::Failed("store down".to_string()),
    ];
    let (job, actions) = drive("J19", "19-0", events);
    assert!(job.is_finished());
    assert_eq!(acknowledgements(&actions), 0);
    assert!(matches!(actions.last(), Some(Action::Finish(Outcome::Aborted(r))) if r == "store down"));
}

#[test]
fn adapter_results_become_events() {
    let error = || ExternalToolError::of_run(ToolErrorKind::DownloadFailed, "yt-dlp", &ToolRun::NotStarted);
    assert!(matches!(Event::of_file(Ok("v.mp4".to_string())), Event::File(p) if p == "v.mp4"));
    assert!(matches!(Event::of_file(Err(error())), Event::Failed(d) if d == "Failed to execute yt-dlp"));
    assert!(matches!(Event::of_info(Ok(info(1.0))), Event::Info(i) if i.width == 1920));
    assert!(matches!(Event::of_info(Err(error())), Event::Failed(d) if d == "Failed to execute yt-dlp"));
    assert!(matches!(Event::of_frames(Ok(vec![frame(1.0, "a", None, true)])), Event::Frames(f) if f.len() == 1));
    assert!(matches!(Event::of_frames(Err(error())), Event::Failed(d) if d == "Failed to execute yt-dlp"));
}

#[test]
fn job_orders_frames_and_attaches_texts_in_place() {
    let (job, _) = drive(
        "J20",
        "20-0",
        vec![
            Event::Done,
            Event::File("v.mp4".to_string()),
            Event::Done,
            Event::Info(info(3.0)),
            Event::Done,
            Event::Frames(vec![
                frame(3.0, "c", None, false),
                frame(1.0, "a", None, true),
                frame(2.0, "b", None, false),
            ]),
        ],
    );
    let paths: Vec<&str> = job.frames().iter().map(|f| f.frame_path.as_str()).collect();
    assert_eq!(paths, vec!["a", "b", "c"]);
    let (job, action) = job.advance(Event::Texts(vec![
        OcrOutcome::Failed,
        OcrOutcome::Text("two".to_string()),
        OcrOutcome::Aborted,
    ]));
    assert!(matches!(action, Action::UpdateStatus(JobStatus::TranscribingAudio)));
    let texts: Vec<Option<&str>> = job.frames().iter().map(|f| f.ocr_text.as_deref()).collect();
    assert_eq!(texts, vec![None, Some("two"), None]);
    let paths: Vec<&str> = job.frames().iter().map(|f| f.frame_path.as_str()).collect();
    assert_eq!(paths, vec!["a", "b", "c"]);
}

#[test]
fn frames_in_place_of_texts_are_unexpected() {
    let mut events = smooth_events();
    events[6] = Event::Frames(Vec::new());
    let (_, actions) = drive("J21", "21-0", events);
    assert!(matches!(actions.last(), Some(Action::Finish(Outcome::Aborted(r))) if r == "unexpected event"));
}
