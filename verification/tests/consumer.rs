use video_worker::envelope::EnvelopeError;
use video_worker::pipeline::{Action, Event, JobStatus, Outcome, Phase};
use video_worker::worker::{
    next_message, publish_command, status_read_command, status_write_command, Intake, StreamReply,
    Turn, VideoWorker, INPUT_STREAM, OUTPUT_STREAM,
};

fn reply(messages: Vec<(&str, Vec<(&str, &str)>)>) -> Option<StreamReply> {
    Some((
        "queue:video_processing".to_string(),
        messages
            .into_iter()
            .map(|(id, fields)| {
                (id.to_string(), fields.into_iter().map(|(k, v)| (k.to_string(), v.to_string())).collect())
            })
            .collect(),
    ))
}

#[test]
fn worker_keeps_the_names_it_is_given() {
    let worker = VideoWorker::new("video-workers", Some("c-1"));
    assert_eq!(worker.group_name(), "video-workers");
    assert_eq!(worker.consumer_name(), "c-1");
    let worker = VideoWorker::named("g", Some("c-2"), "ignored");
    assert_eq!(worker.consumer_name(), "c-2");
    let worker = VideoWorker::named("g", None, "0000");
    assert_eq!(worker.consumer_name(), "consumer-0000");
}

#[test]
fn worker_without_a_name_gets_a_unique_one() {
    let first = VideoWorker::new("video-workers", None);
    let second = VideoWorker::new("video-workers", None);
    let name = first.consumer_name().clone();
    assert!(name.starts_with("consumer-"));
    let unique = &name["consumer-".len()..];
    assert_eq!(unique.len(), 36);
    assert!(uuid::Uuid::parse_str(unique).is_ok());
    assert_ne!(first.consumer_name(), second.consumer_name());
    assert_eq!(first.group_name(), "video-workers");
}

#[test]
fn stream_names() {
    assert_eq!(INPUT_STREAM, "queue:video_processing");
    assert_eq!(OUTPUT_STREAM, "queue:ai_processing");
}

#[test]
fn broker_commands() {
    let worker = VideoWorker::new("video-workers", Some("c-1"));
    assert_eq!(
        worker.create_group_command(),
        vec!["XGROUP", "CREATE", "queue:video_processing", "video-workers", "$", "MKSTREAM"]
    );
    assert_eq!(
        worker.read_command(),
        vec![
            "XREADGROUP",
            "GROUP",
            "video-workers",
            "c-1",
            "COUNT",
            "1",
            "BLOCK",
            "5000",
            "STREAMS",
            "queue:video_processing",
            ">",
        ]
    );
    assert_eq!(
        worker.ack_message("queue:video_processing", "17-0"),
        vec!["XACK", "queue:video_processing", "video-workers", "17-0"]
    );
    assert_eq!(
        publish_command("J1", "{\"job_id\":\"J1\"}"),
        vec!["XADD", "queue:ai_processing", "*", "job_id", "J1", "video_data", "{\"job_id\":\"J1\"}"]
    );
    assert_eq!(status_read_command("J1"), vec!["GET", "job:J1"]);
    assert_eq!(status_write_command("J1", "{}"), vec!["SET", "job:J1", "{}"]);
}

#[test]
fn first_message_of_a_reply() {
    assert!(next_message(None).is_none());
    assert!(next_message(reply(vec![])).is_none());
    let delivery = next_message(reply(vec![
        ("1-0", vec![("job_id", "J1"), ("url", "u")]),
        ("2-0", vec![("job_id", "J2"), ("url", "v")]),
    ]))
    .unwrap();
    assert_eq!(delivery.stream, "queue:video_processing");
    assert_eq!(delivery.message_id, "1-0");
    assert_eq!(
        delivery.fields,
        vec![("job_id".to_string(), "J1".to_string()), ("url".to_string(), "u".to_string())]
    );
}

#[test]
fn poll_without_message_is_idle() {
    let worker = VideoWorker::new("g", Some("c"));
    assert!(matches!(worker.process_next_job(None), Intake::Idle));
    assert!(matches!(worker.process_next_job(reply(vec![])), Intake::Idle));
}

#[test]
fn poll_with_message_starts_the_job() {
    let worker = VideoWorker::new("g", Some("c"));
    let intake = worker.process_next_job(reply(vec![(
        "5-1",
        vec![("data", r#"{"job_id":"J1","url":"https://example/v.mp4"}"#)],
    )]));
    match intake {
        Intake::Started { stream, job, action } => {
            assert_eq!(stream, "queue:video_processing");
            assert_eq!(job.envelope().job_id, "J1");
            assert_eq!(job.envelope().url, "https://example/v.mp4");
            assert_eq!(job.message_id(), "5-1");
            assert_eq!(job.phase(), Phase::AnnounceDownload);
            assert!(matches!(action, Action::UpdateStatus(JobStatus::Downloading)));
            let (job, action) = job.advance(Event::Done);
            assert_eq!(job.phase(), Phase::Download);
            assert!(matches!(action, Action::Download));
        }
        _ => panic!("the job did not start"),
    }
}

#[test]
fn poll_with_unreadable_message_is_rejected() {
    let worker = VideoWorker::new("g", Some("c"));
    let intake = worker.process_next_job(reply(vec![("5-1", vec![("payload", "x")])]));
    assert!(matches!(intake, Intake::Rejected(EnvelopeError::Undecodable)));
    let intake = worker.process_next_job(reply(vec![("5-1", vec![("job_id", "J1")])]));
    assert!(matches!(intake, Intake::Rejected(EnvelopeError::MissingUrl)));
    let intake = worker.process_next_job(reply(vec![("5-1", vec![("data", "{}")])]));
    assert!(matches!(intake, Intake::Rejected(EnvelopeError::MissingJobId)));
}

#[test]
fn loop_cadence() {
    let worker = VideoWorker::new("g", Some("c"));
    assert_eq!(worker.run(Turn::Processed), 0);
    assert_eq!(worker.run(Turn::Idle), 1);
    assert_eq!(worker.run(Turn::Failed), 5);
    assert_eq!(Turn::after(&Outcome::Completed), Turn::Processed);
    assert_eq!(Turn::after(&Outcome::Failed), Turn::Processed);
    assert_eq!(Turn::after(&Outcome::Aborted("x".to_string())), Turn::Failed);
}
