use pjatk_scrapper::api_config;
use pjatk_scrapper::auth::{authorize, BearerAuth};
use pjatk_scrapper::bus::{emitter_step, receiver_step, EmitterAction, EntryToSend, Frame, HypervisorCommand, ReceiverAction, Received, UploadEntry};
use pjatk_scrapper::schedule_config;
use pjatk_scrapper::scraper_config::{self, timetable_url};
use pjatk_scrapper::supervisor::{after_failed_connect, exit_status, ConnectDecision, Outcome};
use tokio::sync::broadcast;

fn entry(i: usize) -> EntryToSend {
    EntryToSend::Entry(UploadEntry { htmlId: format!("{};z", i), body: format!("<p>{}</p>", i) })
}

#[test]
fn lagging_subscriber_skips_oldest() {
    let (tx, mut rx) = broadcast::channel::<EntryToSend>(4);
    for i in 0..10 {
        tx.send(entry(i)).unwrap();
    }
    let received = match rx.try_recv() {
        Err(broadcast::error::TryRecvError::Lagged(n)) => Received::Lagged(n),
        other => panic!("expected lag, got {:?}", other),
    };
    match emitter_step(received) {
        EmitterAction::WarnLagged(n) => assert!(n >= 6),
        other => panic!("expected a warning, got {:?}", other),
    }
    let mut ids = vec![];
    while let Ok(msg) = rx.try_recv() {
        match emitter_step(Received::Message(msg)) {
            EmitterAction::SendEntry(e) => ids.push(e.htmlId),
            other => panic!("expected an entry, got {:?}", other),
        }
    }
    assert_eq!(ids, vec!["6;z", "7;z", "8;z", "9;z"]);
}

#[test]
fn one_producer_is_seen_in_order() {
    let (tx, mut rx) = broadcast::channel::<EntryToSend>(16);
    for i in 0..10 {
        tx.send(entry(i)).unwrap();
    }
    tx.send(EntryToSend::HypervisorFinish).unwrap();
    let mut seen = vec![];
    while let Ok(msg) = rx.try_recv() {
        match emitter_step(Received::Message(msg)) {
            EmitterAction::SendEntry(e) => seen.push(e.htmlId),
            EmitterAction::SendText(t) => seen.push(t),
            other => panic!("unexpected {:?}", other),
        }
    }
    let expected: Vec<String> = (0..10).map(|i| format!("{};z", i)).chain(["finished".to_string()]).collect();
    assert_eq!(seen, expected);
}

#[test]
fn emitter_decisions() {
    assert!(matches!(emitter_step(Received::Message(EntryToSend::Quit)), EmitterAction::Exit));
    assert!(matches!(emitter_step(Received::Closed), EmitterAction::Exit));
    match emitter_step(Received::Message(EntryToSend::HypervisorFinish)) {
        EmitterAction::SendText(t) => assert_eq!(t, "finished"),
        other => panic!("unexpected {:?}", other),
    }
    let cmd = HypervisorCommand { scrapStart: None, scrapUntil: "x".into(), limit: None, skip: None };
    assert!(matches!(emitter_step(Received::Message(EntryToSend::HypervisorCommand(cmd))), EmitterAction::Ignore));
}

#[test]
fn receiver_decisions() {
    let cmd = HypervisorCommand {
        scrapStart: None,
        scrapUntil: "2024-01-15T00:00:00Z".into(),
        limit: Some(3),
        skip: None,
    };
    match receiver_step(Frame::Text(Some(cmd))) {
        ReceiverAction::Publish(EntryToSend::HypervisorCommand(c)) => {
            assert_eq!(c.scrapUntil, "2024-01-15T00:00:00Z");
            assert_eq!(c.limit, Some(3));
        }
        other => panic!("unexpected {:?}", other),
    }
    assert!(matches!(receiver_step(Frame::Text(None)), ReceiverAction::DropFrame));
    assert!(matches!(receiver_step(Frame::Close), ReceiverAction::QuitAndExit));
    assert!(matches!(receiver_step(Frame::Error), ReceiverAction::QuitAndExit));
    assert!(matches!(receiver_step(Frame::Other), ReceiverAction::Continue));
}

#[test]
fn connect_retries_ten_times() {
    for i in 0..10 {
        assert_eq!(after_failed_connect(i), ConnectDecision::RetryAfter(1));
    }
    assert_eq!(after_failed_connect(10), ConnectDecision::GiveUp);
    assert_eq!(after_failed_connect(u32::MAX), ConnectDecision::GiveUp);
}

#[test]
fn exit_statuses() {
    assert_eq!(exit_status(Outcome::Clean), 0);
    assert_eq!(exit_status(Outcome::Fatal), 1);
    assert_eq!(exit_status(Outcome::Panicked), 2);
}

#[test]
fn bearer_admission() {
    assert!(authorize("/api/x", Some("k"), "k"));
    assert!(!authorize("/api/x", Some("bad"), "k"));
    assert!(!authorize("/", Some("bad"), "k"));
    assert!(authorize("/", None, "k"));
    assert!(authorize("/openapi.json", None, "k"));
    assert!(!authorize("/api/fetch_days", None, "k"));
    assert_eq!(BearerAuth::new().token, "AUTH_KEY");
}

#[test]
fn environment_names() {
    let e = scraper_config::Env::new();
    assert_eq!(e.MANAGER_URL, "MANAGER_URL");
    assert_eq!(e.UPLOAD_KEY, "UPLOAD_KEY");
    assert_eq!(e.MONGO_HOST, "MONGO_HOST");
    assert_eq!(api_config::Env::new().PJATK_API_PORT, "PJATK_API_PORT");
    assert_eq!(schedule_config::Env::new().AUTH_KEY, "AUTH_KEY");
    assert_eq!(timetable_url(), "https://planzajec.pjwstk.edu.pl/PlanOgolny3.aspx");
}

#[test]
fn complete_server_urls() {
    let c = api_config::Config::new(80, "http://localhost".to_string());
    assert_eq!(c.get_complete_server_url(), "http://localhost:80");
    assert_eq!(c.get_port(), 80);
    let s = schedule_config::Config::new(8080, "https://example.org".to_string());
    assert_eq!(s.get_complete_server_url(), "https://example.org:8080/api");
    assert_eq!(s.get_port(), 8080);
    assert_eq!(pjatk_scrapper::text::decimal_text(0), "0");
    assert_eq!(pjatk_scrapper::text::decimal_text(1234567890), "1234567890");
    assert_eq!(pjatk_scrapper::text::decimal_text(u64::MAX), u64::MAX.to_string());
}
