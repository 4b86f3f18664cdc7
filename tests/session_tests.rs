use mailwatch::backoff::backoff_delay;
use mailwatch::config::Config;
use mailwatch::handler::Handler;
use mailwatch::session::{Action, Event, Phase, RunError, Session};

fn config() -> Config {
    Config {
        host: String::from("imap.example.org"),
        port: 993,
        user: String::from("me"),
        pass_cmd: String::from("echo pw"),
        mailbox: String::from("INBOX"),
        maildir: String::from("~/Maildir"),
        mbsync_path: String::from("mbsync"),
        mbsync_conf: String::from(""),
    }
}

fn connected() -> (Session, Handler) {
    let mut s = Session::new(config());
    let mut h = Handler::new(&config());
    assert_eq!(s.step(&mut h, Event::Connected), Action::Wait);
    (s, h)
}

#[test]
fn first_connect_failure_is_reported() {
    let mut s = Session::new(config());
    let mut h = Handler::new(&config());
    assert_eq!(s.phase(), Phase::Connecting);
    assert_eq!(s.step(&mut h, Event::ConnectFailed), Action::Stop { error: RunError::Connect });
    assert_eq!(s.phase(), Phase::Finished);
}

#[test]
fn session_keeps_its_config() {
    let s = Session::new(config());
    assert_eq!(s.config().host, "imap.example.org");
    assert_eq!(s.config().port, 993);
}

#[test]
fn backoff_doubles_then_gives_up() {
    let (mut s, mut h) = connected();
    assert_eq!(s.step(&mut h, Event::WaitFailed), Action::Reconnect { delay_secs: 0 });
    let mut delays = Vec::new();
    loop {
        match s.step(&mut h, Event::ConnectFailed) {
            Action::Reconnect { delay_secs } => delays.push(delay_secs),
            Action::Stop { error } => {
                assert_eq!(error, RunError::ReconnectExhausted);
                break;
            }
            other => panic!("unexpected action {:?}", other),
        }
    }
    assert_eq!(delays, vec![1, 2, 4, 8]);
    assert_eq!(s.phase(), Phase::Finished);
    assert!(!s.accepts(Event::ConnectFailed));
    assert!(!s.accepts(Event::Connected));
}

#[test]
fn successful_reconnect_resets_backoff() {
    let (mut s, mut h) = connected();
    assert_eq!(s.step(&mut h, Event::WaitFailed), Action::Reconnect { delay_secs: 0 });
    assert_eq!(s.step(&mut h, Event::ConnectFailed), Action::Reconnect { delay_secs: 1 });
    assert_eq!(s.step(&mut h, Event::ConnectFailed), Action::Reconnect { delay_secs: 2 });
    assert_eq!(s.step(&mut h, Event::Connected), Action::Wait);
    assert_eq!(s.step(&mut h, Event::WaitFailed), Action::Reconnect { delay_secs: 0 });
    assert_eq!(s.step(&mut h, Event::ConnectFailed), Action::Reconnect { delay_secs: 1 });
}

#[test]
fn backoff_delays() {
    assert_eq!(backoff_delay(0), 0);
    assert_eq!(backoff_delay(1), 1);
    assert_eq!(backoff_delay(2), 2);
    assert_eq!(backoff_delay(3), 4);
    assert_eq!(backoff_delay(4), 8);
}

#[test]
fn empty_mailbox_goes_back_to_waiting() {
    let (mut s, mut h) = connected();
    assert_eq!(s.step(&mut h, Event::PushReceived), Action::QueryLatest);
    assert_eq!(s.step(&mut h, Event::Latest { uid: None }), Action::Wait);
    assert_eq!(h.last_notified(), 0);
}

#[test]
fn sync_failure_is_fatal_and_keeps_watermark() {
    let (mut s, mut h) = connected();
    assert_eq!(s.step(&mut h, Event::PushReceived), Action::QueryLatest);
    assert_eq!(s.step(&mut h, Event::Latest { uid: Some(42) }), Action::Synchronize);
    assert_eq!(h.last_notified(), 42);
    assert_eq!(
        s.step(&mut h, Event::SyncFailed),
        Action::Stop { error: RunError::Synchronization }
    );
    assert_eq!(h.last_notified(), 42);
    assert_eq!(s.phase(), Phase::Finished);
}

#[test]
fn notify_failure_keeps_waiting() {
    let (mut s, mut h) = connected();
    assert_eq!(s.step(&mut h, Event::PushReceived), Action::QueryLatest);
    assert_eq!(s.step(&mut h, Event::Latest { uid: Some(3) }), Action::Synchronize);
    assert_eq!(s.step(&mut h, Event::Synced), Action::Notify);
    assert_eq!(s.step(&mut h, Event::NotifyFailed), Action::Wait);
    assert_eq!(s.phase(), Phase::Waiting);
}

#[test]
fn query_failure_reconnects() {
    let (mut s, mut h) = connected();
    assert_eq!(s.step(&mut h, Event::PushReceived), Action::QueryLatest);
    assert_eq!(s.step(&mut h, Event::QueryFailed), Action::Reconnect { delay_secs: 0 });
    assert_eq!(s.phase(), Phase::Reconnecting { failures: 0 });
}

#[test]
fn events_fire_side_effects_for_new_ids_only() {
    let (mut s, mut h) = connected();
    let mut synced = Vec::new();
    for uid in [5u32, 5, 7, 6, 9] {
        assert_eq!(s.step(&mut h, Event::PushReceived), Action::QueryLatest);
        match s.step(&mut h, Event::Latest { uid: Some(uid) }) {
            Action::Synchronize => {
                synced.push(uid);
                assert_eq!(s.step(&mut h, Event::Synced), Action::Notify);
                assert_eq!(s.step(&mut h, Event::Notified), Action::Wait);
            }
            Action::Wait => {}
            other => panic!("unexpected action {:?}", other),
        }
    }
    assert_eq!(synced, vec![5, 7, 9]);
}

#[test]
fn watermark_survives_reconnect() {
    let (mut s, mut h) = connected();
    assert_eq!(s.step(&mut h, Event::PushReceived), Action::QueryLatest);
    assert_eq!(s.step(&mut h, Event::Latest { uid: Some(10) }), Action::Synchronize);
    assert_eq!(s.step(&mut h, Event::Synced), Action::Notify);
    assert_eq!(s.step(&mut h, Event::Notified), Action::Wait);
    assert_eq!(s.step(&mut h, Event::WaitFailed), Action::Reconnect { delay_secs: 0 });
    assert_eq!(s.step(&mut h, Event::Connected), Action::Wait);
    assert_eq!(s.step(&mut h, Event::PushReceived), Action::QueryLatest);
    assert_eq!(s.step(&mut h, Event::Latest { uid: Some(10) }), Action::Wait);
    assert_eq!(h.last_notified(), 10);
}

#[test]
fn accepts_only_matching_events() {
    let (s, _h) = connected();
    assert!(s.accepts(Event::PushReceived));
    assert!(s.accepts(Event::WaitFailed));
    assert!(!s.accepts(Event::Synced));
    assert!(!s.accepts(Event::Connected));
}
