use mailwatch::mail::{MailError, MailMetadata};
use mailwatch::notify::{is_hidden, newest_message, Emacs, FileInfo, SoundNotifier};

fn file(created: u64) -> FileInfo {
    FileInfo { hidden: false, is_file: true, created: Some(created) }
}

#[test]
fn hidden_names_start_with_a_dot() {
    assert!(is_hidden(Some(".mbsyncstate")));
    assert!(!is_hidden(Some("cur")));
    assert!(!is_hidden(Some("")));
    assert!(!is_hidden(None));
}

#[test]
fn newest_recent_file_is_picked() {
    let files = vec![file(100), file(300), file(200)];
    assert_eq!(newest_message(&files, 50), Some(1));
}

#[test]
fn newest_skips_old_hidden_and_non_files() {
    let files = vec![
        file(10),
        FileInfo { hidden: true, is_file: true, created: Some(500) },
        FileInfo { hidden: false, is_file: false, created: Some(600) },
        FileInfo { hidden: false, is_file: true, created: None },
        file(120),
    ];
    assert_eq!(newest_message(&files, 100), Some(4));
}

#[test]
fn newest_of_equal_times_is_the_last_found() {
    let files = vec![file(200), file(200), file(100)];
    assert_eq!(newest_message(&files, 0), Some(1));
}

#[test]
fn no_recent_file_gives_none() {
    assert_eq!(newest_message(&vec![file(1), file(2)], 3), None);
    assert_eq!(newest_message(&Vec::new(), 0), None);
}

#[test]
fn emacs_destination() {
    let e = Emacs::new();
    assert_eq!(e.service, "net.ogbe.emacs");
    assert_eq!(e.object_path, "/mail");
    assert_eq!(e.interface, "net.ogbe.emacs.mail");
    assert_eq!(e.methods, vec!["reindex", "refresh"]);
    assert_eq!(e.timeout_ms, 5000);
}

#[test]
fn sound_player() {
    let s = SoundNotifier::new();
    assert_eq!(s.asset, "snd1.wav");
    assert_eq!(s.player, "aplay");
    assert_eq!(s.player_args, vec!["-"]);
}

#[test]
fn metadata_from_headers() {
    let raw = b"From: Alice <alice@example.org>\r\nSubject: Lunch?\r\nTo: bob@example.org\r\n\r\nbody\r\n";
    let m = MailMetadata::new(&raw.to_vec()).unwrap();
    assert_eq!(m.from, "Alice <alice@example.org>");
    assert_eq!(m.subject, "Lunch?");
}

#[test]
fn metadata_header_names_ignore_case() {
    let raw = b"FROM: carol@example.org\nsubject: hi\n\n";
    let m = MailMetadata::new(&raw.to_vec()).unwrap();
    assert_eq!(m.from, "carol@example.org");
    assert_eq!(m.subject, "hi");
}

#[test]
fn metadata_placeholders_for_missing_headers() {
    let raw = b"To: bob@example.org\n\nbody\n";
    let m = MailMetadata::new(&raw.to_vec()).unwrap();
    assert_eq!(m.from, "Unknown Sender (parse error)");
    assert_eq!(m.subject, "Unknown Subject (parse error)");
}

#[test]
fn metadata_of_broken_header_block_is_an_error() {
    let raw = b"From: dave@example.org\n\rX: y\n\n";
    assert!(matches!(MailMetadata::new(&raw.to_vec()), Err(MailError::Unparsable)));
}
