use pty_sessions::{event_name, pump_step, Pump, PumpStep, ReadOutcome, CHUNK_SIZE};

#[test]
fn event_name_is_the_prefix_and_the_identifier() {
    assert_eq!(event_name("t1"), "pty-output:t1");
    assert_eq!(event_name(""), "pty-output:");
    assert_eq!(event_name("a:b c"), "pty-output:a:b c");
}

#[test]
fn chunk_size_is_one_kibibyte() {
    assert_eq!(CHUNK_SIZE, 1024);
}

#[test]
fn pump_step_forwards_only_data_of_a_running_pump() {
    assert_eq!(pump_step(true, ReadOutcome::Data(b"x")), PumpStep::Forward);
    assert_eq!(pump_step(true, ReadOutcome::Data(b"")), PumpStep::Stop);
    assert_eq!(pump_step(true, ReadOutcome::Failed), PumpStep::Stop);
    assert_eq!(pump_step(false, ReadOutcome::Data(b"x")), PumpStep::Stop);
    assert_eq!(pump_step(false, ReadOutcome::Data(b"")), PumpStep::Stop);
    assert_eq!(pump_step(false, ReadOutcome::Failed), PumpStep::Stop);
}

#[test]
fn new_pump_runs_under_the_session_event_name() {
    let pump = Pump::new("t1");
    assert!(pump.is_running());
    assert_eq!(pump.name(), "pty-output:t1");
}

#[test]
fn pump_forwards_chunks_in_the_order_read() {
    let mut pump = Pump::new("t1");
    let mut forwarded: Vec<String> = Vec::new();
    let chunks: Vec<&[u8]> = vec![b"ls\r\n", b"file-a  file-b\r\n", b"$ "];
    for chunk in chunks {
        if let Some(text) = pump.on_read(ReadOutcome::Data(chunk)) {
            forwarded.push(text);
        }
    }
    assert_eq!(forwarded, vec!["ls\r\n", "file-a  file-b\r\n", "$ "]);
    assert!(pump.is_running());
    assert_eq!(pump.name(), "pty-output:t1");
}

#[test]
fn pump_decodes_valid_text_unchanged() {
    let mut pump = Pump::new("t1");
    let text = "h\u{e9}llo \u{4e16}\u{754c} \u{1F600}";
    assert_eq!(pump.on_read(ReadOutcome::Data(text.as_bytes())), Some(text.to_string()));
    assert_eq!(pump.on_read(ReadOutcome::Data(&[0x1b, b'[', b'0', b'm'])), Some("\u{1b}[0m".to_string()));
}

#[test]
fn pump_replaces_invalid_bytes_and_never_fails() {
    let mut pump = Pump::new("t1");
    assert_eq!(
        pump.on_read(ReadOutcome::Data(&[b'f', 0xff, b'o'])),
        Some("f\u{FFFD}o".to_string())
    );
    assert_eq!(pump.on_read(ReadOutcome::Data(&[0xc3])), Some("\u{FFFD}".to_string()));
    assert_eq!(
        pump.on_read(ReadOutcome::Data(&[0xe4, 0xb8, b'a'])),
        Some("\u{FFFD}a".to_string())
    );
    assert!(pump.is_running());
}

#[test]
fn pump_forwards_a_full_chunk() {
    let mut pump = Pump::new("big");
    let chunk = vec![b'x'; CHUNK_SIZE];
    let text = pump.on_read(ReadOutcome::Data(&chunk));
    assert_eq!(text, Some("x".repeat(1024)));
}

#[test]
fn pump_stops_at_end_of_stream() {
    let mut pump = Pump::new("t1");
    assert_eq!(pump.on_read(ReadOutcome::Data(b"bye")), Some("bye".to_string()));
    assert_eq!(pump.on_read(ReadOutcome::Data(b"")), None);
    assert!(!pump.is_running());
}

#[test]
fn pump_stops_on_a_failed_read() {
    let mut pump = Pump::new("t1");
    assert_eq!(pump.on_read(ReadOutcome::Failed), None);
    assert!(!pump.is_running());
}

#[test]
fn stopped_pump_never_resumes() {
    let mut pump = Pump::new("t1");
    assert_eq!(pump.on_read(ReadOutcome::Data(b"")), None);
    assert_eq!(pump.on_read(ReadOutcome::Data(b"late")), None);
    assert!(!pump.is_running());
    assert_eq!(pump.on_read(ReadOutcome::Failed), None);
    assert_eq!(pump.on_read(ReadOutcome::Data(b"later")), None);
    assert!(!pump.is_running());
    assert_eq!(pump.name(), "pty-output:t1");
}

#[test]
fn shell_that_exits_at_once_ends_the_pump_quietly() {
    let mut pump = Pump::new("gone");
    let mut forwarded: Vec<String> = Vec::new();
    let mut reads = 0;
    while pump.is_running() {
        reads += 1;
        if let Some(text) = pump.on_read(ReadOutcome::Data(&[])) {
            forwarded.push(text);
        }
    }
    assert_eq!(reads, 1);
    assert!(forwarded.is_empty());
    assert!(!pump.is_running());
}
