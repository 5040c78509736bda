use term22::{Action, Event, Term22, READ_CHUNK};

const BANNER: &str = "Welcome! Shell: /bin/sh\nPTY Master FD: 5, Child PID: 1234\n";

fn fresh() -> Term22 {
    Term22::new("/bin/sh".to_string(), 5, 1234)
}

#[test]
fn new_session_opens_with_banner() {
    let t = fresh();
    assert_eq!(t.output_log(), BANNER);
    assert_eq!(t.pending_input(), "");
    assert_eq!(t.shell_path(), "/bin/sh");
    assert_eq!(t.master_fd(), 5);
    assert_eq!(t.child_pid(), 1234);
    assert_eq!(t.render_view(), BANNER);
}

#[test]
fn banner_with_negative_and_extreme_numbers() {
    let t = Term22::new("zsh".to_string(), 0, -17);
    assert_eq!(t.output_log(), "Welcome! Shell: zsh\nPTY Master FD: 0, Child PID: -17\n");
    let t = Term22::new(String::new(), i32::MAX, i32::MIN);
    assert_eq!(
        t.output_log(),
        "Welcome! Shell: \nPTY Master FD: 2147483647, Child PID: -2147483648\n"
    );
}

#[test]
fn typed_fragments_concatenate_in_order() {
    let mut t = fresh();
    t.append_text("ec");
    t.append_text("");
    t.append_text("ho ");
    t.append_text("héllo");
    assert_eq!(t.pending_input(), "echo héllo");
    assert_eq!(t.output_log(), BANNER);
    assert_eq!(t.render_view(), format!("{}echo héllo", BANNER));
}

#[test]
fn delete_on_empty_line_changes_nothing() {
    let mut t = fresh();
    t.remove_last_character();
    t.remove_last_character();
    assert_eq!(t.pending_input(), "");
    assert_eq!(t.output_log(), BANNER);
}

#[test]
fn delete_takes_whole_characters() {
    let mut t = fresh();
    t.append_text("aé€");
    t.remove_last_character();
    assert_eq!(t.pending_input(), "aé");
    t.remove_last_character();
    assert_eq!(t.pending_input(), "a");
    t.remove_last_character();
    assert_eq!(t.pending_input(), "");
}

#[test]
fn submit_on_empty_line_sends_nothing() {
    let mut t = fresh();
    assert_eq!(t.submit(), None);
    assert_eq!(t.output_log(), BANNER);
    assert_eq!(t.handle_event(Event::SubmitRequested), Action::Wait);
    assert_eq!(t.output_log(), BANNER);
}

#[test]
fn submit_echoes_and_clears() {
    let mut t = fresh();
    t.append_text("ls");
    assert_eq!(t.submit(), Some(b"ls\n".to_vec()));
    assert_eq!(t.pending_input(), "");
    assert_eq!(t.output_log(), format!("{}ls\n", BANNER));
}

#[test]
fn submit_then_read_orders_the_log() {
    let mut t = fresh();
    t.handle_event(Event::TextInserted("ls".to_string()));
    assert_eq!(t.handle_event(Event::SubmitRequested), Action::Write(b"ls\n".to_vec()));
    assert_eq!(t.handle_write_outcome(Ok(3)), Action::Read(READ_CHUNK));
    assert_eq!(READ_CHUNK, 4096);
    t.handle_read_outcome(Ok(b"a.txt b.txt\r\n".to_vec()));
    assert_eq!(t.output_log(), format!("{}ls\na.txt b.txt\r\n\n", BANNER));
    assert_eq!(t.pending_input(), "");
}

#[test]
fn echoed_bytes_read_back_as_text() {
    let mut t = fresh();
    t.append_text("héllo");
    let bytes = t.submit().unwrap();
    assert_eq!(bytes, "héllo\n".as_bytes().to_vec());
    t.handle_read_outcome(Ok(bytes));
    assert_eq!(t.output_log(), format!("{}héllo\nhéllo\n\n", BANNER));
}

#[test]
fn invalid_bytes_are_replaced() {
    let mut t = fresh();
    t.handle_read_outcome(Ok(vec![b'o', b'k', 0xff, b'!']));
    assert_eq!(t.output_log(), format!("{}ok\u{FFFD}!\n", BANNER));
}

#[test]
fn empty_read_appends_line_break() {
    let mut t = fresh();
    t.handle_read_outcome(Ok(Vec::new()));
    assert_eq!(t.output_log(), format!("{}\n", BANNER));
}

#[test]
fn echo_hi_scenario() {
    let mut t = fresh();
    for c in ["e", "c", "h", "o", " ", "h", "i"] {
        assert_eq!(t.handle_event(Event::TextInserted(c.to_string())), Action::Wait);
    }
    let action = t.handle_event(Event::SubmitRequested);
    assert_eq!(action, Action::Write(b"echo hi\n".to_vec()));
    assert_eq!(t.handle_write_outcome(Ok(8)), Action::Read(4096));
    t.handle_read_outcome(Ok(b"hi\n".to_vec()));
    assert!(t.render_view().ends_with("echo hi\nhi\n\n"));
    assert_eq!(t.pending_input(), "");
}

#[test]
fn write_after_exit_logs_one_error_and_reads_nothing() {
    let mut t = fresh();
    t.append_text("ls");
    assert!(matches!(t.handle_event(Event::SubmitRequested), Action::Write(_)));
    let before = t.output_log().to_string();
    assert_eq!(t.handle_write_outcome(Err(5)), Action::Wait);
    assert_eq!(
        t.output_log(),
        format!("{}\n[Error writing to PTY: EIO: I/O error]\n", before)
    );
    assert_eq!(t.output_log().matches("[Error").count(), 1);
}

#[test]
fn write_error_broken_pipe_text() {
    let mut t = fresh();
    t.handle_write_outcome(Err(32));
    assert_eq!(
        t.output_log(),
        format!("{}\n[Error writing to PTY: EPIPE: Broken pipe]\n", BANNER)
    );
}

#[test]
fn read_error_is_logged_inline() {
    let mut t = fresh();
    t.handle_read_outcome(Err(5));
    assert_eq!(t.output_log(), format!("{}\n[Error reading from PTY: EIO: I/O error]\n", BANNER));
}

#[test]
fn error_entries_with_given_message() {
    let mut t = fresh();
    t.append_read_error("boom");
    t.append_write_error("bang");
    t.append_output_text("out");
    assert_eq!(
        t.output_log(),
        format!(
            "{}\n[Error reading from PTY: boom]\n\n[Error writing to PTY: bang]\nout\n",
            BANNER
        )
    );
}

#[test]
fn termination_request_quits_without_change() {
    let mut t = fresh();
    t.append_text("x");
    assert_eq!(t.handle_event(Event::TerminationRequested), Action::Quit);
    assert_eq!(t.pending_input(), "x");
    assert_eq!(t.output_log(), BANNER);
}

#[test]
fn delete_event_edits_line() {
    let mut t = fresh();
    t.handle_event(Event::TextInserted("ab".to_string()));
    assert_eq!(t.handle_event(Event::DeleteBackwardRequested), Action::Wait);
    assert_eq!(t.pending_input(), "a");
}
