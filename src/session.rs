use vstd::prelude::*;
use vstd::utf8::encode_utf8;

use crate::text::{
    decimal_text, decode_lossy, describe_errno, errno_text, lossy_text, pop_char, render_decimal,
};

verus! {

/// Largest number of bytes taken from the shell in one read.
pub const READ_CHUNK: usize = 4096;

/// The state of a session as plain values.
pub struct SessionView {
    /// The command line typed so far and not yet submitted.
    pub pending: Seq<char>,
    /// Everything shown above the command line, oldest first.
    pub log: Seq<char>,
    pub shell_path: Seq<char>,
    pub master_fd: i32,
    pub child_pid: i32,
}

/// The first entry of every log.
pub open spec fn welcome_banner(shell_path: Seq<char>, master_fd: i32, child_pid: i32) -> Seq<char> {
    "Welcome! Shell: "@ + shell_path + "\nPTY Master FD: "@ + decimal_text(master_fd as int)
        + ", Child PID: "@ + decimal_text(child_pid as int) + "\n"@
}

/// Log entry for a failed read.
pub open spec fn read_error_entry(message: Seq<char>) -> Seq<char> {
    "\n[Error reading from PTY: "@ + message + "]\n"@
}

/// Log entry for a failed write.
pub open spec fn write_error_entry(message: Seq<char>) -> Seq<char> {
    "\n[Error writing to PTY: "@ + message + "]\n"@
}

impl SessionView {
    /// Text typed at the end of the command line.
    pub open spec fn with_text(self, text: Seq<char>) -> SessionView {
        SessionView { pending: self.pending + text, ..self }
    }

    /// The last character of the command line taken away, if there is one.
    pub open spec fn without_last_char(self) -> SessionView {
        if self.pending.len() == 0 {
            self
        } else {
            SessionView { pending: self.pending.drop_last(), ..self }
        }
    }

    /// What a submission sends to the shell and echoes in the log.
    pub open spec fn command_line(self) -> Seq<char> {
        self.pending + "\n"@
    }

    /// The command line echoed to the log and cleared; nothing on an empty line.
    pub open spec fn submitted(self) -> SessionView {
        if self.pending.len() == 0 {
            self
        } else {
            SessionView { pending: Seq::empty(), log: self.log + self.command_line(), ..self }
        }
    }

    /// Text received from the shell appended to the log, with a line break.
    pub open spec fn with_output(self, text: Seq<char>) -> SessionView {
        SessionView { log: self.log + text + "\n"@, ..self }
    }

    pub open spec fn with_read_error(self, message: Seq<char>) -> SessionView {
        SessionView { log: self.log + read_error_entry(message), ..self }
    }

    pub open spec fn with_write_error(self, message: Seq<char>) -> SessionView {
        SessionView { log: self.log + write_error_entry(message), ..self }
    }

    /// What the display shows: the log, then the command line being typed.
    pub open spec fn rendered(self) -> Seq<char> {
        self.log + self.pending
    }
}

/// What the host hands to the session.
#[derive(Debug, Clone, PartialEq, Eq)]
pub enum Event {
    TextInserted(String),
    SubmitRequested,
    DeleteBackwardRequested,
    TerminationRequested,
}

/// What the host is to do next on the session's behalf.
#[derive(Debug, PartialEq, Eq)]
pub enum Action {
    /// Nothing: wait for the next event.
    Wait,
    /// Write these bytes to the terminal, then report the outcome.
    Write(Vec<u8>),
    /// Read at most this many bytes from the terminal, then report the outcome.
    Read(usize),
    /// Close the window and end the program.
    Quit,
}

/// A shell session seen from its window: the command line being typed, the
/// output log, and the terminal it is attached to.
pub struct Term22 {
    current_line_input: String,
    displayed_output: String,
    shell_path: String,
    master_fd: i32,
    child_shell_pid: i32,
}

impl View for Term22 {
    type V = SessionView;

    closed spec fn view(&self) -> SessionView {
        SessionView {
            pending: self.current_line_input@,
            log: self.displayed_output@,
            shell_path: self.shell_path@,
            master_fd: self.master_fd,
            child_pid: self.child_shell_pid,
        }
    }
}

impl Term22 {
    /// A session on a started shell, its log opened by the welcome banner.
    pub fn new(shell_path: String, master_fd: i32, child_shell_pid: i32) -> (r: Term22)
        ensures
            r@ == (SessionView {
                pending: Seq::empty(),
                log: welcome_banner(shell_path@, master_fd, child_shell_pid),
                shell_path: shell_path@,
                master_fd,
                child_pid: child_shell_pid,
            }),
    {
        let mut banner = String::from_str("Welcome! Shell: ");
        banner.append(shell_path.as_str());
        banner.append("\nPTY Master FD: ");
        render_decimal(&mut banner, master_fd);
        banner.append(", Child PID: ");
        render_decimal(&mut banner, child_shell_pid);
        banner.append("\n");
        Term22 {
            current_line_input: String::new(),
            displayed_output: banner,
            shell_path,
            master_fd,
            child_shell_pid,
        }
    }

    /// Types `text` at the end of the command line.
    pub fn append_text(&mut self, text: &str)
        ensures
            final(self)@ == old(self)@.with_text(text@),
    {
        self.current_line_input.append(text);
    }

    /// Takes away the last character of the command line; on an empty line
    /// nothing changes.
    pub fn remove_last_character(&mut self)
        ensures
            final(self)@ == old(self)@.without_last_char(),
            old(self)@.pending.len() == 0 ==> final(self)@ == old(self)@,
    {
        let _ = pop_char(&mut self.current_line_input);
    }

    /// Echoes the command line and a line break to the log, clears it, and
    /// gives the bytes to send to the shell. An empty line is left alone and
    /// gives nothing to send.
    pub fn submit(&mut self) -> (r: Option<Vec<u8>>)
        ensures
            final(self)@ == old(self)@.submitted(),
            old(self)@.pending.len() == 0 ==> r.is_none() && final(self)@ == old(self)@,
            old(self)@.pending.len() > 0 ==> r.is_some() && r.unwrap()@ == encode_utf8(
                old(self)@.command_line(),
            ),
    {
        if self.current_line_input.as_str().is_empty() {
            return None;
        }
        let line = self.current_line_input.clone().concat("\n");
        self.displayed_output.append(line.as_str());
        self.current_line_input = String::new();
        Some(line.as_str().as_bytes_vec())
    }

    /// Appends text received from the shell to the log, with a line break.
    pub fn append_output_text(&mut self, text: &str)
        ensures
            final(self)@ == old(self)@.with_output(text@),
    {
        self.displayed_output.append(text);
        self.displayed_output.append("\n");
    }

    /// Appends the entry for a failed read with the given error description.
    pub fn append_read_error(&mut self, message: &str)
        ensures
            final(self)@ == old(self)@.with_read_error(message@),
    {
        let ghost start = self.displayed_output@;
        self.displayed_output.append("\n[Error reading from PTY: ");
        self.displayed_output.append(message);
        self.displayed_output.append("]\n");
        assert(self.displayed_output@ =~= start + read_error_entry(message@));
    }

    /// Appends the entry for a failed write with the given error description.
    pub fn append_write_error(&mut self, message: &str)
        ensures
            final(self)@ == old(self)@.with_write_error(message@),
    {
        let ghost start = self.displayed_output@;
        self.displayed_output.append("\n[Error writing to PTY: ");
        self.displayed_output.append(message);
        self.displayed_output.append("]\n");
        assert(self.displayed_output@ =~= start + write_error_entry(message@));
    }

    /// Takes one input event and says what the host is to do next: typing and
    /// deleting edit the command line, submitting sends a non-empty line to
    /// the shell, and a termination request ends the program.
    pub fn handle_event(&mut self, event: Event) -> (r: Action)
        ensures
            match event {
                Event::TextInserted(t) => final(self)@ == old(self)@.with_text(t@) && r is Wait,
                Event::DeleteBackwardRequested => final(self)@ == old(self)@.without_last_char()
                    && r is Wait,
                Event::SubmitRequested => final(self)@ == old(self)@.submitted() && if old(
                    self,
                )@.pending.len() == 0 {
                    r is Wait
                } else {
                    match r {
                        Action::Write(b) => b@ == encode_utf8(old(self)@.command_line()),
                        _ => false,
                    }
                },
                Event::TerminationRequested => final(self)@ == old(self)@ && r is Quit,
            },
    {
        match event {
            Event::TextInserted(t) => {
                self.append_text(t.as_str());
                Action::Wait
            },
            Event::DeleteBackwardRequested => {
                self.remove_last_character();
                Action::Wait
            },
            Event::SubmitRequested => match self.submit() {
                Some(bytes) => Action::Write(bytes),
                None => Action::Wait,
            },
            Event::TerminationRequested => Action::Quit,
        }
    }

    /// Takes the outcome of a write (bytes written, or an OS error number).
    /// After a write the shell's answer is read; a failed write is logged
    /// and nothing is read.
    pub fn handle_write_outcome(&mut self, outcome: Result<usize, i32>) -> (r: Action)
        ensures
            match outcome {
                Ok(_) => final(self)@ == old(self)@ && r == Action::Read(READ_CHUNK),
                Err(code) => final(self)@ == old(self)@.with_write_error(errno_text(code))
                    && r is Wait,
            },
    {
        match outcome {
            Ok(_) => Action::Read(READ_CHUNK),
            Err(code) => {
                let message = describe_errno(code);
                self.append_write_error(message.as_str());
                Action::Wait
            },
        }
    }

    /// Takes the outcome of a read (the bytes read, or an OS error number):
    /// the bytes go to the log as lossily decoded text, an error as an entry
    /// of its own.
    pub fn handle_read_outcome(&mut self, outcome: Result<Vec<u8>, i32>)
        ensures
            match outcome {
                Ok(bytes) => final(self)@ == old(self)@.with_output(lossy_text(bytes@)),
                Err(code) => final(self)@ == old(self)@.with_read_error(errno_text(code)),
            },
    {
        match outcome {
            Ok(bytes) => {
                let text = decode_lossy(bytes.as_slice());
                self.append_output_text(text.as_str());
            },
            Err(code) => {
                let message = describe_errno(code);
                self.append_read_error(message.as_str());
            },
        }
    }

    /// What the display shows: the log followed by the command line.
    pub fn render_view(&self) -> (r: String)
        ensures
            r@ == self@.rendered(),
    {
        self.displayed_output.clone().concat(self.current_line_input.as_str())
    }
    /// The command line typed so far.
    pub fn pending_input(&self) -> (r: &str)
        ensures
            r@ == self@.pending,
    {
        self.current_line_input.as_str()
    }

    /// Everything shown above the command line.
    pub fn output_log(&self) -> (r: &str)
        ensures
            r@ == self@.log,
    {
        self.displayed_output.as_str()
    }

    pub fn shell_path(&self) -> (r: &str)
        ensures
            r@ == self@.shell_path,
    {
        self.shell_path.as_str()
    }

    pub fn master_fd(&self) -> (r: i32)
        ensures
            r == self@.master_fd,
    {
        self.master_fd
    }

    pub fn child_pid(&self) -> (r: i32)
        ensures
            r == self@.child_pid,
    {
        self.child_shell_pid
    }
}

} // verus!
