//! Line-oriented session state for a terminal that talks to a shell over a
//! pseudo-terminal: input editing, local echo, output accumulation and the
//! decisions taken around each blocking read and write.

pub mod launch;
pub mod laws;
pub mod session;
pub mod text;

pub use launch::{
    check_shell_path, resolve_shell_path, LaunchError, CHILD_EXEC_FAILURE_STATUS,
};
pub use session::{Action, Event, SessionView, Term22, READ_CHUNK};
pub use text::{decimal_text, digits_of, render_decimal};
