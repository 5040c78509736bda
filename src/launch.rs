use vstd::prelude::*;

verus! {

/// Exit status of the child when the shell cannot be executed.
pub const CHILD_EXEC_FAILURE_STATUS: i32 = 127;

/// Why no session could be started.
#[derive(Debug, PartialEq, Eq, Structural)]
pub enum LaunchError {
    /// No usable shell path was configured.
    ConfigError,
    /// The pseudo-terminal or the child process could not be created; holds
    /// the OS error number.
    SessionCreationError(i32),
}

/// A path that can be handed to the child as its program: not empty, and
/// free of NUL characters.
pub open spec fn usable_shell_path(path: Seq<char>) -> bool {
    path.len() > 0 && !path.contains('\0')
}

/// Accepts a path that can be executed by name, refuses anything else as a
/// configuration error.
pub fn check_shell_path(path: &str) -> (r: Result<(), LaunchError>)
    ensures
        r is Ok <==> usable_shell_path(path@),
        r is Err ==> r == Err::<(), LaunchError>(LaunchError::ConfigError),
{
    let n = path.unicode_len();
    if n == 0 {
        return Err(LaunchError::ConfigError);
    }
    let mut i: usize = 0;
    while i < n
        invariant
            n == path@.len(),
            i <= n,
            forall|j: int| 0 <= j < i ==> path@[j] != '\0',
        decreases n - i,
    {
        if path.get_char(i) == '\0' {
            return Err(LaunchError::ConfigError);
        }
        i = i + 1;
    }
    Ok(())
}

/// The shell to start, from the configured value: a missing or unusable path
/// is a configuration error.
pub fn resolve_shell_path(configured: Option<String>) -> (r: Result<String, LaunchError>)
    ensures
        match configured {
            None => r == Err::<String, LaunchError>(LaunchError::ConfigError),
            Some(p) => if usable_shell_path(p@) {
                r is Ok && r->Ok_0@ == p@
            } else {
                r == Err::<String, LaunchError>(LaunchError::ConfigError)
            },
        },
{
    match configured {
        None => Err(LaunchError::ConfigError),
        Some(p) => match check_shell_path(p.as_str()) {
            Ok(()) => Ok(p),
            Err(e) => Err(e),
        },
    }
}

} // verus!
