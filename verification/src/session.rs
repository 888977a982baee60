//! The capture session's run state and configuration: the state machine the
//! start and stop commands drive, and the configuration record with its
//! patch semantics. Reading and writing the configuration file is the
//! host's; the decisions about its contents are made here.

use vstd::prelude::*;
use vstd::string::StringExecFns;
use crate::queries::{spec_trim, trim_chars};

verus! {

/// Whether a capture session is running. `NotCapturing → Capturing` on the
/// start command; back on the stop command or a fatal startup error.
#[derive(Debug, Clone, Copy, PartialEq, Eq, Structural)]
pub enum RunState {
    NotCapturing,
    Capturing,
}

/// Why a session command was rejected.
#[derive(Debug, Clone, Copy, PartialEq, Eq, Structural)]
pub enum SessionError {
    /// Starting while already capturing.
    AlreadyRunning,
    /// Stopping while not capturing.
    NotRunning,
}

impl SessionError {
    /// A short description, usable in diagnostics.
    pub fn describe(&self) -> (r: &'static str) {
        match self {
            SessionError::AlreadyRunning => "capture session is already running",
            SessionError::NotRunning => "capture session is not running",
        }
    }
}

/// The start command: an error while already capturing, otherwise the state
/// becomes capturing (the host then creates the shutdown channel and
/// launches the ingestion loop and the push service).
pub fn start_session(status: &RunState) -> (r: Result<RunState, SessionError>)
    ensures
        match r {
            Ok(next) => *status is NotCapturing && next is Capturing,
            Err(e) => *status is Capturing && e == SessionError::AlreadyRunning,
        },
{
    match status {
        RunState::Capturing => Err(SessionError::AlreadyRunning),
        RunState::NotCapturing => Ok(RunState::Capturing),
    }
}

/// The stop command: an error while not capturing, otherwise the state
/// leaves capturing (the host then broadcasts shutdown to every loop).
pub fn stop_session(status: &RunState) -> (r: Result<RunState, SessionError>)
    ensures
        match r {
            Ok(next) => *status is Capturing && next is NotCapturing,
            Err(e) => *status is NotCapturing && e == SessionError::NotRunning,
        },
{
    match status {
        RunState::NotCapturing => Err(SessionError::NotRunning),
        RunState::Capturing => Ok(RunState::NotCapturing),
    }
}

/// The runtime configuration: the event-source address, the capture
/// process's argument string, and the optional user filter or query.
#[derive(Debug, Clone, PartialEq)]
pub struct Configs {
    pub ws_url: Option<String>,
    pub ecapture_args: Option<String>,
    pub user_sql: Option<String>,
}

/// The view of an optional string.
pub open spec fn opt_str_view(o: Option<String>) -> Option<Seq<char>> {
    match o {
        Some(s) => Some(s@),
        None => None,
    }
}

impl Configs {
    /// Apply a patch: every field the patch carries replaces this one's, and
    /// is taken out of the patch; fields the patch leaves out stay.
    pub fn apply_patch(&mut self, patch: &mut Configs)
        ensures
            final(self).ws_url == (if old(patch).ws_url is Some {
                old(patch).ws_url
            } else {
                old(self).ws_url
            }),
            final(self).ecapture_args == (if old(patch).ecapture_args is Some {
                old(patch).ecapture_args
            } else {
                old(self).ecapture_args
            }),
            final(self).user_sql == (if old(patch).user_sql is Some {
                old(patch).user_sql
            } else {
                old(self).user_sql
            }),
            final(patch).ws_url is None,
            final(patch).ecapture_args is None,
            old(patch).user_sql is Some ==> final(patch).user_sql is None,
            old(patch).user_sql is None ==> final(patch).user_sql == old(patch).user_sql,
    {
        if let Some(ws_url) = patch.ws_url.take() {
            self.ws_url = Some(ws_url);
        }
        if let Some(ecapture_args) = patch.ecapture_args.take() {
            self.ecapture_args = Some(ecapture_args);
        }
        if patch.user_sql.is_some() {
            self.user_sql = patch.user_sql.take();
        }
    }

    /// The defaults written when no configuration file can be read.
    pub fn init() -> (r: Configs)
        ensures
            opt_str_view(r.ws_url) == Some("ws://127.0.0.1:28257"@),
            opt_str_view(r.ecapture_args) == Some(" tls --ecaptureq ws://127.0.0.1:28257"@),
            r.user_sql is None,
    {
        Configs {
            ws_url: Some(String::from_str("ws://127.0.0.1:28257")),
            ecapture_args: Some(String::from_str(" tls --ecaptureq ws://127.0.0.1:28257")),
            user_sql: None,
        }
    }
}

/// The configuration-file check: the host reports whether the file exists
/// and whether it could be loaded; the defaults are written exactly when one
/// of the two failed.
pub fn config_check(file_exists: bool, load_ok: bool) -> (write_defaults: bool)
    ensures
        write_defaults == !(file_exists && load_ok),
{
    !(file_exists && load_ok)
}

/// The normal form of user-supplied filter text: trimmed, and dropped
/// entirely when nothing but whitespace is left.
pub open spec fn spec_normalize_user_sql(o: Option<Seq<char>>) -> Option<Seq<char>> {
    match o {
        None => None,
        Some(s) => if spec_trim(s).len() == 0 {
            None
        } else {
            Some(spec_trim(s))
        },
    }
}

/// Normalize user-supplied filter text: trim it, and treat an empty or
/// all-whitespace string as no filter at all.
pub fn normalize_user_sql(user_sql: Option<String>) -> (r: Option<String>)
    ensures
        opt_str_view(r) == spec_normalize_user_sql(opt_str_view(user_sql)),
{
    match user_sql {
        None => None,
        Some(s) => {
            let trimmed = trim_chars(s.as_str());
            if trimmed.unicode_len() == 0 {
                None
            } else {
                Some(String::from_str(trimmed))
            }
        },
    }
}

} // verus!
