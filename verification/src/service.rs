//! Settings of the service process: configuration values with defaults,
//! the run mode, the two loggers, and the level at which a request is
//! logged.
use vstd::prelude::*;
use vstd::string::StringExecFns;

verus! {

/// A configuration value: the one found in the environment, else the
/// default.
pub fn env_value_or(found: Option<String>, default: &str) -> (res: String)
    ensures
        res@ == match found {
            Some(v) => v@,
            None => default@,
        },
{
    match found {
        Some(v) => v,
        None => default.to_owned(),
    }
}

/// What `str::to_uppercase` makes of a text (Unicode upper case).
pub uninterp spec fn uppercase_text(s: Seq<char>) -> Seq<char>;

/// Calls `str::to_uppercase`. Claims: the result is the named upper case of
/// `s`.
#[verifier::external_body]
fn to_uppercase(s: &str) -> (res: String)
    ensures
        res@ == uppercase_text(s@),
{
    s.to_uppercase()
}

/// The name of the release mode.
pub open spec fn release_mode() -> Seq<char> {
    "RELEASE"@
}

/// The name of the debug mode.
pub open spec fn debug_mode() -> Seq<char> {
    "DEBUG"@
}

/// The run mode that a configured mode name selects: release where its upper
/// case is `RELEASE`, debug for everything else.
pub fn run_mode(configured: &str) -> (res: String)
    ensures
        res@ == if uppercase_text(configured@) == release_mode() {
            release_mode()
        } else {
            debug_mode()
        },
{
    let upper = to_uppercase(configured);
    let release = "RELEASE".to_owned();
    if upper == release {
        release
    } else {
        "DEBUG".to_owned()
    }
}

/// Where a logger writes, under what name, and whether its terminal output
/// is plain (without colours).
pub struct LoggerSetting {
    pub path: String,
    pub name: String,
    pub plain: bool,
}

/// The two loggers for a run `mode` that log into the folder `log_path`:
/// `main`, into `main.log`, with coloured terminal output; `http`, into
/// `http.log`, plain in release mode only.
pub fn logger_settings(mode: &str, log_path: &str) -> (res: (LoggerSetting, LoggerSetting))
    ensures
        res.0.path@ == log_path@ + "main.log"@,
        res.0.name@ == "main"@,
        !res.0.plain,
        res.1.path@ == log_path@ + "http.log"@,
        res.1.name@ == "http"@,
        res.1.plain == (mode@ == release_mode()),
{
    let mut main_path = log_path.to_owned();
    main_path.append("main.log");
    let mut http_path = log_path.to_owned();
    http_path.append("http.log");
    let mode_text = mode.to_owned();
    let release = "RELEASE".to_owned();
    let plain = mode_text == release;
    (
        LoggerSetting { path: main_path, name: "main".to_owned(), plain: false },
        LoggerSetting { path: http_path, name: "http".to_owned(), plain },
    )
}

/// The level at which a served request is logged.
#[derive(Debug, Clone, Copy, PartialEq, Eq, Structural)]
pub enum LogLevel {
    Info,
    Warn,
}

/// Requests answered with a status below 400 are logged as information,
/// the others as warnings.
pub fn request_log_level(status: u16) -> (res: LogLevel)
    ensures
        res == if status < 400 {
            LogLevel::Info
        } else {
            LogLevel::Warn
        },
{
    if status < 400 {
        LogLevel::Info
    } else {
        LogLevel::Warn
    }
}

} // verus!
