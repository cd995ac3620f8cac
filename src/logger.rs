use vstd::prelude::*;

verus! {

/// A value that can describe itself on one log line.
pub trait Loggable {
    /// The text of the value's log line.
    spec fn log_text(&self) -> Seq<char>;

    fn to_log_string(&self) -> (r: String)
        ensures
            r@ == self.log_text(),
    ;
}

/// Severity of a log line.
#[derive(Debug, Copy, Clone, PartialEq, Eq, Structural)]
pub enum LogLevel {
    Error,
    Warn,
    Info,
    Success,
    Debug,
}

/// The tag that a log line of each level carries.
pub open spec fn level_tag(level: LogLevel) -> Seq<char> {
    match level {
        LogLevel::Error => "ERROR"@,
        LogLevel::Warn => "WARN "@,
        LogLevel::Info => "INFO "@,
        LogLevel::Success => "OK   "@,
        LogLevel::Debug => "DEBUG"@,
    }
}

/// A log line: `[module] TAG: message`.
pub open spec fn log_line(module: Seq<char>, level: LogLevel, msg: Seq<char>) -> Seq<char> {
    "["@ + module + "] "@ + level_tag(level) + ": "@ + msg
}

/// Formats log lines on behalf of one module.
#[derive(Debug, Clone)]
pub struct Logger {
    module_name: String,
}

impl Logger {
    /// Name of the module that the lines are written for.
    pub closed spec fn module(&self) -> Seq<char> {
        self.module_name@
    }

    pub fn new(module: &str) -> (r: Self)
        ensures
            r.module() == module@,
    {
        Logger { module_name: module.to_string() }
    }

    /// The line to print for a message of the given level.
    pub fn line(&self, level: LogLevel, msg: &str) -> (r: String)
        ensures
            r@ == log_line(self.module(), level, msg@),
    {
        let mut out = "[".to_string();
        out.append(self.module_name.as_str());
        out.append("] ");
        match level {
            LogLevel::Error => out.append("ERROR"),
            LogLevel::Warn => out.append("WARN "),
            LogLevel::Info => out.append("INFO "),
            LogLevel::Success => out.append("OK   "),
            LogLevel::Debug => out.append("DEBUG"),
        }
        out.append(": ");
        out.append(msg);
        out
    }

    /// The debug line that describes a value.
    pub fn log_object<T: Loggable>(&self, v: &T) -> (r: String)
        ensures
            r@ == log_line(self.module(), LogLevel::Debug, v.log_text()),
    {
        let s = v.to_log_string();
        self.line(LogLevel::Debug, s.as_str())
    }
}

} // verus!
