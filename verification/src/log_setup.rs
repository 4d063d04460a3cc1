//! Log records on the debug serial port.

use vstd::prelude::*;
use vstd::string::StringExecFns;

verus! {

/// How severe a log record is.
#[derive(Clone, Copy, Debug, PartialEq, Eq, Structural)]
pub enum Level {
    Error,
    Warn,
    Info,
    Debug,
    Trace,
}

impl Level {
    /// The name of the level, as it stands in a log line.
    pub open spec fn name(self) -> Seq<char> {
        match self {
            Level::Error => "ERROR"@,
            Level::Warn => "WARN"@,
            Level::Info => "INFO"@,
            Level::Debug => "DEBUG"@,
            Level::Trace => "TRACE"@,
        }
    }
}

/// Calls `log::Level::as_str`, trusted to return the upper-case name of the level.
#[verifier::external_body]
fn level_as_str(level: Level) -> (name: &'static str)
    ensures
        name@ == level.name(),
{
    match level {
        Level::Error => log::Level::Error,
        Level::Warn => log::Level::Warn,
        Level::Info => log::Level::Info,
        Level::Debug => log::Level::Debug,
        Level::Trace => log::Level::Trace,
    }.as_str()
}

/// The line that a log record makes: `[LEVEL] target: message`.
pub open spec fn log_line(level: Level, target: Seq<char>, message: Seq<char>) -> Seq<char> {
    "["@ + level.name() + "] "@ + target + ": "@ + message + "\n"@
}

/// The logger of the debug serial port.
pub struct UsartLogger;

impl UsartLogger {
    /// Whether records of the level and target are logged: all are.
    pub fn enabled(&self, level: Level, target: &str) -> (enabled: bool)
        ensures
            enabled,
    {
        true
    }

    /// The line to write for a record; none before a port has been installed.
    pub fn log(&self, installed: bool, level: Level, target: &str, message: &str) -> (line: Option<
        String,
    >)
        ensures
            installed <==> line is Some,
            line matches Some(text) ==> text@ == log_line(level, target@, message@),
    {
        if !self.enabled(level, target) {
            return None;
        }
        if !installed {
            return None;
        }
        let mut text: String = String::new();
        text.append("[");
        text.append(level_as_str(level));
        text.append("] ");
        text.append(target);
        text.append(": ");
        text.append(message);
        text.append("\n");
        assert(text@ =~= log_line(level, target@, message@));
        Some(text)
    }
}

/// The name of a level is its upper-case English word.
pub proof fn law_level_names(level: Level)
    ensures
        level.name() == (match level {
            Level::Error => seq!['E', 'R', 'R', 'O', 'R'],
            Level::Warn => seq!['W', 'A', 'R', 'N'],
            Level::Info => seq!['I', 'N', 'F', 'O'],
            Level::Debug => seq!['D', 'E', 'B', 'U', 'G'],
            Level::Trace => seq!['T', 'R', 'A', 'C', 'E'],
        }),
{
    reveal_strlit("ERROR");
    reveal_strlit("WARN");
    reveal_strlit("INFO");
    reveal_strlit("DEBUG");
    reveal_strlit("TRACE");
    match level {
        Level::Error => {
            assert(level.name() =~= seq!['E', 'R', 'R', 'O', 'R']);
        },
        Level::Warn => {
            assert(level.name() =~= seq!['W', 'A', 'R', 'N']);
        },
        Level::Info => {
            assert(level.name() =~= seq!['I', 'N', 'F', 'O']);
        },
        Level::Debug => {
            assert(level.name() =~= seq!['D', 'E', 'B', 'U', 'G']);
        },
        Level::Trace => {
            assert(level.name() =~= seq!['T', 'R', 'A', 'C', 'E']);
        },
    }
}

/// Target and message stand in the line whole, at places that the level and the
/// target's length give, between fixed marks; nothing else stands in it.
pub proof fn law_log_line_holds_its_parts(level: Level, target: Seq<char>, message: Seq<char>)
    ensures
        ({
            let line = log_line(level, target, message);
            let at = 3 + level.name().len() as int;
            let colon = at + target.len() as int;
            let end = colon + 2 + message.len() as int;
            &&& line.len() == end + 1
            &&& line[0] == '['
            &&& line.subrange(1, at - 2) == level.name()
            &&& line[at - 2] == ']' && line[at - 1] == ' '
            &&& line.subrange(at, colon) == target
            &&& line[colon] == ':' && line[colon + 1] == ' '
            &&& line.subrange(colon + 2, end) == message
            &&& line[end] == '\n'
        }),
{
    reveal_strlit("[");
    reveal_strlit("] ");
    reveal_strlit(": ");
    reveal_strlit("\n");
    let line = log_line(level, target, message);
    let at = 3 + level.name().len() as int;
    let colon = at + target.len() as int;
    let end = colon + 2 + message.len() as int;
    assert(line.subrange(1, at - 2) =~= level.name());
    assert(line.subrange(at, colon) =~= target);
    assert(line.subrange(colon + 2, end) =~= message);
}

} // verus!
