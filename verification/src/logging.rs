//! Structured logging: levels, entries, a logger that filters by level,
//! and the command line that configures it. The logger writes nothing
//! itself: it returns the lines that are to be written.

use crate::text::{decimal, decimal_text, same_text};
use vstd::prelude::*;
use vstd::string::*;

verus! {

/// The levels of the log, the most severe first.
#[derive(Debug, Clone, Copy, PartialEq, Eq, PartialOrd, Ord, Structural)]
pub enum LogLevel {
    Error,
    Warn,
    Info,
    Debug,
    Trace,
}

impl LogLevel {
    /// The position of the level, the most severe first.
    pub open spec fn rank_spec(self) -> int {
        match self {
            LogLevel::Error => 0,
            LogLevel::Warn => 1,
            LogLevel::Info => 2,
            LogLevel::Debug => 3,
            LogLevel::Trace => 4,
        }
    }

    pub fn rank(&self) -> (res: u8)
        ensures
            res == self.rank_spec(),
    {
        match self {
            LogLevel::Error => 0,
            LogLevel::Warn => 1,
            LogLevel::Info => 2,
            LogLevel::Debug => 3,
            LogLevel::Trace => 4,
        }
    }

    /// The level in five characters, for columns.
    pub open spec fn column_text(self) -> Seq<char> {
        match self {
            LogLevel::Error => "ERROR"@,
            LogLevel::Warn => "WARN "@,
            LogLevel::Info => "INFO "@,
            LogLevel::Debug => "DEBUG"@,
            LogLevel::Trace => "TRACE"@,
        }
    }

    pub fn as_str(&self) -> (res: &'static str)
        ensures
            res@ == self.column_text(),
    {
        match self {
            LogLevel::Error => "ERROR",
            LogLevel::Warn => "WARN ",
            LogLevel::Info => "INFO ",
            LogLevel::Debug => "DEBUG",
            LogLevel::Trace => "TRACE",
        }
    }

    /// The level's name as it stands in a log line.
    pub open spec fn name_text(self) -> Seq<char> {
        match self {
            LogLevel::Error => "Error"@,
            LogLevel::Warn => "Warn"@,
            LogLevel::Info => "Info"@,
            LogLevel::Debug => "Debug"@,
            LogLevel::Trace => "Trace"@,
        }
    }

    pub fn name(&self) -> (res: &'static str)
        ensures
            res@ == self.name_text(),
    {
        match self {
            LogLevel::Error => "Error",
            LogLevel::Warn => "Warn",
            LogLevel::Info => "Info",
            LogLevel::Debug => "Debug",
            LogLevel::Trace => "Trace",
        }
    }

    /// Whether a logger with the threshold `min_level` writes this level:
    /// the level is the threshold or a more severe one.
    pub open spec fn passes(self, min_level: LogLevel) -> bool {
        self.rank_spec() <= min_level.rank_spec()
    }
}

/// A log line: the level in brackets, the component, the message.
pub open spec fn line_text(level: LogLevel, component: Seq<char>, message: Seq<char>) -> Seq<
    char,
> {
    "["@ + level.name_text() + "] "@ + component + ": "@ + message
}

/// One entry of the log.
pub struct LogEntry {
    pub level: LogLevel,
    pub component: String,
    pub message: String,
    /// Milliseconds since the epoch of the writer's clock.
    pub timestamp: u64,
}

impl LogEntry {
    pub fn new(level: LogLevel, component: &str, message: &str, timestamp: u64) -> (res: Self)
        ensures
            res.level == level,
            res.component@ == component@,
            res.message@ == message@,
            res.timestamp == timestamp,
    {
        LogEntry {
            level,
            component: String::from_str(component),
            message: String::from_str(message),
            timestamp,
        }
    }

    /// The entry as a line of the log.
    pub fn format(&self) -> (res: String)
        ensures
            res@ == line_text(self.level, self.component@, self.message@),
    {
        let mut text = String::from_str("[");
        text.append(self.level.name());
        text.append("] ");
        text.append(self.component.as_str());
        text.append(": ");
        text.append(self.message.as_str());
        text
    }
}

/// A logger of one component that passes the entries at its threshold and
/// the more severe ones.
pub struct ScoreLogger {
    pub min_level: LogLevel,
    pub component: String,
}

impl ScoreLogger {
    /// The line that the logger writes for a message, if it writes one.
    pub open spec fn written(&self, level: LogLevel, message: Seq<char>) -> Option<Seq<char>> {
        if level.passes(self.min_level) {
            Some(line_text(level, self.component@, message))
        } else {
            None
        }
    }

    pub fn new(component: &str, min_level: LogLevel) -> (res: Self)
        ensures
            res.min_level == min_level,
            res.component@ == component@,
    {
        ScoreLogger { min_level, component: String::from_str(component) }
    }

    /// The line to write for a message of a level, or nothing where the
    /// level is below the logger's threshold.
    pub fn log(&self, level: LogLevel, message: &str, timestamp: u64) -> (res: Option<String>)
        ensures
            res is Some <==> level.passes(self.min_level),
            res is Some ==> self.written(level, message@) == Some(res->Some_0@),
    {
        if level.rank() <= self.min_level.rank() {
            let entry = LogEntry::new(level, self.component.as_str(), message, timestamp);
            Some(entry.format())
        } else {
            None
        }
    }

    pub fn error(&self, message: &str, timestamp: u64) -> (res: Option<String>)
        ensures
            res is Some <==> LogLevel::Error.passes(self.min_level),
            res is Some ==> self.written(LogLevel::Error, message@) == Some(res->Some_0@),
    {
        self.log(LogLevel::Error, message, timestamp)
    }

    pub fn warn(&self, message: &str, timestamp: u64) -> (res: Option<String>)
        ensures
            res is Some <==> LogLevel::Warn.passes(self.min_level),
            res is Some ==> self.written(LogLevel::Warn, message@) == Some(res->Some_0@),
    {
        self.log(LogLevel::Warn, message, timestamp)
    }

    pub fn info(&self, message: &str, timestamp: u64) -> (res: Option<String>)
        ensures
            res is Some <==> LogLevel::Info.passes(self.min_level),
            res is Some ==> self.written(LogLevel::Info, message@) == Some(res->Some_0@),
    {
        self.log(LogLevel::Info, message, timestamp)
    }

    pub fn debug(&self, message: &str, timestamp: u64) -> (res: Option<String>)
        ensures
            res is Some <==> LogLevel::Debug.passes(self.min_level),
            res is Some ==> self.written(LogLevel::Debug, message@) == Some(res->Some_0@),
    {
        self.log(LogLevel::Debug, message, timestamp)
    }

    pub fn trace(&self, message: &str, timestamp: u64) -> (res: Option<String>)
        ensures
            res is Some <==> LogLevel::Trace.passes(self.min_level),
            res is Some ==> self.written(LogLevel::Trace, message@) == Some(res->Some_0@),
    {
        self.log(LogLevel::Trace, message, timestamp)
    }
}

/// The text in upper case, as the standard library's `str::to_uppercase`
/// writes it.
pub uninterp spec fn upper_case_text(s: Seq<char>) -> Seq<char>;

/// `str::to_uppercase`: the text with every character replaced by its
/// upper-case form. Nothing is proved of it; its result has a name.
#[verifier::external_body]
fn upper_case(s: &str) -> (res: String)
    ensures
        res@ == upper_case_text(s@),
{
    s.to_uppercase()
}

/// The level that a name in upper case stands for.
pub open spec fn level_named_spec(upper: Seq<char>) -> Option<LogLevel> {
    if upper == "ERROR"@ {
        Some(LogLevel::Error)
    } else if upper == "WARN"@ {
        Some(LogLevel::Warn)
    } else if upper == "INFO"@ {
        Some(LogLevel::Info)
    } else if upper == "DEBUG"@ {
        Some(LogLevel::Debug)
    } else if upper == "TRACE"@ {
        Some(LogLevel::Trace)
    } else {
        None
    }
}

/// The level that a name in upper case stands for: one of ERROR, WARN,
/// INFO, DEBUG and TRACE, and no other text.
pub fn level_named(upper: &str) -> (res: Option<LogLevel>)
    ensures
        res == level_named_spec(upper@),
{
    if same_text(upper, "ERROR") {
        Some(LogLevel::Error)
    } else if same_text(upper, "WARN") {
        Some(LogLevel::Warn)
    } else if same_text(upper, "INFO") {
        Some(LogLevel::Info)
    } else if same_text(upper, "DEBUG") {
        Some(LogLevel::Debug)
    } else if same_text(upper, "TRACE") {
        Some(LogLevel::Trace)
    } else {
        None
    }
}

/// The text of the error for a name that stands for no level.
pub open spec fn invalid_level_text(name: Seq<char>) -> Seq<char> {
    "Invalid log level: "@ + name
}

/// What a level's name, in any case, is read as.
pub open spec fn parsed_level(s: Seq<char>) -> Result<LogLevel, Seq<char>> {
    match level_named_spec(upper_case_text(s)) {
        Some(level) => Ok(level),
        None => Err(invalid_level_text(s)),
    }
}

/// Reads a level's name in any case. Another text is rejected with an
/// error that quotes it.
pub fn parse_log_level(s: &str) -> (res: Result<LogLevel, String>)
    ensures
        match parsed_level(s@) {
            Ok(level) => res == Ok::<LogLevel, String>(level),
            Err(text) => res is Err && res->Err_0@ == text,
        },
{
    let upper = upper_case(s);
    match level_named(upper.as_str()) {
        Some(level) => Ok(level),
        None => {
            let mut text = String::from_str("Invalid log level: ");
            text.append(s);
            Err(text)
        },
    }
}

/// The configuration of the demonstration.
pub struct ScoreConfig {
    pub name: String,
    pub log_level: LogLevel,
}

/// What a command line is read as.
pub enum ParsedArgs {
    Config { name: Seq<char>, log_level: LogLevel },
    Failure { text: Seq<char> },
}

/// What the arguments from position `at` on are read as, with the name and
/// level that the arguments before them have set. `--name` and `-n` take
/// the next argument as the name, `--log-level` and `-l` the next as the
/// level; `--help` and `-h` end the reading with the text HELP; anything
/// else is unknown.
pub open spec fn parsed_from(
    args: Seq<Seq<char>>,
    at: int,
    name: Seq<char>,
    log_level: LogLevel,
) -> ParsedArgs
    decreases args.len() - at,
{
    if at < 0 || at >= args.len() {
        ParsedArgs::Config { name, log_level }
    } else if args[at] == "--name"@ || args[at] == "-n"@ {
        if at + 1 < args.len() {
            parsed_from(args, at + 2, args[at + 1], log_level)
        } else {
            ParsedArgs::Failure { text: "--name requires a value"@ }
        }
    } else if args[at] == "--log-level"@ || args[at] == "-l"@ {
        if at + 1 < args.len() {
            match parsed_level(args[at + 1]) {
                Ok(level) => parsed_from(args, at + 2, name, level),
                Err(text) => ParsedArgs::Failure { text },
            }
        } else {
            ParsedArgs::Failure { text: "--log-level requires a value"@ }
        }
    } else if args[at] == "--help"@ || args[at] == "-h"@ {
        ParsedArgs::Failure { text: "HELP"@ }
    } else {
        ParsedArgs::Failure { text: "Unknown argument: "@ + args[at] }
    }
}

/// The texts of a command line.
pub open spec fn arg_texts(args: Seq<String>) -> Seq<Seq<char>> {
    args.map_values(|a: String| a@)
}

impl ScoreConfig {
    /// Reads the command line, whose first argument is the program's name.
    /// Without options the name is S-CORE and the level Info.
    pub fn from_args(args: &Vec<String>) -> (res: Result<ScoreConfig, String>)
        ensures
            match parsed_from(arg_texts(args@), 1, "S-CORE"@, LogLevel::Info) {
                ParsedArgs::Config { name, log_level } => res is Ok && res->Ok_0.name@ == name
                    && res->Ok_0.log_level == log_level,
                ParsedArgs::Failure { text } => res is Err && res->Err_0@ == text,
            },
    {
        let mut name = String::from_str("S-CORE");
        let mut log_level = LogLevel::Info;
        let mut i: usize = 1;
        while i < args.len()
            invariant
                1 <= i,
                parsed_from(arg_texts(args@), i as int, name@, log_level) == parsed_from(
                    arg_texts(args@),
                    1,
                    "S-CORE"@,
                    LogLevel::Info,
                ),
            decreases args@.len() - i,
        {
            assert(arg_texts(args@)[i as int] == args@[i as int]@);
            let arg = args[i].as_str();
            if same_text(arg, "--name") || same_text(arg, "-n") {
                if i < args.len() - 1 {
                    assert(arg_texts(args@)[i + 1] == args@[i + 1]@);
                    name = args[i + 1].clone();
                    i += 2;
                } else {
                    return Err(String::from_str("--name requires a value"));
                }
            } else if same_text(arg, "--log-level") || same_text(arg, "-l") {
                if i < args.len() - 1 {
                    assert(arg_texts(args@)[i + 1] == args@[i + 1]@);
                    match parse_log_level(args[i + 1].as_str()) {
                        Ok(level) => {
                            log_level = level;
                        },
                        Err(text) => {
                            return Err(text);
                        },
                    }
                    i += 2;
                } else {
                    return Err(String::from_str("--log-level requires a value"));
                }
            } else if same_text(arg, "--help") || same_text(arg, "-h") {
                return Err(String::from_str("HELP"));
            } else {
                let mut text = String::from_str("Unknown argument: ");
                text.append(arg);
                return Err(text);
            }
        }
        Ok(ScoreConfig { name, log_level })
    }
}

/// The lines that are written, of those that were offered: a line that the
/// logger did not pass leaves no trace.
pub open spec fn with_line(lines: Seq<Seq<char>>, line: Option<Seq<char>>) -> Seq<Seq<char>> {
    match line {
        Some(text) => lines.push(text),
        None => lines,
    }
}

/// A component that counts how often it has run, and logs what it does.
pub struct ScoreComponent {
    pub logger: ScoreLogger,
    pub counter: u64,
}

impl ScoreComponent {
    /// The line that reports the initialisation of a component.
    pub open spec fn initialized_text(name: Seq<char>) -> Seq<char> {
        "Component '"@ + name + "' initialized"@
    }

    /// The lines that one run writes when it brings the counter to
    /// `counter`: the start, the new count, every tenth count as a
    /// milestone, every hundredth as a century, and the end.
    pub open spec fn run_lines(logger: ScoreLogger, counter: u64) -> Seq<Seq<char>> {
        let started = with_line(
            Seq::empty(),
            logger.written(LogLevel::Trace, "Starting process"@),
        );
        let counted = with_line(
            started,
            logger.written(
                LogLevel::Debug,
                "Counter incremented to "@ + decimal_text(counter as nat),
            ),
        );
        let milestone = if counter % 10 == 0 {
            with_line(
                counted,
                logger.written(
                    LogLevel::Warn,
                    "Counter reached milestone: "@ + decimal_text(counter as nat),
                ),
            )
        } else {
            counted
        };
        let century = if counter % 100 == 0 {
            with_line(
                milestone,
                logger.written(
                    LogLevel::Info,
                    "Counter reached century: "@ + decimal_text(counter as nat),
                ),
            )
        } else {
            milestone
        };
        with_line(century, logger.written(LogLevel::Trace, "Process complete"@))
    }

    /// A component that has not run yet, and the line that reports it.
    pub fn new(name: &str, log_level: LogLevel, timestamp: u64) -> (res: (Self, Option<String>))
        ensures
            res.0.counter == 0,
            res.0.logger.min_level == log_level,
            res.0.logger.component@ == name@,
            res.1 is Some <==> LogLevel::Info.passes(log_level),
            res.1 is Some ==> res.1->Some_0@ == line_text(
                LogLevel::Info,
                name@,
                Self::initialized_text(name@),
            ),
    {
        let logger = ScoreLogger::new(name, log_level);
        let mut message = String::from_str("Component '");
        message.append(name);
        message.append("' initialized");
        let line = logger.info(message.as_str(), timestamp);
        (ScoreComponent { logger, counter: 0 }, line)
    }

    /// Runs once: counts, and returns the lines to write.
    pub fn process(&mut self, timestamp: u64) -> (res: Vec<String>)
        requires
            old(self).counter < u64::MAX,
        ensures
            final(self).counter == old(self).counter + 1,
            final(self).logger == old(self).logger,
            res@.map_values(|line: String| line@) == Self::run_lines(
                old(self).logger,
                final(self).counter,
            ),
    {
        let mut lines: Vec<String> = Vec::new();
        let ghost mut written: Seq<Seq<char>> = Seq::empty();
        assert(lines@.map_values(|line: String| line@) =~= written);

        let started = self.logger.trace("Starting process", timestamp);
        proof {
            written = with_line(written, self.logger.written(LogLevel::Trace, "Starting process"@));
        }
        if let Some(line) = started {
            lines.push(line);
        }
        assert(lines@.map_values(|line: String| line@) =~= written);

        self.counter += 1;
        let count = decimal(self.counter);

        let mut message = String::from_str("Counter incremented to ");
        message.append(count.as_str());
        let counted = self.logger.debug(message.as_str(), timestamp);
        proof {
            written = with_line(written, self.logger.written(LogLevel::Debug, message@));
        }
        if let Some(line) = counted {
            lines.push(line);
        }
        assert(lines@.map_values(|line: String| line@) =~= written);

        if self.counter % 10 == 0 {
            let mut message = String::from_str("Counter reached milestone: ");
            message.append(count.as_str());
            let milestone = self.logger.warn(message.as_str(), timestamp);
            proof {
                written = with_line(written, self.logger.written(LogLevel::Warn, message@));
            }
            if let Some(line) = milestone {
                lines.push(line);
            }
            assert(lines@.map_values(|line: String| line@) =~= written);
        }
        if self.counter % 100 == 0 {
            let mut message = String::from_str("Counter reached century: ");
            message.append(count.as_str());
            let century = self.logger.info(message.as_str(), timestamp);
            proof {
                written = with_line(written, self.logger.written(LogLevel::Info, message@));
            }
            if let Some(line) = century {
                lines.push(line);
            }
            assert(lines@.map_values(|line: String| line@) =~= written);
        }
        let finished = self.logger.trace("Process complete", timestamp);
        proof {
            written = with_line(written, self.logger.written(LogLevel::Trace, "Process complete"@));
        }
        if let Some(line) = finished {
            lines.push(line);
        }
        assert(lines@.map_values(|line: String| line@) =~= written);
        lines
    }
}

} // verus!
