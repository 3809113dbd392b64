//! The logger: level gate, line formatting and dispatch to the sinks.

use crate::clock::{is_timestamp, local_time, TIMESTAMP_PATTERN};
use crate::log_level::LogLevel;
use crate::paint::{
    is_rendering, lemma_rendering_of_escape_free_text, wrapped, Painted, PaintedView, Style,
};
use crate::record::{format_line, line, record_views, Record, RecordView, Sink};
use vstd::prelude::*;

verus! {

/// The mathematical value of a [`Logger`]: its settings, and the records it
/// has emitted that no one has taken yet, oldest first.
pub struct LoggerView {
    pub name: Seq<char>,
    pub min_level: LogLevel,
    pub write_to_console: bool,
    pub write_to_file: bool,
    pub file_path: Option<Seq<char>>,
    pub pending: Seq<RecordView>,
}

impl LoggerView {
    /// File output is enabled only where a file path is set.
    pub open spec fn wf(self) -> bool {
        self.write_to_file ==> self.file_path is Some
    }

    /// Whether a message of the given level passes the minimum level.
    pub open spec fn admits(self, level: LogLevel) -> bool {
        level.rank() >= self.min_level.rank()
    }
}

/// A record for the file: a line with the level's name and the message as
/// given, under a timestamp.
pub open spec fn is_file_record(
    record: RecordView,
    name: Seq<char>,
    level: LogLevel,
    message: Seq<char>,
) -> bool {
    &&& record.sink == Sink::File
    &&& exists|stamp: Seq<char>|
        is_timestamp(stamp) && record.text == #[trigger] line(stamp, name, level.name(), message)
}

/// A record for the console: a line under a timestamp whose level is the
/// level's name and whose message is the message as given, each as it is
/// sent to a terminal in the level's style.
pub open spec fn is_console_record(
    record: RecordView,
    name: Seq<char>,
    level: LogLevel,
    message: Seq<char>,
) -> bool {
    &&& record.sink == Sink::Console
    &&& exists|stamp: Seq<char>, level_text: Seq<char>, message_text: Seq<char>|
        {
            &&& is_timestamp(stamp)
            &&& is_rendering(level_text, level.name(), level.style())
            &&& is_rendering(message_text, message, level.style())
            &&& record.text == #[trigger] line(stamp, name, level_text, message_text)
        }
}

/// What one admitted call adds to the pending records: a record for the
/// file if file output is enabled, then one for the console if console
/// output is enabled.
pub open spec fn emitted(
    pre: LoggerView,
    level: LogLevel,
    message: Seq<char>,
    added: Seq<RecordView>,
) -> bool {
    let to_file: int = if pre.write_to_file { 1 } else { 0 };
    let to_console: int = if pre.write_to_console { 1 } else { 0 };
    &&& added.len() == to_file + to_console
    &&& pre.write_to_file ==> is_file_record(added[0], pre.name, level, message)
    &&& pre.write_to_console ==> is_console_record(added[to_file], pre.name, level, message)
}

/// One call of [`Logger::log`], as a relation between the logger before and
/// after it: the call is admitted exactly when the level passes the minimum
/// level; the settings stay; an admitted call appends its records to the
/// pending ones, and a call that is not admitted changes nothing.
pub open spec fn log_step(
    pre: LoggerView,
    level: LogLevel,
    message: Seq<char>,
    post: LoggerView,
    logged: bool,
) -> bool {
    let added = post.pending.skip(pre.pending.len() as int);
    &&& logged == pre.admits(level)
    &&& post == LoggerView { pending: post.pending, ..pre }
    &&& post.pending == pre.pending + added
    &&& if logged {
        emitted(pre, level, message, added)
    } else {
        added.len() == 0
    }
}

/// What a logger is configured with.
struct Settings {
    name: String,
    min_level: LogLevel,
    file_path: Option<String>,
    write_to_console: bool,
    write_to_file: bool,
}

impl Settings {
    #[verifier::type_invariant]
    spec fn well_formed(self) -> bool {
        self.write_to_file ==> self.file_path is Some
    }
}

/// A logger with a name, a minimum level, and up to two destinations.
pub struct Logger {
    settings: Settings,
    pending: Vec<Record>,
}

impl View for Logger {
    type V = LoggerView;

    closed spec fn view(&self) -> LoggerView {
        LoggerView {
            name: self.settings.name@,
            min_level: self.settings.min_level,
            write_to_console: self.settings.write_to_console,
            write_to_file: self.settings.write_to_file,
            file_path: match self.settings.file_path {
                Some(path) => Some(path@),
                None => None,
            },
            pending: record_views(self.pending@),
        }
    }
}

impl Logger {
    /// A logger that writes to the console only.
    pub fn new(name: String, min_level: LogLevel) -> (logger: Self)
        ensures
            logger@ == (LoggerView {
                name: name@,
                min_level,
                write_to_console: true,
                write_to_file: false,
                file_path: None,
                pending: Seq::empty(),
            }),
    {
        let logger = Self {
            settings: Settings {
                name,
                min_level,
                file_path: None,
                write_to_console: true,
                write_to_file: false,
            },
            pending: Vec::new(),
        };
        assert(logger@.pending =~= Seq::empty());
        logger
    }

    /// A logger that writes to the file at `filepath`, and to the console
    /// too if `write_to_console_too` is set. The logger keeps the path; the
    /// file is opened by whoever carries the records to it.
    pub fn new_to_file(
        name: String,
        min_level: LogLevel,
        filepath: String,
        write_to_console_too: bool,
    ) -> (logger: Self)
        ensures
            logger@ == (LoggerView {
                name: name@,
                min_level,
                write_to_console: write_to_console_too,
                write_to_file: true,
                file_path: Some(filepath@),
                pending: Seq::empty(),
            }),
    {
        let logger = Self {
            settings: Settings {
                name,
                min_level,
                file_path: Some(filepath),
                write_to_console: write_to_console_too,
                write_to_file: true,
            },
            pending: Vec::new(),
        };
        assert(logger@.pending =~= Seq::empty());
        logger
    }

    /// A logger that writes to the console only, from level `Info` up.
    pub fn new_default(name: String) -> (logger: Self)
        ensures
            logger@ == (LoggerView {
                name: name@,
                min_level: LogLevel::Info,
                write_to_console: true,
                write_to_file: false,
                file_path: None,
                pending: Seq::empty(),
            }),
    {
        Self::new(name, LogLevel::Info)
    }

    /// The local time, to the millisecond, as a timestamp.
    fn get_date_time() -> (stamp: String)
        ensures
            is_timestamp(stamp@),
    {
        local_time(TIMESTAMP_PATTERN)
    }

    /// The name of a level, in the level's style.
    pub fn get_colored_level_name(level: LogLevel) -> (painted: Painted)
        ensures
            painted@ == (PaintedView { text: level.name(), style: level.style() }),
    {
        level.color_string(level.to_string())
    }

    /// A message in the style of its level.
    pub fn get_colored_message(level: LogLevel, message: &str) -> (painted: Painted)
        ensures
            painted@ == (PaintedView { text: message@, style: level.style() }),
    {
        level.color_string(message)
    }

    /// Queues the plain line of a message for the file.
    fn log_to_file(pending: &mut Vec<Record>, level: LogLevel, message: &str, name: &str)
        ensures
            final(pending)@ == old(pending)@.push(final(pending)@.last()),
            is_file_record(final(pending)@.last()@, name@, level, message@),
    {
        let stamp = Logger::get_date_time();
        let text = format_line(stamp.as_str(), name, level.to_string(), message);
        pending.push(Record { sink: Sink::File, text });
    }

    /// Queues the styled line of a message for the console.
    fn log_to_console(pending: &mut Vec<Record>, level: LogLevel, message: &str, name: &str)
        ensures
            final(pending)@ == old(pending)@.push(final(pending)@.last()),
            is_console_record(final(pending)@.last()@, name@, level, message@),
    {
        let stamp = Logger::get_date_time();
        let level_text = Logger::get_colored_level_name(level).render();
        let message_text = Logger::get_colored_message(level, message).render();
        let text = format_line(stamp.as_str(), name, level_text.as_str(), message_text.as_str());
        pending.push(Record { sink: Sink::Console, text });
    }

    /// Logs a message at the given level. Returns whether the level passed
    /// the minimum level; if it did, a line is queued for the file, where
    /// file output is enabled, and then for the console, where console
    /// output is enabled. Each line carries the local time at which it was
    /// made. A call below the minimum level changes nothing.
    pub fn log(&mut self, level: LogLevel, message: &str) -> (logged: bool)
        ensures
            log_step(old(self)@, level, message@, final(self)@, logged),
    {
        if level.rank() >= self.settings.min_level.rank() {
            if self.settings.write_to_file {
                Logger::log_to_file(&mut self.pending, level, message, self.settings.name.as_str());
            }
            if self.settings.write_to_console {
                Logger::log_to_console(
                    &mut self.pending,
                    level,
                    message,
                    self.settings.name.as_str(),
                );
            }
            proof {
                let before = old(self)@.pending;
                let after = self@.pending;
                assert(after =~= before + after.skip(before.len() as int));
            }
            return true;
        }
        false
    }

    /// Logs a message at level `Info`, as [`Logger::log`] does.
    pub fn info(&mut self, message: &str) -> (logged: bool)
        ensures
            log_step(old(self)@, LogLevel::Info, message@, final(self)@, logged),
    {
        self.log(LogLevel::Info, message)
    }

    /// Logs a message at level `Debug`, as [`Logger::log`] does.
    pub fn debug(&mut self, message: &str) -> (logged: bool)
        ensures
            log_step(old(self)@, LogLevel::Debug, message@, final(self)@, logged),
    {
        self.log(LogLevel::Debug, message)
    }

    /// Logs a message at level `Trace`, as [`Logger::log`] does.
    pub fn trace(&mut self, message: &str) -> (logged: bool)
        ensures
            log_step(old(self)@, LogLevel::Trace, message@, final(self)@, logged),
    {
        self.log(LogLevel::Trace, message)
    }

    /// Logs a message at level `Warning`, as [`Logger::log`] does.
    pub fn warning(&mut self, message: &str) -> (logged: bool)
        ensures
            log_step(old(self)@, LogLevel::Warning, message@, final(self)@, logged),
    {
        self.log(LogLevel::Warning, message)
    }

    /// Logs a message at level `Error`, as [`Logger::log`] does.
    pub fn error(&mut self, message: &str) -> (logged: bool)
        ensures
            log_step(old(self)@, LogLevel::Error, message@, final(self)@, logged),
    {
        self.log(LogLevel::Error, message)
    }

    /// Logs a message at level `Critical`, as [`Logger::log`] does. No
    /// minimum level holds such a message back.
    pub fn critical(&mut self, message: &str) -> (logged: bool)
        ensures
            log_step(old(self)@, LogLevel::Critical, message@, final(self)@, logged),
            logged,
    {
        self.log(LogLevel::Critical, message)
    }

    /// The name of the logger.
    pub fn name(&self) -> (name: &str)
        ensures
            name@ == self@.name,
    {
        self.settings.name.as_str()
    }

    /// The lowest level that is logged.
    pub fn min_level(&self) -> (level: LogLevel)
        ensures
            level == self@.min_level,
    {
        self.settings.min_level
    }

    /// Whether lines go to the console.
    pub fn write_to_console(&self) -> (enabled: bool)
        ensures
            enabled == self@.write_to_console,
    {
        self.settings.write_to_console
    }

    /// Whether lines go to the file. Where they do, a file path is set.
    pub fn write_to_file(&self) -> (enabled: bool)
        ensures
            enabled == self@.write_to_file,
            self@.wf(),
    {
        proof {
            use_type_invariant(&self.settings);
        }
        self.settings.write_to_file
    }

    /// The path of the log file, if one is set.
    pub fn file_path(&self) -> (path: Option<&str>)
        ensures
            match path {
                Some(path) => self@.file_path == Some(path@),
                None => self@.file_path is None,
            },
    {
        match &self.settings.file_path {
            Some(path) => Some(path.as_str()),
            None => None,
        }
    }

    /// Sets the lowest level that is logged.
    pub fn set_min_level(&mut self, min_level: LogLevel)
        ensures
            final(self)@ == (LoggerView { min_level, ..old(self)@ }),
    {
        proof {
            use_type_invariant(&self.settings);
        }
        self.settings.min_level = min_level;
    }

    /// Turns console output on or off.
    pub fn set_write_to_console(&mut self, enabled: bool)
        ensures
            final(self)@ == (LoggerView { write_to_console: enabled, ..old(self)@ }),
    {
        proof {
            use_type_invariant(&self.settings);
        }
        self.settings.write_to_console = enabled;
    }

    /// Turns file output on or off. It can be turned on only where a file
    /// path is set.
    pub fn set_write_to_file(&mut self, enabled: bool)
        requires
            enabled ==> old(self)@.file_path is Some,
        ensures
            final(self)@ == (LoggerView { write_to_file: enabled, ..old(self)@ }),
    {
        self.settings.write_to_file = enabled;
    }

    /// Binds the logger to the file at `filepath`, in place of the file it
    /// was bound to, if any. Whether file output is enabled does not change.
    pub fn set_file_path(&mut self, filepath: String)
        ensures
            final(self)@ == (LoggerView { file_path: Some(filepath@), ..old(self)@ }),
    {
        self.settings.file_path = Some(filepath);
    }

    /// Hands out the pending records, oldest first, and leaves none pending.
    pub fn take_pending(&mut self) -> (records: Vec<Record>)
        ensures
            record_views(records@) == old(self)@.pending,
            final(self)@ == (LoggerView { pending: Seq::empty(), ..old(self)@ }),
    {
        let mut records = Vec::new();
        core::mem::swap(&mut self.pending, &mut records);
        assert(self@.pending =~= Seq::empty());
        records
    }
}

/// A call below the minimum level is not logged and changes nothing: for
/// levels `lower` and `min_level` with `lower` of the lesser rank, a logger
/// whose minimum level is `min_level` returns `false` for a call at `lower`
/// and is afterwards what it was before.
pub proof fn lemma_below_min_level_is_silent(
    pre: LoggerView,
    lower: LogLevel,
    min_level: LogLevel,
    message: Seq<char>,
    post: LoggerView,
    logged: bool,
)
    requires
        lower.rank() < min_level.rank(),
        pre.min_level == min_level,
        log_step(pre, lower, message, post, logged),
    ensures
        !logged,
        post == pre,
{
}

/// A call at the minimum level or above it is logged.
pub proof fn lemma_from_min_level_up_is_logged(
    pre: LoggerView,
    min_level: LogLevel,
    level: LogLevel,
    message: Seq<char>,
    post: LoggerView,
    logged: bool,
)
    requires
        level.rank() >= min_level.rank(),
        pre.min_level == min_level,
        log_step(pre, level, message, post, logged),
    ensures
        logged,
{
}

/// With console output off and file output on, an admitted call adds one
/// record, for the file, and none for the console.
pub proof fn lemma_file_only_output(
    pre: LoggerView,
    level: LogLevel,
    message: Seq<char>,
    post: LoggerView,
    logged: bool,
)
    requires
        !pre.write_to_console,
        pre.write_to_file,
        log_step(pre, level, message, post, logged),
    ensures
        logged ==> post.pending.len() == pre.pending.len() + 1,
        logged ==> is_file_record(post.pending.last(), pre.name, level, message),
        forall|i: int|
            pre.pending.len() <= i < post.pending.len() ==> (#[trigger] post.pending[i]).sink
                != Sink::Console,
        !logged ==> post == pre,
{
}

/// No call removes or changes a record that is pending: the records that
/// were pending before the call are the first of those pending after it.
pub proof fn lemma_log_only_appends(
    pre: LoggerView,
    level: LogLevel,
    message: Seq<char>,
    post: LoggerView,
    logged: bool,
)
    requires
        log_step(pre, level, message, post, logged),
    ensures
        pre.pending.len() <= post.pending.len(),
        post.pending.take(pre.pending.len() as int) == pre.pending,
{
}

/// A call leaves in place what makes a logger well formed: file output is
/// enabled after it only where a file path is set.
pub proof fn lemma_log_keeps_well_formed(
    pre: LoggerView,
    level: LogLevel,
    message: Seq<char>,
    post: LoggerView,
    logged: bool,
)
    requires
        pre.wf(),
        log_step(pre, level, message, post, logged),
    ensures
        post.wf(),
{
}

/// At a level whose style is plain, the console line is the file line: the
/// level's name and the message stand in it as they are, whether colour is
/// switched on or not.
pub proof fn lemma_plain_console_line_is_file_line(
    record: RecordView,
    name: Seq<char>,
    level: LogLevel,
    message: Seq<char>,
)
    requires
        is_console_record(record, name, level, message),
        level.style() == Style::plain(),
    ensures
        is_file_record(RecordView { sink: Sink::File, ..record }, name, level, message),
{
    let (stamp, level_text, message_text) = choose|
        stamp: Seq<char>,
        level_text: Seq<char>,
        message_text: Seq<char>,
    |
        {
            &&& is_timestamp(stamp)
            &&& is_rendering(level_text, level.name(), level.style())
            &&& is_rendering(message_text, message, level.style())
            &&& record.text == #[trigger] line(stamp, name, level_text, message_text)
        };
    assert(record.text == line(stamp, name, level.name(), message));
}

/// The console line of a message that holds no escape character is the
/// file line with its styling: under the same kind of timestamp and the
/// same name, the level's name stands either as it is or between the escape
/// sequence of the level's style and the reset sequence, and so does the
/// message.
pub proof fn lemma_console_line_is_styled_file_line(
    record: RecordView,
    name: Seq<char>,
    level: LogLevel,
    message: Seq<char>,
)
    requires
        is_console_record(record, name, level, message),
        forall|i: int| 0 <= i < message.len() ==> message[i] != '\u{1b}',
    ensures
        exists|stamp: Seq<char>, level_text: Seq<char>, message_text: Seq<char>|
            {
                &&& is_timestamp(stamp)
                &&& level_text == level.name() || level_text == wrapped(
                    level.name(),
                    level.style(),
                )
                &&& message_text == message || message_text == wrapped(message, level.style())
                &&& record.text == #[trigger] line(stamp, name, level_text, message_text)
            },
{
    let (stamp, level_text, message_text) = choose|
        stamp: Seq<char>,
        level_text: Seq<char>,
        message_text: Seq<char>,
    |
        {
            &&& is_timestamp(stamp)
            &&& is_rendering(level_text, level.name(), level.style())
            &&& is_rendering(message_text, message, level.style())
            &&& record.text == #[trigger] line(stamp, name, level_text, message_text)
        };
    lemma_level_names_hold_no_escape(level);
    lemma_rendering_of_escape_free_text(level_text, level.name(), level.style());
    lemma_rendering_of_escape_free_text(message_text, message, level.style());
    assert(record.text == line(stamp, name, level_text, message_text));
}

proof fn lemma_level_names_hold_no_escape(level: LogLevel)
    ensures
        forall|i: int| 0 <= i < level.name().len() ==> level.name()[i] != '\u{1b}',
{
    reveal_strlit("trace");
    reveal_strlit("debug");
    reveal_strlit("info");
    reveal_strlit("warning");
    reveal_strlit("error");
    reveal_strlit("critical");
}

} // verus!
