use vstd::prelude::*;

use crate::format::{console_line, console_text, file_line, file_text};
use crate::level::{
    initial_filter, initial_level, level_enabled, set_max_level, Level, LevelFilter,
};

verus! {

/// Why a configuration call failed.
#[derive(Debug)]
pub enum LogError {
    /// The level override names no level; it holds the value given.
    InvalidLevelOverride(String),
}

/// The logger's configuration: whether it is installed, whether it echoes to
/// the console, the file it writes to (a handle of type `F`), and the
/// minimum severity.
pub struct Logsy<F> {
    pub installed: bool,
    pub to_stderr: bool,
    pub to_file: Option<F>,
    pub level: Option<Level>,
}

/// The lines that one record produces for each sink, where that sink is on.
pub struct Emission {
    pub console: Option<String>,
    pub file: Option<String>,
}

/// An optional string as a sequence of characters.
pub open spec fn opt_view(s: Option<&str>) -> Option<Seq<char>> {
    match s {
        Some(v) => Some(v@),
        None => None,
    }
}

/// Installation cannot happen: the logger is not installed and the level
/// override names no level.
pub open spec fn install_fails<F>(s: Logsy<F>, level_override: Option<Seq<char>>) -> bool {
    !s.installed && initial_filter(level_override) is None
}

/// The configuration once installed: unchanged where it already was, else
/// marked installed with the initial level.
pub open spec fn after_install<F>(s: Logsy<F>, level_override: Option<Seq<char>>) -> Logsy<F> {
    if s.installed {
        s
    } else {
        Logsy { installed: true, level: initial_filter(level_override)->0.to_level(), ..s }
    }
}

/// The configuration after console output was switched on or off.
pub open spec fn with_console<F>(s: Logsy<F>, on: bool, level_override: Option<Seq<char>>) -> Logsy<F> {
    Logsy { to_stderr: on, ..after_install(s, level_override) }
}

/// The configuration after the file sink was replaced.
pub open spec fn with_file<F>(s: Logsy<F>, file: Option<F>, level_override: Option<Seq<char>>) -> Logsy<F> {
    Logsy { to_file: file, ..after_install(s, level_override) }
}

/// The configuration after the level was set.
pub open spec fn with_level<F>(s: Logsy<F>, f: LevelFilter, level_override: Option<Seq<char>>) -> Logsy<F> {
    Logsy { level: f.to_level(), ..after_install(s, level_override) }
}

impl<F> Logsy<F> {
    /// A logger that is not installed, has no sink and no level.
    pub fn new() -> (r: Self)
        ensures
            !r.installed,
            !r.to_stderr,
            r.to_file is None,
            r.level is None,
    {
        Logsy { installed: false, to_stderr: false, to_file: None, level: None }
    }

    /// Whether a record of severity `l` passes the minimum severity.
    pub fn enabled(&self, l: Level) -> (r: bool)
        ensures
            r == level_enabled(self.level, l),
    {
        match self.level {
            Some(m) => match (l, m) {
                (Level::Error, _) => true,
                (Level::Warn, Level::Error) => false,
                (Level::Warn, _) => true,
                (Level::Info, Level::Error) | (Level::Info, Level::Warn) => false,
                (Level::Info, _) => true,
                (Level::Debug, Level::Debug) | (Level::Debug, Level::Trace) => true,
                (Level::Debug, _) => false,
                (Level::Trace, Level::Trace) => true,
                (Level::Trace, _) => false,
            },
            None => false,
        }
    }

    /// Installs the logger where it is not yet installed: marks it installed
    /// and sets the level that the override names, `Info` without one.
    /// Returns `true` when this call installed it, so that the caller
    /// registers it with the host; fails, changing nothing, where the
    /// override names no level.
    pub fn ensure_installed(&mut self, level_override: Option<&str>) -> (r: Result<bool, LogError>)
        ensures
            install_fails(*old(self), opt_view(level_override)) ==> {
                &&& r matches Err(LogError::InvalidLevelOverride(v))
                &&& level_override matches Some(o) && v@ == o@
                &&& *final(self) == *old(self)
            },
            !install_fails(*old(self), opt_view(level_override)) ==> {
                &&& r == Ok::<bool, LogError>(!old(self).installed)
                &&& *final(self) == after_install(*old(self), opt_view(level_override))
            },
    {
        if self.installed {
            return Ok(false);
        }
        match initial_level(level_override) {
            Some(f) => {
                self.installed = true;
                self.apply_level(f);
                Ok(true)
            },
            None => {
                let bad = match level_override {
                    Some(o) => o.to_string(),
                    None => String::new(),
                };
                Err(LogError::InvalidLevelOverride(bad))
            },
        }
    }

    /// Sets the minimum severity and the host's global hint together.
    pub(crate) fn apply_level(&mut self, f: LevelFilter)
        ensures
            *final(self) == (Logsy { level: f.to_level(), ..*old(self) }),
    {
        set_max_level(f);
        self.level = f.to_level();
    }

    /// Filters and formats one record: the console line where console output
    /// is on, the file line where a file is set, nothing where the record's
    /// severity does not pass. `ts` is the record's timestamp field.
    pub fn emission(&self, l: Level, ts: &str, origin: &str, msg: &str, styled: bool) -> (r: Emission)
        ensures
            !level_enabled(self.level, l) ==> r.console is None && r.file is None,
            level_enabled(self.level, l) ==> {
                &&& (r.console is Some <==> self.to_stderr)
                &&& (r.file is Some <==> self.to_file is Some)
                &&& r.console matches Some(c) ==> c@ == console_text(ts@, l, origin@, msg@, styled)
                &&& r.file matches Some(f) ==> f@ == file_text(ts@, l, origin@, msg@)
            },
    {
        if !self.enabled(l) {
            return Emission { console: None, file: None };
        }
        let console = if self.to_stderr {
            Some(console_line(ts, l, origin, msg, styled))
        } else {
            None
        };
        let file = match &self.to_file {
            Some(_) => Some(file_line(ts, l, origin, msg)),
            None => None,
        };
        Emission { console, file }
    }
}

/// Switching console output on twice leaves the configuration as switching
/// it on once does, and the second call neither fails nor installs again.
pub proof fn lemma_console_idempotent<F>(s: Logsy<F>, level_override: Option<Seq<char>>)
    requires
        !install_fails(s, level_override),
    ensures
        with_console(with_console(s, true, level_override), true, level_override)
            == with_console(s, true, level_override),
        !install_fails(with_console(s, true, level_override), level_override),
        with_console(s, true, level_override).installed,
{
}

/// Setting file `a` and then file `b` leaves the configuration as setting `b`
/// alone does: `b` is the one file sink and `a` receives nothing more.
pub proof fn lemma_file_replaced<F>(s: Logsy<F>, a: F, b: F, level_override: Option<Seq<char>>)
    requires
        !install_fails(s, level_override),
    ensures
        with_file(with_file(s, Some(a), level_override), Some(b), level_override)
            == with_file(s, Some(b), level_override),
        with_file(with_file(s, Some(a), level_override), Some(b), level_override).to_file
            == Some(b),
{
}

/// Once a level is set, a record passes exactly when its rank is at most the
/// filter's; a fresh logger, which has no level yet, lets nothing pass.
pub proof fn lemma_level_decides<F>(
    s: Logsy<F>,
    f: LevelFilter,
    level_override: Option<Seq<char>>,
    l: Level,
)
    requires
        !install_fails(s, level_override),
    ensures
        level_enabled(with_level(s, f, level_override).level, l) <==> l.rank() <= f.rank(),
        s.level is None ==> !level_enabled(s.level, l),
{
}

} // verus!
