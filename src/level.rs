use vstd::prelude::*;

verus! {

/// Severity of a record. `Error` is the most severe, `Trace` the most verbose.
#[derive(Clone, Copy, Debug, PartialEq, Eq, Structural)]
pub enum Level {
    Error,
    Warn,
    Info,
    Debug,
    Trace,
}

/// The minimum severity that passes, or `Off` for none.
#[derive(Clone, Copy, Debug, PartialEq, Eq, Structural)]
pub enum LevelFilter {
    Off,
    Error,
    Warn,
    Info,
    Debug,
    Trace,
}

/// `s` padded on the right with spaces to `width` characters.
pub open spec fn pad_right(s: Seq<char>, width: nat) -> Seq<char> {
    if s.len() >= width {
        s
    } else {
        s + Seq::new((width - s.len()) as nat, |_i: int| ' ')
    }
}

impl Level {
    /// Verbosity rank: 1 for `Error` up to 5 for `Trace`.
    pub open spec fn rank(self) -> nat {
        match self {
            Level::Error => 1,
            Level::Warn => 2,
            Level::Info => 3,
            Level::Debug => 4,
            Level::Trace => 5,
        }
    }

    /// The upper-case name of the level.
    pub open spec fn name(self) -> Seq<char> {
        match self {
            Level::Error => seq!['E', 'R', 'R', 'O', 'R'],
            Level::Warn => seq!['W', 'A', 'R', 'N'],
            Level::Info => seq!['I', 'N', 'F', 'O'],
            Level::Debug => seq!['D', 'E', 'B', 'U', 'G'],
            Level::Trace => seq!['T', 'R', 'A', 'C', 'E'],
        }
    }

    /// The name left-justified in a field of five characters.
    pub open spec fn padded_name(self) -> Seq<char> {
        pad_right(self.name(), 5)
    }

    /// The upper-case name of the level.
    pub fn as_str(self) -> (r: &'static str)
        ensures
            r@ == self.name(),
    {
        match self {
            Level::Error => {
                proof { reveal_strlit("ERROR"); }
                "ERROR"
            },
            Level::Warn => {
                proof { reveal_strlit("WARN"); }
                "WARN"
            },
            Level::Info => {
                proof { reveal_strlit("INFO"); }
                "INFO"
            },
            Level::Debug => {
                proof { reveal_strlit("DEBUG"); }
                "DEBUG"
            },
            Level::Trace => {
                proof { reveal_strlit("TRACE"); }
                "TRACE"
            },
        }
    }

    /// The name left-justified in a field of five characters (`"INFO "`).
    pub fn padded(self) -> (r: &'static str)
        ensures
            r@ == self.padded_name(),
    {
        match self {
            Level::Error => {
                proof { reveal_strlit("ERROR"); }
                "ERROR"
            },
            Level::Warn => {
                proof { reveal_strlit("WARN "); }
                assert("WARN "@ =~= pad_right(seq!['W', 'A', 'R', 'N'], 5));
                "WARN "
            },
            Level::Info => {
                proof { reveal_strlit("INFO "); }
                assert("INFO "@ =~= pad_right(seq!['I', 'N', 'F', 'O'], 5));
                "INFO "
            },
            Level::Debug => {
                proof { reveal_strlit("DEBUG"); }
                "DEBUG"
            },
            Level::Trace => {
                proof { reveal_strlit("TRACE"); }
                "TRACE"
            },
        }
    }
}

impl LevelFilter {
    /// Rank of the filter: 0 for `Off`, else the rank of its level.
    pub open spec fn rank(self) -> nat {
        match self {
            LevelFilter::Off => 0,
            LevelFilter::Error => 1,
            LevelFilter::Warn => 2,
            LevelFilter::Info => 3,
            LevelFilter::Debug => 4,
            LevelFilter::Trace => 5,
        }
    }

    pub open spec fn spec_to_level(self) -> Option<Level> {
        match self {
            LevelFilter::Off => None,
            LevelFilter::Error => Some(Level::Error),
            LevelFilter::Warn => Some(Level::Warn),
            LevelFilter::Info => Some(Level::Info),
            LevelFilter::Debug => Some(Level::Debug),
            LevelFilter::Trace => Some(Level::Trace),
        }
    }

    /// The level this filter lets through at its most verbose, `None` for `Off`.
    #[verifier::when_used_as_spec(spec_to_level)]
    pub fn to_level(self) -> (r: Option<Level>)
        ensures
            r == self.spec_to_level(),
    {
        match self {
            LevelFilter::Off => None,
            LevelFilter::Error => Some(Level::Error),
            LevelFilter::Warn => Some(Level::Warn),
            LevelFilter::Info => Some(Level::Info),
            LevelFilter::Debug => Some(Level::Debug),
            LevelFilter::Trace => Some(Level::Trace),
        }
    }
}

/// Whether a record of severity `l` passes the minimum `min`; nothing passes
/// while no minimum is set.
pub open spec fn level_enabled(min: Option<Level>, l: Level) -> bool {
    match min {
        Some(m) => l.rank() <= m.rank(),
        None => false,
    }
}

/// `c` in lower case, where it is an ASCII upper-case letter.
pub open spec fn ascii_lower(c: char) -> char {
    if 'A' <= c && c <= 'Z' {
        ((c as u32) + 32) as char
    } else {
        c
    }
}

/// Equality of two strings, ignoring ASCII case.
pub open spec fn eq_ignore_ascii_case(a: Seq<char>, b: Seq<char>) -> bool {
    a.len() == b.len() && forall|i: int| 0 <= i < a.len() ==> ascii_lower(a[i]) == ascii_lower(b[i])
}

/// The filter named by `s` (case-insensitive: "off", "error", ... "trace").
pub open spec fn filter_named(s: Seq<char>) -> Option<LevelFilter> {
    if eq_ignore_ascii_case(s, seq!['O', 'F', 'F']) {
        Some(LevelFilter::Off)
    } else if eq_ignore_ascii_case(s, Level::Error.name()) {
        Some(LevelFilter::Error)
    } else if eq_ignore_ascii_case(s, Level::Warn.name()) {
        Some(LevelFilter::Warn)
    } else if eq_ignore_ascii_case(s, Level::Info.name()) {
        Some(LevelFilter::Info)
    } else if eq_ignore_ascii_case(s, Level::Debug.name()) {
        Some(LevelFilter::Debug)
    } else if eq_ignore_ascii_case(s, Level::Trace.name()) {
        Some(LevelFilter::Trace)
    } else {
        None
    }
}

/// Relies on `<log::LevelFilter as FromStr>::from_str`: it compares `s`,
/// ignoring ASCII case, with "OFF", "ERROR", "WARN", "INFO", "DEBUG", "TRACE".
#[verifier::external_body]
fn parse_filter(s: &str) -> (r: Option<LevelFilter>)
    ensures
        r == filter_named(s@),
{
    match s.parse::<log::LevelFilter>() {
        Ok(log::LevelFilter::Off) => Some(LevelFilter::Off),
        Ok(log::LevelFilter::Error) => Some(LevelFilter::Error),
        Ok(log::LevelFilter::Warn) => Some(LevelFilter::Warn),
        Ok(log::LevelFilter::Info) => Some(LevelFilter::Info),
        Ok(log::LevelFilter::Debug) => Some(LevelFilter::Debug),
        Ok(log::LevelFilter::Trace) => Some(LevelFilter::Trace),
        Err(_) => None,
    }
}

/// Relies on `log::set_max_level`: it stores the filter as the global hint
/// that the `log` macros test before building a record.
#[verifier::external_body]
pub(crate) fn set_max_level(f: LevelFilter) {
    log::set_max_level(
        match f {
            LevelFilter::Off => log::LevelFilter::Off,
            LevelFilter::Error => log::LevelFilter::Error,
            LevelFilter::Warn => log::LevelFilter::Warn,
            LevelFilter::Info => log::LevelFilter::Info,
            LevelFilter::Debug => log::LevelFilter::Debug,
            LevelFilter::Trace => log::LevelFilter::Trace,
        },
    )
}

/// The filter that a level override names; `Info` where none is given.
pub open spec fn initial_filter(level_override: Option<Seq<char>>) -> Option<LevelFilter> {
    match level_override {
        None => Some(LevelFilter::Info),
        Some(s) => filter_named(s),
    }
}

/// Reads an optional level override: `Info` where none is given, the named
/// filter where the name is known, `None` where it is not.
pub fn initial_level(level_override: Option<&str>) -> (r: Option<LevelFilter>)
    ensures
        r == initial_filter(
            match level_override {
                Some(s) => Some(s@),
                None => None,
            },
        ),
{
    match level_override {
        None => Some(LevelFilter::Info),
        Some(s) => parse_filter(s),
    }
}

} // verus!
