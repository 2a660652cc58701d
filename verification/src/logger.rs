//! The logging setup: where logs are shipped (Loki) and which levels are kept.
use vstd::prelude::*;
use vstd::string::*;

use crate::format::{pair, pairs_view};
use crate::numeric::{all_digits, digits_value};
use crate::urls::{url_parse, url_parse_spec};

verus! {

/// A log level, from the most to the least severe.
#[derive(PartialEq, Eq, Structural, Clone, Copy, Debug)]
pub enum LogLevel {
    Error,
    Warn,
    Info,
    Debug,
    Trace,
}

/// `c` with an ASCII capital letter made small.
pub open spec fn ascii_lower(c: char) -> char {
    if 'A' <= c <= 'Z' {
        ((c as u32) + 32) as char
    } else {
        c
    }
}

/// Whether `s` and `t` are equal when ASCII letters are compared without case
/// (`str::eq_ignore_ascii_case`).
pub open spec fn eq_ignore_ascii_case(s: Seq<char>, t: Seq<char>) -> bool {
    s.len() == t.len() && forall|i: int| 0 <= i < s.len() ==> ascii_lower(#[trigger] s[i]) == ascii_lower(t[i])
}

/// The level that `tracing::Level::from_str` reads from a text, numbered from
/// 1 (`ERROR`) to 5 (`TRACE`), or `None` when it reads none: a decimal number
/// from 1 to 5 (as `usize` parses it: an optional `+`, then digits), else one
/// of the names `error`, `warn`, `info`, `debug`, `trace` in any ASCII case.
pub open spec fn tracing_level_spec(s: Seq<char>) -> Option<int> {
    let body = if s.len() > 0 && s[0] == '+' { s.drop_first() } else { s };
    if body.len() > 0 && all_digits(body) && 1 <= digits_value(body) <= 5 {
        Some(digits_value(body) as int)
    } else if eq_ignore_ascii_case(s, "error"@) {
        Some(1)
    } else if eq_ignore_ascii_case(s, "warn"@) {
        Some(2)
    } else if eq_ignore_ascii_case(s, "info"@) {
        Some(3)
    } else if eq_ignore_ascii_case(s, "debug"@) {
        Some(4)
    } else if eq_ignore_ascii_case(s, "trace"@) {
        Some(5)
    } else {
        None
    }
}

/// `tracing::Level::from_str(s)`, the level numbered as in [`tracing_level_spec`].
#[verifier::external_body]
fn tracing_level(s: &str) -> (res: Option<u8>)
    ensures
        match res {
            Some(n) => tracing_level_spec(s@) == Some(n as int),
            None => tracing_level_spec(s@) is None,
        },
{
    match <tracing::Level as std::str::FromStr>::from_str(s) {
        Ok(l) if l == tracing::Level::ERROR => Some(1),
        Ok(l) if l == tracing::Level::WARN => Some(2),
        Ok(l) if l == tracing::Level::INFO => Some(3),
        Ok(l) if l == tracing::Level::DEBUG => Some(4),
        Ok(_) => Some(5),
        Err(_) => None,
    }
}

/// The level numbered `n` as in [`tracing_level_spec`].
pub open spec fn level_of(n: int) -> LogLevel {
    if n == 1 {
        LogLevel::Error
    } else if n == 2 {
        LogLevel::Warn
    } else if n == 3 {
        LogLevel::Info
    } else if n == 4 {
        LogLevel::Debug
    } else {
        LogLevel::Trace
    }
}

/// The default level kept: the `LOG_LEVEL` setting, "warn" when unset, read
/// as `tracing` reads levels; `None` when it names no level.
pub fn default_level(setting: Option<&str>) -> (res: Option<LogLevel>)
    ensures
        match tracing_level_spec(
            match setting {
                Some(s) => s@,
                None => "warn"@,
            },
        ) {
            Some(n) => res == Some(level_of(n)),
            None => res is None,
        },
{
    let text = match setting {
        Some(s) => s,
        None => "warn",
    };
    match tracing_level(text) {
        Some(n) => Some(
            if n == 1 {
                LogLevel::Error
            } else if n == 2 {
                LogLevel::Warn
            } else if n == 3 {
                LogLevel::Info
            } else if n == 4 {
                LogLevel::Debug
            } else {
                LogLevel::Trace
            },
        ),
        None => None,
    }
}

/// The targets logged at their own level: the bot itself and `again` at every
/// level, Telegram's library from `INFO` on.
pub open spec fn targets_spec() -> Seq<(Seq<char>, LogLevel)> {
    seq![("rustify"@, LogLevel::Trace), ("teloxide"@, LogLevel::Info), ("again"@, LogLevel::Trace)]
}

/// See [`targets_spec`].
pub fn targets() -> (res: Vec<(String, LogLevel)>)
    ensures
        res@.map_values(|t: (String, LogLevel)| (t.0@, t.1)) == targets_spec(),
{
    let mut res: Vec<(String, LogLevel)> = Vec::new();
    res.push((String::from_str("rustify"), LogLevel::Trace));
    res.push((String::from_str("teloxide"), LogLevel::Info));
    res.push((String::from_str("again"), LogLevel::Trace));
    assert(res@.map_values(|t: (String, LogLevel)| (t.0@, t.1)) =~= targets_spec());
    res
}

/// Where logs are shipped, and the labels they carry.
#[derive(Debug, Clone, PartialEq, Eq)]
pub struct LokiSettings {
    /// The Loki URL, as the `url` crate serializes it.
    pub url: String,
    pub labels: Vec<(String, String)>,
}

/// The labels of shipped logs: the app, and the instance ("unknown" unless set).
pub open spec fn loki_labels_spec(instance: Option<Seq<char>>) -> Seq<(Seq<char>, Seq<char>)> {
    seq![
        ("app"@, "rustify"@),
        (
            "instance"@,
            match instance {
                Some(i) => i,
                None => "unknown"@,
            },
        ),
    ]
}

/// The Loki settings: none when `LOKI_URL` is unset or empty, an error when
/// it does not parse.
pub fn loki_settings(url: Option<&str>, instance: Option<&str>) -> (res: Result<Option<LokiSettings>, url::ParseError>)
    ensures
        (url is None || url->0@.len() == 0) ==> res matches Ok(None),
        (url is Some && url->0@.len() > 0) ==> match url_parse_spec(url->0@) {
            None => res is Err,
            Some(u) => res matches Ok(Some(s)) && s.url@ == u && pairs_view(s.labels@)
                == loki_labels_spec(
                match instance {
                    Some(i) => Some(i@),
                    None => None,
                },
            ),
        },
{
    let url = match url {
        Some(u) => u,
        None => {
            return Ok(None);
        },
    };
    if url.unicode_len() == 0 {
        return Ok(None);
    }
    let parsed = url_parse(url)?;
    let mut labels: Vec<(String, String)> = Vec::new();
    labels.push(pair("app", "rustify"));
    match instance {
        Some(i) => labels.push(pair("instance", i)),
        None => labels.push(pair("instance", "unknown")),
    }
    assert(pairs_view(labels@) =~= loki_labels_spec(
        match instance {
            Some(i) => Some(i@),
            None => None,
        },
    ));
    Ok(Some(LokiSettings { url: parsed, labels }))
}

} // verus!
