//! Errors that carry a log level and a trace of their causes.

use std::fmt::Display;
use vstd::prelude::*;
use vstd::string::*;

verus! {

/// Possible log levels, from the least to the most severe.
#[derive(PartialEq, Eq, Structural, PartialOrd, Ord, Debug, Clone, Copy)]
pub enum Level {
    /// Unspecified log level
    Unspecified,
    /// TRACE
    Trace,
    /// DEBUG
    Debug,
    /// INFO
    Info,
    /// WARN
    Warn,
    /// ERROR
    Error,
}

/// Default log level for the crate
pub const DEFAULT_LOG_LEVEL: Level = Level::Debug;

impl Level {
    /// The position of a level in the order of severity.
    pub open spec fn rank(self) -> nat {
        match self {
            Level::Unspecified => 0,
            Level::Trace => 1,
            Level::Debug => 2,
            Level::Info => 3,
            Level::Warn => 4,
            Level::Error => 5,
        }
    }

    /// The more severe of two levels.
    pub open spec fn spec_higher(self, other: Level) -> Level {
        if other.rank() >= self.rank() {
            other
        } else {
            self
        }
    }

    /// The level at which an error of this level is logged: the default
    /// level where none is specified.
    pub open spec fn spec_effective(self) -> Level {
        if self == Level::Unspecified {
            Level::Debug
        } else {
            self
        }
    }

    /// The position of this level in the order of severity.
    pub fn severity(self) -> (r: u8)
        ensures
            r == self.rank(),
    {
        match self {
            Level::Unspecified => 0,
            Level::Trace => 1,
            Level::Debug => 2,
            Level::Info => 3,
            Level::Warn => 4,
            Level::Error => 5,
        }
    }

    /// The more severe of two levels.
    pub fn higher(self, other: Level) -> (r: Level)
        ensures
            r == self.spec_higher(other),
    {
        if other.severity() >= self.severity() {
            other
        } else {
            self
        }
    }

    /// The level at which an error of this level is logged.
    pub fn effective(self) -> (r: Level)
        ensures
            r == self.spec_effective(),
            r != Level::Unspecified,
    {
        match self {
            Level::Unspecified => DEFAULT_LOG_LEVEL,
            _ => self,
        }
    }
}

/// main error type
#[derive(Debug, Clone)]
#[must_use]
pub struct Error {
    /// level
    pub level: Level,
    /// message
    pub message: String,
}

/// What logging a value emits: a message at a level.
#[derive(Debug, Clone)]
pub struct LogRecord {
    pub level: Level,
    pub message: String,
}

/// Trait for logging errors
pub trait Log {
    /// The record that logging this value emits, if it emits one.
    fn log(&self) -> Option<LogRecord>;
}

impl Error {
    /// An independent copy that holds the same level and message.
    pub fn duplicate(&self) -> (r: Error)
        ensures
            r.level == self.level,
            r.message@ == self.message@,
    {
        Error { level: self.level, message: self.message.clone() }
    }

    /// The text that this error displays: its message.
    pub fn display(&self) -> (r: String)
        ensures
            r@ == self.message@,
    {
        self.message.clone()
    }

    /// The record that logging this error emits: its message, at its level,
    /// or at the default level where none is specified.
    pub fn log_record(&self) -> (r: LogRecord)
        ensures
            r.level == self.level.spec_effective(),
            r.message@ == self.message@,
    {
        LogRecord { level: self.level.effective(), message: self.message.clone() }
    }

    /// An error at `level` whose message is the location, a colon and a
    /// space, and then the text.
    pub fn located(level: Level, location: &str, text: &str) -> (r: Error)
        ensures
            r.level == level,
            r.message@ == location@ + ": "@ + text@,
    {
        let mut message: String = String::from_str(location);
        message.append(": ");
        message.append(text);
        Error { level, message }
    }
}

/// An error at level TRACE, raised at `location`.
pub fn trace(location: &str, text: &str) -> (r: Error)
    ensures
        r.level == Level::Trace,
        r.message@ == location@ + ": "@ + text@,
{
    Error::located(Level::Trace, location, text)
}

/// An error at level DEBUG, raised at `location`.
pub fn debug(location: &str, text: &str) -> (r: Error)
    ensures
        r.level == Level::Debug,
        r.message@ == location@ + ": "@ + text@,
{
    Error::located(Level::Debug, location, text)
}

/// An error at level INFO, raised at `location`.
pub fn info(location: &str, text: &str) -> (r: Error)
    ensures
        r.level == Level::Info,
        r.message@ == location@ + ": "@ + text@,
{
    Error::located(Level::Info, location, text)
}

/// An error at level WARN, raised at `location`.
pub fn warn(location: &str, text: &str) -> (r: Error)
    ensures
        r.level == Level::Warn,
        r.message@ == location@ + ": "@ + text@,
{
    Error::located(Level::Warn, location, text)
}

/// An error at level ERROR, raised at `location`.
pub fn error(location: &str, text: &str) -> (r: Error)
    ensures
        r.level == Level::Error,
        r.message@ == location@ + ": "@ + text@,
{
    Error::located(Level::Error, location, text)
}

impl Log for Error {
    fn log(&self) -> (r: Option<LogRecord>)
        ensures
            r is Some,
            r->Some_0.level == self.level.spec_effective(),
            r->Some_0.message@ == self.message@,
    {
        Some(self.log_record())
    }
}

impl<T> Log for Result<T, Error> {
    fn log(&self) -> (r: Option<LogRecord>)
        ensures
            match *self {
                Ok(_) => r is None,
                Err(e) => r is Some && r->Some_0.level == e.level.spec_effective()
                    && r->Some_0.message@ == e.message@,
            },
    {
        match self {
            Ok(_) => None,
            Err(e) => Some(e.log_record()),
        }
    }
}

/// Trait for a `std::result::Result` that can be wrapped into a `Result`
pub trait Wrap<T> {
    /// Wrap the value into a `Result`
    ///
    /// # Errors
    /// Propagates errors from `self`
    fn wrap(self) -> Result<T, Error>;
}

impl<T, E> Wrap<T> for Result<T, E> where E: Display {
    fn wrap(self) -> (r: Result<T, Error>)
        ensures
            match self {
                Ok(t) => r == Ok::<T, Error>(t),
                Err(e) => r is Err && r->Err_0.level == Level::Unspecified
                    && to_string_from_display_ensures::<E>(&e, r->Err_0.message),
            },
    {
        match self {
            Ok(t) => Ok(t),
            Err(e) => Err(Error { level: Level::Unspecified, message: e.to_string() }),
        }
    }
}

/// Prepend an error to its cause
pub fn concatenate(error: &String, cause: &String) -> (r: String)
    ensures
        r@ == error@ + "\ncaused by: "@ + cause@,
{
    let mut out: String = error.clone();
    out.append("\ncaused by: ");
    out.append(cause.as_str());
    out
}

/// Whether `made` is an error that the function `error` may make from a copy
/// of `cause`.
pub open spec fn made_from<F: Fn(Error) -> Error>(error: F, cause: Error, made: Error) -> bool {
    exists|copy: Error|
        copy.level == cause.level && copy.message@ == cause.message@ && #[trigger] error.ensures(
            (copy,),
            made,
        )
}

/// Trait for converting error types to a `Result<T>`.
pub trait Context<T, E> {
    /// Whether `error` can be attached: always for an error, and for a
    /// function that makes one when it can be called on every error.
    spec fn attaches(error: E) -> bool;

    /// Attach context to the given error.
    ///
    /// # Errors
    /// Propagates errors from `self`
    fn context(self, error: E) -> Result<T, Error>
        requires
            Self::attaches(error),
    ;
}

impl<T> Context<T, Error> for Result<T, Error> {
    open spec fn attaches(error: Error) -> bool {
        true
    }

    fn context(self, error: Error) -> (r: Result<T, Error>)
        ensures
            match self {
                Ok(t) => r == Ok::<T, Error>(t),
                Err(cause) => r is Err && r->Err_0.level == error.level.spec_higher(cause.level)
                    && r->Err_0.message@ == error.message@ + "\ncaused by: "@ + cause.message@,
            },
    {
        match self {
            Ok(t) => Ok(t),
            Err(cause) => Err(
                Error {
                    level: error.level.higher(cause.level),
                    message: concatenate(&error.message, &cause.message),
                },
            ),
        }
    }
}

impl<T, F> Context<T, F> for Result<T, Error> where F: Fn(Error) -> Error {
    open spec fn attaches(error: F) -> bool {
        forall|cause: Error| #[trigger] error.requires((cause,))
    }

    fn context(self, error: F) -> (r: Result<T, Error>)
        ensures
            match self {
                Ok(t) => r == Ok::<T, Error>(t),
                Err(cause) => r is Err && exists|first: Error, second: Error|
                    #![trigger first.level, second.message]
                    made_from(error, cause, first) && made_from(error, cause, second)
                        && r->Err_0.level == first.level.spec_higher(cause.level)
                        && r->Err_0.message@ == second.message@ + "\ncaused by: "@
                        + cause.message@,
            },
    {
        match self {
            Ok(t) => Ok(t),
            Err(cause) => {
                let first: Error = error(cause.duplicate());
                let second: Error = error(cause.duplicate());
                Err(
                    Error {
                        level: first.level.higher(cause.level),
                        message: concatenate(&second.message, &cause.message),
                    },
                )
            },
        }
    }
}

impl<T> Context<T, Error> for Option<T> {
    open spec fn attaches(error: Error) -> bool {
        true
    }

    fn context(self, error: Error) -> (r: Result<T, Error>)
        ensures
            match self {
                Some(t) => r == Ok::<T, Error>(t),
                None => r == Err::<T, Error>(error),
            },
    {
        match self {
            Some(t) => Ok(t),
            None => Err(error),
        }
    }
}

impl<'a, T> Context<&'a mut T, Error> for &'a mut Option<T> {
    open spec fn attaches(error: Error) -> bool {
        true
    }

    fn context(self, error: Error) -> (r: Result<&'a mut T, Error>)
        ensures
            match *old(self) {
                Some(t) => r is Ok && *r->Ok_0 == t && *final(self) == Some(*final(r->Ok_0)),
                None => r is Err && r->Err_0 == error && *final(self) == None::<T>,
            },
    {
        match self {
            Some(t) => Ok(t),
            None => Err(error),
        }
    }
}

} // verus!
