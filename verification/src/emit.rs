//! The native emission surface: one function per severity level, each of
//! which makes the record that is handed to the backend.

use crate::level::SeverityLevel;
use vstd::prelude::*;

verus! {

/// A record on its way to the backend: a level and a text. It borrows the
/// text from the caller and is not kept.
#[derive(Clone, Copy, Debug, PartialEq, Eq)]
pub struct LogMessage<'a> {
    pub level: SeverityLevel,
    pub text: &'a str,
}

/// The record that carries `msg` at level `Trace`.
pub fn trace<'a>(msg: &'a str) -> (record: LogMessage<'a>)
    ensures
        record.level == SeverityLevel::Trace,
        record.text == msg,
{
    LogMessage { level: SeverityLevel::Trace, text: msg }
}

/// The record that carries `msg` at level `Debug`.
pub fn debug<'a>(msg: &'a str) -> (record: LogMessage<'a>)
    ensures
        record.level == SeverityLevel::Debug,
        record.text == msg,
{
    LogMessage { level: SeverityLevel::Debug, text: msg }
}

/// The record that carries `msg` at level `Info`.
pub fn info<'a>(msg: &'a str) -> (record: LogMessage<'a>)
    ensures
        record.level == SeverityLevel::Info,
        record.text == msg,
{
    LogMessage { level: SeverityLevel::Info, text: msg }
}

/// The record that carries `msg` at level `Warn`.
pub fn warn<'a>(msg: &'a str) -> (record: LogMessage<'a>)
    ensures
        record.level == SeverityLevel::Warn,
        record.text == msg,
{
    LogMessage { level: SeverityLevel::Warn, text: msg }
}

/// The record that carries `msg` at level `Error`.
pub fn error<'a>(msg: &'a str) -> (record: LogMessage<'a>)
    ensures
        record.level == SeverityLevel::Error,
        record.text == msg,
{
    LogMessage { level: SeverityLevel::Error, text: msg }
}

} // verus!
