//! What reading and writing a settings file can come to, as the stores see
//! it.

use crate::report::{describe, described};
use vstd::prelude::*;
use vstd::string::*;

verus! {

/// What was found where a store keeps its file.
#[derive(Debug)]
pub enum Stored<T> {
    /// There is no file.
    Absent,
    /// The file could not be read, with the reason.
    Unreadable(String),
    /// The file was read but is not what the store writes, with the reason.
    Malformed(String),
    /// The file's content.
    Parsed(T),
}

/// Why a store could not write its file.
#[derive(Debug)]
pub enum SaveFailure {
    /// The content could not be put into text, with the reason.
    Serialize(String),
    /// The text could not be written, with the reason.
    Write(String),
}

/// How a store words its failures.
pub struct Wording<'a> {
    pub unreadable: &'a str,
    pub malformed: &'a str,
    pub serialize: &'a str,
    pub write: &'a str,
}

/// What a load reports when the file was there: its content, or the failure
/// in the store's words. `None` when there was no file, which every store
/// answers with its defaults.
pub open spec fn load_report<T>(wording: Wording, stored: Stored<T>) -> Option<
    Result<T, Seq<char>>,
> {
    match stored {
        Stored::Absent => None,
        Stored::Unreadable(reason) => Some(Err(described(wording.unreadable@, reason@))),
        Stored::Malformed(reason) => Some(Err(described(wording.malformed@, reason@))),
        Stored::Parsed(content) => Some(Ok(content)),
    }
}

/// What a save reports: success, or the failure in the store's words.
pub open spec fn save_report(wording: Wording, saved: Result<(), SaveFailure>) -> Result<
    (),
    Seq<char>,
> {
    match saved {
        Ok(()) => Ok(()),
        Err(SaveFailure::Serialize(reason)) => Err(described(wording.serialize@, reason@)),
        Err(SaveFailure::Write(reason)) => Err(described(wording.write@, reason@)),
    }
}

/// Reports what a load found, leaving the case of no file to the caller.
pub fn report_load<T>(wording: &Wording, stored: Stored<T>) -> (report: Option<Result<T, String>>)
    ensures
        match load_report(*wording, stored) {
            None => report is None,
            Some(Ok(content)) => report == Some(Ok::<T, String>(content)),
            Some(Err(text)) => report matches Some(Err(message)) && message@ == text,
        },
{
    match stored {
        Stored::Absent => None,
        Stored::Unreadable(reason) => Some(Err(describe(wording.unreadable, reason.as_str()))),
        Stored::Malformed(reason) => Some(Err(describe(wording.malformed, reason.as_str()))),
        Stored::Parsed(content) => Some(Ok(content)),
    }
}

/// Reports how a save went.
pub fn report_save(wording: &Wording, saved: Result<(), SaveFailure>) -> (report: Result<
    (),
    String,
>)
    ensures
        match save_report(*wording, saved) {
            Ok(()) => report is Ok,
            Err(text) => report matches Err(message) && message@ == text,
        },
{
    match saved {
        Ok(()) => Ok(()),
        Err(SaveFailure::Serialize(reason)) => Err(describe(wording.serialize, reason.as_str())),
        Err(SaveFailure::Write(reason)) => Err(describe(wording.write, reason.as_str())),
    }
}

} // verus!
