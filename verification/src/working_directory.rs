//! The working directory of the process, against which the engine resolves
//! relative paths.
//!
//! The directory itself belongs to the operating system. This module decides
//! what is asked of it and what its answers mean for the host; the caller
//! makes the system calls in between.
//!
//! The directory is state of the whole process and nothing here locks it. A
//! caller sets it, then compiles, from one thread at a time: a change made
//! while another thread compiles or reads the directory is a race.

use vstd::prelude::*;
use std::string::FromUtf8Error;
use vstd::string::StringExecFns;
use crate::engine::{has_no_escape, percent_decode, percent_decoded};

verus! {

/// How `FailedToSetWorkingDirectory::message` begins.
pub const SET_FAILURE_PREFIX: &'static str = "Failed to set working directory to ";

/// How `FailedToGetWorkingDirectory::message` begins.
pub const GET_FAILURE_PREFIX: &'static str = "Failed to get working directory. Error: ";

/// The reason given for a directory whose path is not valid text.
pub const NOT_TEXT_REASON: &'static str = "Failed to convert path to string.";

/// The working directory could not be set.
#[derive(Debug)]
pub struct FailedToSetWorkingDirectory {
    path: String,
}

/// The working directory could not be read.
#[derive(Debug)]
pub struct FailedToGetWorkingDirectory {
    error: String,
}

impl FailedToSetWorkingDirectory {
    /// The path that was asked for, as the host gave it: still encoded.
    pub closed spec fn path(&self) -> Seq<char> {
        self.path@
    }

    pub fn message(&self) -> (message: String)
        ensures
            message@ == SET_FAILURE_PREFIX@ + self.path(),
    {
        let mut message = String::new();
        message.append(SET_FAILURE_PREFIX);
        message.append(self.path.as_str());
        message
    }
}

impl FailedToGetWorkingDirectory {
    /// Why the directory could not be read.
    pub closed spec fn reason(&self) -> Seq<char> {
        self.error@
    }

    pub fn message(&self) -> (message: String)
        ensures
            message@ == GET_FAILURE_PREFIX@ + self.reason(),
    {
        let mut message = String::new();
        message.append(GET_FAILURE_PREFIX);
        message.append(self.error.as_str());
        message
    }
}

/// Whether `c` is a hexadecimal digit.
pub open spec fn is_hex_digit(c: char) -> bool {
    ('0' <= c && c <= '9') || ('a' <= c && c <= 'f') || ('A' <= c && c <= 'F')
}

/// Whether every percent sign of `encoded` begins an escape: two hexadecimal
/// digits follow it.
pub open spec fn escapes_well_formed(encoded: Seq<char>) -> bool {
    forall|i: int|
        0 <= i < encoded.len() && #[trigger] encoded[i] == '%' ==> i + 2 < encoded.len()
            && is_hex_digit(encoded[i + 1]) && is_hex_digit(encoded[i + 2])
}

/// The number of digits that an escape begun just before the place `i` of
/// `encoded` still lacks there.
spec fn digits_owed(encoded: Seq<char>, i: int) -> int {
    if i >= 1 && encoded[i - 1] == '%' {
        2
    } else if i >= 2 && encoded[i - 2] == '%' {
        1
    } else {
        0
    }
}

/// Whether the escapes of `encoded` are well formed as far as its first `i`
/// characters show.
spec fn escapes_well_formed_up_to(encoded: Seq<char>, i: int) -> bool {
    forall|j: int|
        0 <= j < i && #[trigger] encoded[j] == '%' ==> (j + 1 < i ==> is_hex_digit(
            encoded[j + 1],
        )) && (j + 2 < i ==> is_hex_digit(encoded[j + 2]))
}

fn hex_digit(c: char) -> (hex: bool)
    ensures
        hex == is_hex_digit(c),
{
    ('0' <= c && c <= '9') || ('a' <= c && c <= 'f') || ('A' <= c && c <= 'F')
}

/// Whether every percent sign of `encoded` is followed by two hexadecimal
/// digits.
pub fn has_well_formed_escapes(encoded: &str) -> (well_formed: bool)
    ensures
        well_formed == escapes_well_formed(encoded@),
{
    let mut owed: u8 = 0;
    for c in iter: encoded.chars()
        invariant
            iter.seq() == encoded@,
            owed == digits_owed(encoded@, iter.index() as int),
            escapes_well_formed_up_to(encoded@, iter.index() as int),
    {
        if owed > 0 {
            if !hex_digit(c) {
                return false;
            }
            owed = owed - 1;
        } else if c == '%' {
            owed = 2;
        }
    }
    owed == 0
}

/// A change of the working directory that the operating system has yet to
/// make.
#[derive(Debug)]
pub struct DirectoryChange {
    /// The path as the host gave it.
    pub encoded: String,
    /// The directory to change to: the path with its percent escapes replaced.
    pub decoded: String,
}

impl DirectoryChange {
    /// The change for the path `encoded`, where the decoder answered
    /// `decoded`: to the directory that it gave, or the failure where it gave
    /// none. The failure names the path and drops the decoder's reason.
    pub fn decoded_as(encoded: String, decoded: Result<String, FromUtf8Error>) -> (result: Result<
        DirectoryChange,
        FailedToSetWorkingDirectory,
    >)
        ensures
            match decoded {
                Ok(target) => result == Ok::<DirectoryChange, FailedToSetWorkingDirectory>(
                    DirectoryChange { encoded, decoded: target },
                ),
                Err(_) => result is Err && result->Err_0.path() == encoded@,
            },
    {
        match decoded {
            Ok(target) => Ok(DirectoryChange { encoded, decoded: target }),
            Err(_) => Err(FailedToSetWorkingDirectory { path: encoded }),
        }
    }

    /// What the change came to. `changed` says whether the operating system
    /// made it. Where it did not, the failure names the path as the host
    /// gave it, whatever the system's own reason was.
    pub fn finish(self, changed: bool) -> (result: Result<(), FailedToSetWorkingDirectory>)
        ensures
            changed ==> result is Ok,
            !changed ==> result is Err && result->Err_0.path() == self.encoded@,
    {
        if changed {
            Ok(())
        } else {
            Err(FailedToSetWorkingDirectory { path: self.encoded })
        }
    }
}

/// Begins to set the working directory to `path`, a percent-encoded path.
/// A path with a percent sign that begins no escape is refused. Any other
/// path is decoded: one that decodes gives the change to ask of the operating
/// system, one that does not is refused too. Every failure names the path as
/// it was given. A path without a percent sign decodes to itself.
pub fn set_working_directory(path: String) -> (result: Result<
    DirectoryChange,
    FailedToSetWorkingDirectory,
>)
    ensures
        !escapes_well_formed(path@) ==> result is Err && result->Err_0.path() == path@,
        escapes_well_formed(path@) ==> match percent_decoded(path@) {
            Some(target) => result is Ok && result->Ok_0.encoded == path
                && result->Ok_0.decoded@ == target,
            None => result is Err && result->Err_0.path() == path@,
        },
        has_no_escape(path@) ==> result is Ok && result->Ok_0.decoded@ == path@,
{
    if !has_well_formed_escapes(path.as_str()) {
        return Err(FailedToSetWorkingDirectory { path });
    }
    let decoded = percent_decode(path.as_str());
    DirectoryChange::decoded_as(path, decoded)
}

/// What the operating system answered when asked for the working directory.
#[derive(Debug)]
pub enum DirectoryLookup {
    /// The directory, its path being valid text.
    Found(String),
    /// A directory whose path is not valid text.
    NotText,
    /// No directory, and the system's reason.
    Failed(String),
}

/// What the answer `lookup` means for the host: the path, or a failure with
/// its reason.
pub fn get_working_directory(lookup: DirectoryLookup) -> (result: Result<
    String,
    FailedToGetWorkingDirectory,
>)
    ensures
        match lookup {
            DirectoryLookup::Found(path) => result == Ok::<String, FailedToGetWorkingDirectory>(
                path,
            ),
            DirectoryLookup::NotText => result is Err && result->Err_0.reason()
                == NOT_TEXT_REASON@,
            DirectoryLookup::Failed(reason) => result is Err && result->Err_0.reason() == reason@,
        },
{
    match lookup {
        DirectoryLookup::Found(path) => Ok(path),
        DirectoryLookup::NotText => Err(
            FailedToGetWorkingDirectory { error: String::from_str(NOT_TEXT_REASON) },
        ),
        DirectoryLookup::Failed(reason) => Err(FailedToGetWorkingDirectory { error: reason }),
    }
}

} // verus!
