//! Checks on what a user hands in: links, list files and file types, and
//! the status a remote side answered with.

use vstd::prelude::*;
use crate::text::{joined, ends_with, has_suffix};

verus! {

/// Whether `is_url::is_url` finds the shape of a link in a text. The crate
/// searches the text with one fixed pattern, so the answer depends on the
/// text alone.
pub uninterp spec fn is_url_shaped(text: Seq<char>) -> bool;

/// Calls `is_url::is_url`. The contract claims only that the call returns
/// what the crate's pattern decides for this text.
#[verifier::external_body]
fn url_shaped(text: &str) -> (shaped: bool)
    ensures
        shaped == is_url_shaped(text@),
{
    is_url::is_url(text)
}

/// What is wrong with a rejected input.
#[derive(Clone, Copy, Debug, PartialEq, Eq, Structural)]
pub enum ErrorKind {
    InvalidInput,
    NotFound,
    InvalidData,
}

/// A rejected input: the kind of fault and a sentence for the user.
#[derive(Clone, Debug, PartialEq, Eq)]
pub struct ValidationError {
    pub kind: ErrorKind,
    pub message: String,
}

/// The mathematical content of a `ValidationError`.
pub struct ValidationErrorView {
    pub kind: ErrorKind,
    pub message: Seq<char>,
}

impl View for ValidationError {
    type V = ValidationErrorView;

    open spec fn view(&self) -> ValidationErrorView {
        ValidationErrorView { kind: self.kind, message: self.message@ }
    }
}

/// The mathematical content of a verdict.
pub open spec fn verdict_of(verdict: Result<(), ValidationError>) -> Result<
    (),
    ValidationErrorView,
> {
    match verdict {
        Ok(()) => Ok(()),
        Err(error) => Err(error@),
    }
}

/// The verdict on a link: accepted where it has the shape of one.
pub open spec fn url_verdict(url: Seq<char>) -> Result<(), ValidationErrorView> {
    if is_url_shaped(url) {
        Ok(())
    } else {
        Err(
            ValidationErrorView {
                kind: ErrorKind::InvalidInput,
                message: "The url "@ + url + " is not a valid"@,
            },
        )
    }
}

/// The verdict on a list file: it has to exist, and then to be a `.txt`.
pub open spec fn file_verdict(file: Seq<char>, exists: bool) -> Result<(), ValidationErrorView> {
    if !exists {
        Err(
            ValidationErrorView {
                kind: ErrorKind::NotFound,
                message: "The file "@ + file + " does not exist."@,
            },
        )
    } else if !ends_with(file, ".txt"@) {
        Err(
            ValidationErrorView {
                kind: ErrorKind::InvalidData,
                message: "The file "@ + file + " is not a .txt"@,
            },
        )
    } else {
        Ok(())
    }
}

/// The verdict on a file's type: its name has to end with the type.
pub open spec fn file_type_verdict(file: Seq<char>, file_type: Seq<char>) -> Result<
    (),
    ValidationErrorView,
> {
    if ends_with(file, file_type) {
        Ok(())
    } else {
        Err(
            ValidationErrorView {
                kind: ErrorKind::InvalidData,
                message: "The file "@ + file + " is not a "@ + file_type,
            },
        )
    }
}

/// The verdict on a remote status: only 200 passes; any other is reported
/// with the status line that came with it.
pub open spec fn status_verdict(status: u16, status_line: Seq<char>) -> Result<(), Seq<char>> {
    if status == 200 {
        Ok(())
    } else {
        Err("Received a non-200 status: "@ + status_line)
    }
}

/// Input validation.
pub struct Validate;

impl Validate {
    /// Accepts `url_line` where it has the shape of a link.
    pub fn validate_url(url_line: &str) -> (verdict: Result<(), ValidationError>)
        ensures
            verdict_of(verdict) == url_verdict(url_line@),
    {
        if !url_shaped(url_line) {
            let mut message = joined("The url ", url_line);
            message.append(" is not a valid");
            return Err(ValidationError { kind: ErrorKind::InvalidInput, message });
        }
        Ok(())
    }

    /// Accepts the list file named `file`, given whether it exists: it has
    /// to exist and its name has to end with `.txt`.
    pub fn validate_file(file: &str, exists: bool) -> (verdict: Result<(), ValidationError>)
        ensures
            verdict_of(verdict) == file_verdict(file@, exists),
    {
        if !exists {
            let mut message = joined("The file ", file);
            message.append(" does not exist.");
            return Err(ValidationError { kind: ErrorKind::NotFound, message });
        }
        if !has_suffix(file, ".txt") {
            let mut message = joined("The file ", file);
            message.append(" is not a .txt");
            return Err(ValidationError { kind: ErrorKind::InvalidData, message });
        }
        Ok(())
    }

    /// Accepts `file` where its name ends with `file_type`.
    pub fn validate_file_type(file: &str, file_type: &str) -> (verdict: Result<
        (),
        ValidationError,
    >)
        ensures
            verdict_of(verdict) == file_type_verdict(file@, file_type@),
    {
        if !has_suffix(file, file_type) {
            let mut message = joined("The file ", file);
            message.append(" is not a ");
            message.append(file_type);
            return Err(ValidationError { kind: ErrorKind::InvalidData, message });
        }
        Ok(())
    }

    /// Accepts the answer of a remote side by its status code; `status_line`
    /// is the status as the remote side worded it.
    pub fn check_url_status(status: u16, status_line: &str) -> (verdict: Result<(), String>)
        ensures
            match verdict {
                Ok(()) => status_verdict(status, status_line@) == Ok::<(), Seq<char>>(()),
                Err(text) => status_verdict(status, status_line@) == Err::<(), Seq<char>>(text@),
            },
    {
        if status == 200 {
            Ok(())
        } else {
            Err(joined("Received a non-200 status: ", status_line))
        }
    }
}

} // verus!
