//! The ways in which the analysis of a binary fails before a call graph can
//! be built. None of them is recovered from: reading the same input again
//! would fail again.

use vstd::prelude::*;
use vstd::string::StringExecFns;

verus! {

/// Why an analysis was given up.
#[derive(Debug)]
pub enum ErrorKind {
    /// The binary needs something that the analysis does not implement; the
    /// text names it.
    NotSupported(String),
    /// The debug information or the binary could not be parsed; the text
    /// says why.
    ParseError(String),
    /// The file at this path could not be read correctly.
    ReadError(String),
    /// The binary at this path could not be found.
    IOError(String),
    /// The configuration file at this path could not be loaded; the second
    /// text, where there is one, says why.
    ConfigLoad(String, Option<String>),
}

pub enum ErrorKindView {
    NotSupported(Seq<char>),
    ParseError(Seq<char>),
    ReadError(Seq<char>),
    IOError(Seq<char>),
    ConfigLoad(Seq<char>, Option<Seq<char>>),
}

impl View for ErrorKind {
    type V = ErrorKindView;

    open spec fn view(&self) -> ErrorKindView {
        match self {
            ErrorKind::NotSupported(functionality) => ErrorKindView::NotSupported(functionality@),
            ErrorKind::ParseError(reason) => ErrorKindView::ParseError(reason@),
            ErrorKind::ReadError(path) => ErrorKindView::ReadError(path@),
            ErrorKind::IOError(path) => ErrorKindView::IOError(path@),
            ErrorKind::ConfigLoad(path, reason) => ErrorKindView::ConfigLoad(
                path@,
                match reason {
                    Some(r) => Some(r@),
                    None => None,
                },
            ),
        }
    }
}

impl ErrorKindView {
    /// The kind of failure in a few words.
    pub open spec fn description(self) -> Seq<char> {
        match self {
            ErrorKindView::NotSupported(_) => "A binary was passed that requires unimplemented functionality."@,
            ErrorKindView::ParseError(_) => "A file could not be parsed correctly."@,
            ErrorKindView::ReadError(_) => "A file could not be read correctly."@,
            ErrorKindView::IOError(_) => "Binary file not found."@,
            ErrorKindView::ConfigLoad(_, _) => "Config file not found"@,
        }
    }

    /// The failure in a sentence for the user.
    pub open spec fn message(self) -> Seq<char> {
        match self {
            ErrorKindView::NotSupported(functionality) => "Analysis aborted: binary contains "@
                + functionality + ", which is not supported. "@,
            ErrorKindView::ParseError(reason) => "Unable to parse file: "@ + reason,
            ErrorKindView::ReadError(path) => "Unable to read file `"@ + path + "`"@,
            ErrorKindView::IOError(path) => "File not found `"@ + path + "`"@,
            ErrorKindView::ConfigLoad(path, reason) => match reason {
                Some(r) => "Unable to read config file `"@ + path + "`"@ + ": "@ + r,
                None => "Unable to read config file `"@ + path + "`"@,
            },
        }
    }
}

impl ErrorKind {
    /// The kind of failure in a few words.
    pub fn description(&self) -> (text: &'static str)
        ensures
            text@ == self@.description(),
    {
        match self {
            ErrorKind::NotSupported(_) => "A binary was passed that requires unimplemented functionality.",
            ErrorKind::ParseError(_) => "A file could not be parsed correctly.",
            ErrorKind::ReadError(_) => "A file could not be read correctly.",
            ErrorKind::IOError(_) => "Binary file not found.",
            ErrorKind::ConfigLoad(_, _) => "Config file not found",
        }
    }

    /// The failure in a sentence for the user.
    pub fn message(&self) -> (text: String)
        ensures
            text@ == self@.message(),
    {
        match self {
            ErrorKind::NotSupported(functionality) => {
                let mut text = String::from_str("Analysis aborted: binary contains ");
                text.append(functionality.as_str());
                text.append(", which is not supported. ");
                text
            },
            ErrorKind::ParseError(reason) => {
                let mut text = String::from_str("Unable to parse file: ");
                text.append(reason.as_str());
                text
            },
            ErrorKind::ReadError(path) => {
                let mut text = String::from_str("Unable to read file `");
                text.append(path.as_str());
                text.append("`");
                text
            },
            ErrorKind::IOError(path) => {
                let mut text = String::from_str("File not found `");
                text.append(path.as_str());
                text.append("`");
                text
            },
            ErrorKind::ConfigLoad(path, reason) => {
                let mut text = String::from_str("Unable to read config file `");
                text.append(path.as_str());
                text.append("`");
                match reason {
                    Some(r) => {
                        text.append(": ");
                        text.append(r.as_str());
                    },
                    None => {},
                }
                text
            },
        }
    }
}

} // verus!
