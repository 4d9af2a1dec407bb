//! What can go wrong during a run, and how it is reported.

use vstd::prelude::*;
use crate::text::prefixed;

verus! {

/// The four kinds of failure. Each of them ends the run.
#[derive(Clone, Copy, Debug, PartialEq, Eq, Structural)]
pub enum ErrorKind {
    /// The manifest is missing, unreadable or malformed.
    ConfigError,
    /// A URL cannot be resolved or has no usable shape.
    UrlError,
    /// A path is not text, or a directory is missing.
    PathError,
    /// An external tool was not found, failed, or its output broke off.
    ExternalToolError,
}

/// A failure, with what is known of its cause.
#[derive(Debug, PartialEq, Eq)]
pub enum Error {
    /// No executable of this name was found: the name, then the reason.
    WhichError(String, String),
    /// Input or output failed while an external tool was at work.
    IOError(String),
    /// The manifest file could not be opened or read.
    ManifestError(String),
    /// The manifest does not fit its schema.
    YamlError(String),
    /// A text was refused as a URL: the reason the URL parser gave.
    UrlParseError(String),
    /// A URL was parsed but cannot be used here: the whole message.
    UrlError(String),
    /// A path cannot be used here: the whole message.
    PathError(String),
}

/// An [`Error`] with its texts as sequences of characters.
pub enum ErrorView {
    WhichError(Seq<char>, Seq<char>),
    IOError(Seq<char>),
    ManifestError(Seq<char>),
    YamlError(Seq<char>),
    UrlParseError(Seq<char>),
    UrlError(Seq<char>),
    PathError(Seq<char>),
}

impl View for Error {
    type V = ErrorView;

    open spec fn view(&self) -> ErrorView {
        match self {
            Error::WhichError(name, reason) => ErrorView::WhichError(name@, reason@),
            Error::IOError(reason) => ErrorView::IOError(reason@),
            Error::ManifestError(reason) => ErrorView::ManifestError(reason@),
            Error::YamlError(reason) => ErrorView::YamlError(reason@),
            Error::UrlParseError(reason) => ErrorView::UrlParseError(reason@),
            Error::UrlError(message) => ErrorView::UrlError(message@),
            Error::PathError(message) => ErrorView::PathError(message@),
        }
    }
}

impl DeepView for Error {
    type V = ErrorView;

    open spec fn deep_view(&self) -> ErrorView {
        self@
    }
}

/// An outcome with its texts as sequences of characters.
pub open spec fn viewed<T: View>(outcome: Result<T, Error>) -> Result<T::V, ErrorView> {
    match outcome {
        Ok(value) => Ok(value@),
        Err(e) => Err(e@),
    }
}

/// Whether `outcome` is a failure of the kind `kind`.
pub open spec fn fails_with<T>(outcome: Result<T, ErrorView>, kind: ErrorKind) -> bool {
    match outcome {
        Ok(_) => false,
        Err(e) => e.kind() == kind,
    }
}

impl ErrorView {
    /// The kind of failure that this error reports.
    pub open spec fn kind(self) -> ErrorKind {
        match self {
            ErrorView::WhichError(_, _) => ErrorKind::ExternalToolError,
            ErrorView::IOError(_) => ErrorKind::ExternalToolError,
            ErrorView::ManifestError(_) => ErrorKind::ConfigError,
            ErrorView::YamlError(_) => ErrorKind::ConfigError,
            ErrorView::UrlParseError(_) => ErrorKind::UrlError,
            ErrorView::UrlError(_) => ErrorKind::UrlError,
            ErrorView::PathError(_) => ErrorKind::PathError,
        }
    }

    /// The line that is shown to the user.
    pub open spec fn message(self) -> Seq<char> {
        match self {
            ErrorView::WhichError(name, reason) => "Error finding the '"@ + name
                + "' command: "@ + reason,
            ErrorView::IOError(reason) => "I/O error: "@ + reason,
            ErrorView::ManifestError(reason) => "I/O error: "@ + reason,
            ErrorView::YamlError(reason) => "YAML error: "@ + reason,
            ErrorView::UrlParseError(reason) => "URL parse error: "@ + reason,
            ErrorView::UrlError(message) => message,
            ErrorView::PathError(message) => message,
        }
    }
}

impl Error {
    /// The kind of failure that this error reports.
    pub fn kind(&self) -> (kind: ErrorKind)
        ensures
            kind == self@.kind(),
    {
        match self {
            Error::WhichError(_, _) => ErrorKind::ExternalToolError,
            Error::IOError(_) => ErrorKind::ExternalToolError,
            Error::ManifestError(_) => ErrorKind::ConfigError,
            Error::YamlError(_) => ErrorKind::ConfigError,
            Error::UrlParseError(_) => ErrorKind::UrlError,
            Error::UrlError(_) => ErrorKind::UrlError,
            Error::PathError(_) => ErrorKind::PathError,
        }
    }

    /// The line that is shown to the user.
    pub fn message(&self) -> (text: String)
        ensures
            text@ == self@.message(),
    {
        match self {
            Error::WhichError(name, reason) => {
                let mut text = prefixed("Error finding the '", name.as_str());
                text.append("' command: ");
                text.append(reason.as_str());
                text
            },
            Error::IOError(reason) => prefixed("I/O error: ", reason.as_str()),
            Error::ManifestError(reason) => prefixed("I/O error: ", reason.as_str()),
            Error::YamlError(reason) => prefixed("YAML error: ", reason.as_str()),
            Error::UrlParseError(reason) => prefixed("URL parse error: ", reason.as_str()),
            Error::UrlError(message) => message.clone(),
            Error::PathError(message) => message.clone(),
        }
    }

    /// A second error with the same content.
    pub fn duplicate(&self) -> (copy: Error)
        ensures
            copy == *self,
    {
        match self {
            Error::WhichError(name, reason) => Error::WhichError(name.clone(), reason.clone()),
            Error::IOError(reason) => Error::IOError(reason.clone()),
            Error::ManifestError(reason) => Error::ManifestError(reason.clone()),
            Error::YamlError(reason) => Error::YamlError(reason.clone()),
            Error::UrlParseError(reason) => Error::UrlParseError(reason.clone()),
            Error::UrlError(message) => Error::UrlError(message.clone()),
            Error::PathError(message) => Error::PathError(message.clone()),
        }
    }
}

} // verus!
