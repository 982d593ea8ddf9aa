//! Failures of a biometric request.

use vstd::prelude::*;
use vstd::string::StringExecFns;
use crate::models::text;

verus! {

/// What went wrong, as far as a caller needs to tell the cases apart.
#[derive(Clone, Copy, Debug, PartialEq, Eq, Structural)]
pub enum ErrorKind {
    /// The boundary call itself failed, or the native side refused the
    /// request for a reason that has no kind of its own.
    Transport,
    /// There is no biometric hardware.
    NotAvailable,
    /// The hardware is there, but nothing is enrolled.
    NotEnrolled,
    /// The user tried and was not recognised.
    AuthenticationFailed,
    /// The user dismissed the prompt.
    UserCancelled,
    /// Too many failed attempts; the platform imposes a cooldown.
    Locked,
}

/// A failure as the native side reports it: an optional machine-readable
/// code and an optional message. A failure of the boundary itself has no code.
#[derive(Clone, Debug)]
pub struct NativeError {
    pub code: Option<String>,
    pub message: Option<String>,
}

/// Mathematical content of a [`NativeError`].
pub ghost struct NativeErrorView {
    pub code: Option<Seq<char>>,
    pub message: Option<Seq<char>>,
}

impl View for NativeError {
    type V = NativeErrorView;

    open spec fn view(&self) -> NativeErrorView {
        NativeErrorView { code: text(self.code), message: text(self.message) }
    }
}

/// A failed request: its kind, with the native code and message kept as
/// they came, for diagnostics.
#[derive(Clone, Debug)]
pub struct Error {
    pub kind: ErrorKind,
    pub code: Option<String>,
    pub message: Option<String>,
}

/// Mathematical content of an [`Error`].
pub ghost struct ErrorView {
    pub kind: ErrorKind,
    pub code: Option<Seq<char>>,
    pub message: Option<Seq<char>>,
}

impl View for Error {
    type V = ErrorView;

    open spec fn view(&self) -> ErrorView {
        ErrorView { kind: self.kind, code: text(self.code), message: text(self.message) }
    }
}

impl ErrorKind {
    /// The kind that a native code stands for. Codes are compared exactly;
    /// an absent or unknown code is a transport failure.
    pub open spec fn of_code(code: Option<Seq<char>>) -> ErrorKind {
        match code {
            None => ErrorKind::Transport,
            Some(c) => if c == "biometryNotAvailable"@ {
                ErrorKind::NotAvailable
            } else if c == "biometryNotEnrolled"@ {
                ErrorKind::NotEnrolled
            } else if c == "authenticationFailed"@ {
                ErrorKind::AuthenticationFailed
            } else if c == "userCancel"@ {
                ErrorKind::UserCancelled
            } else if c == "biometryLockout"@ {
                ErrorKind::Locked
            } else {
                ErrorKind::Transport
            },
        }
    }

    /// Classifies a native code.
    pub fn from_code(code: &Option<String>) -> (kind: ErrorKind)
        ensures
            kind == ErrorKind::of_code(text(*code)),
    {
        match code {
            None => ErrorKind::Transport,
            Some(c) => {
                if same_text(c, "biometryNotAvailable") {
                    ErrorKind::NotAvailable
                } else if same_text(c, "biometryNotEnrolled") {
                    ErrorKind::NotEnrolled
                } else if same_text(c, "authenticationFailed") {
                    ErrorKind::AuthenticationFailed
                } else if same_text(c, "userCancel") {
                    ErrorKind::UserCancelled
                } else if same_text(c, "biometryLockout") {
                    ErrorKind::Locked
                } else {
                    ErrorKind::Transport
                }
            },
        }
    }
}

/// Whether a string holds exactly the given text.
fn same_text(s: &String, literal: &str) -> (r: bool)
    ensures
        r == (s@ == literal@),
{
    let owned = String::from_str(literal);
    *s == owned
}

impl ErrorView {
    /// The error that a native failure becomes: classified by its code, with
    /// code and message unchanged.
    pub open spec fn of_native(e: NativeErrorView) -> ErrorView {
        ErrorView { kind: ErrorKind::of_code(e.code), code: e.code, message: e.message }
    }

    /// The error for a response of the wrong shape.
    pub open spec fn malformed_response() -> ErrorView {
        ErrorView { kind: ErrorKind::Transport, code: None, message: None }
    }
}

impl Error {
    /// Turns a native failure into a typed error.
    pub fn from_native(e: NativeError) -> (r: Error)
        ensures
            r@ == ErrorView::of_native(e@),
    {
        let kind = ErrorKind::from_code(&e.code);
        Error { kind, code: e.code, message: e.message }
    }

    /// The error for a response of the wrong shape.
    pub fn malformed_response() -> (r: Error)
        ensures
            r@ == ErrorView::malformed_response(),
    {
        Error { kind: ErrorKind::Transport, code: None, message: None }
    }
}

} // verus!
