//! The error-reporting policy: how a recoverable failure is surfaced.

use vstd::prelude::*;
use vstd::string::StrSliceExecFns;

verus! {

/// How a recoverable error is surfaced to the user: suppressed entirely,
/// written as a plain text line to standard error, or written as a JSON
/// envelope to standard output.
#[derive(Clone, Copy, Debug, PartialEq, Eq, Structural)]
pub enum ErrorStyle {
    Silent,
    Stderr,
    Json,
}

/// Returned by [`ErrorStyle::from_str`] when the input is none of the three
/// recognised style names.
#[derive(Clone, Copy, Debug, PartialEq, Eq, Structural)]
pub struct StyleError;

/// The canonical name of each style: the exact string it parses from and
/// renders to.
pub open spec fn style_name(style: ErrorStyle) -> Seq<char> {
    match style {
        ErrorStyle::Silent => "silent"@,
        ErrorStyle::Stderr => "stderr"@,
        ErrorStyle::Json => "json"@,
    }
}

/// Which style, if any, a string selects (case-sensitive).
pub open spec fn style_of(s: Seq<char>) -> Option<ErrorStyle> {
    if s == "silent"@ {
        Some(ErrorStyle::Silent)
    } else if s == "stderr"@ {
        Some(ErrorStyle::Stderr)
    } else if s == "json"@ {
        Some(ErrorStyle::Json)
    } else {
        None
    }
}

/// Character-for-character equality of two string slices.
pub fn str_eq(a: &str, b: &str) -> (r: bool)
    ensures
        r == (a@ == b@),
{
    let la = a.unicode_len();
    let lb = b.unicode_len();
    if la != lb {
        return false;
    }
    let mut i: usize = 0;
    while i < la
        invariant
            la == a@.len(),
            la == b@.len(),
            i <= la,
            forall|j: int| 0 <= j < i ==> a@[j] == b@[j],
        decreases la - i,
    {
        if a.get_char(i) != b.get_char(i) {
            return false;
        }
        i = i + 1;
    }
    proof {
        assert(a@ =~= b@);
    }
    true
}

impl ErrorStyle {
    /// Parses one of the three style names; any other input is rejected.
    pub fn from_str(s: &str) -> (r: Result<ErrorStyle, StyleError>)
        ensures
            r matches Ok(style) ==> style_of(s@) == Some(style),
            r is Err ==> style_of(s@) is None,
    {
        if str_eq(s, "silent") {
            Ok(ErrorStyle::Silent)
        } else if str_eq(s, "stderr") {
            Ok(ErrorStyle::Stderr)
        } else if str_eq(s, "json") {
            Ok(ErrorStyle::Json)
        } else {
            Err(StyleError)
        }
    }

    /// Renders the style back to its canonical name.
    pub fn as_str(&self) -> (r: &'static str)
        ensures
            r@ == style_name(*self),
    {
        match self {
            ErrorStyle::Silent => "silent",
            ErrorStyle::Stderr => "stderr",
            ErrorStyle::Json => "json",
        }
    }
}

} // verus!
