//! The error printer: formats and records a displayable error according to
//! the active style.
//!
//! The printer owns the process's two output streams, modelled as the text
//! accumulated for each.  The binary around the library flushes newly
//! appended text to the real streams after each call, so the fields hold, in
//! order, exactly the bytes the process writes.

use vstd::prelude::*;
use vstd::string::StringExecFns;
use crate::style::ErrorStyle;

verus! {

/// The JSON envelope that carries an error message on standard output under
/// the Json style.  The message text is embedded verbatim: no JSON string
/// escaping is applied, so a message that itself contains a quote or a
/// newline yields an envelope that is not valid JSON.
pub open spec fn envelope(pretty: bool, msg: Seq<char>) -> Seq<char> {
    if pretty {
        "{\n  \"yaml-error\": \""@ + msg + "\"\n}\n"@
    } else {
        "{\"yaml-error\":\""@ + msg + "\"}\n"@
    }
}

/// The text one `print` call appends to standard output.
pub open spec fn printed_to_stdout(style: ErrorStyle, pretty: bool, msg: Seq<char>) -> Seq<char> {
    if style is Json {
        envelope(pretty, msg)
    } else {
        Seq::<char>::empty()
    }
}

/// The text one `print` call appends to standard error.
pub open spec fn printed_to_stderr(style: ErrorStyle, msg: Seq<char>) -> Seq<char> {
    if style is Stderr {
        msg + "\n"@
    } else {
        Seq::<char>::empty()
    }
}

/// Formats and records displayable errors according to the active style.
/// `stdout` and `stderr` hold the text destined for the process's standard
/// output and standard error.
pub struct ErrorPrinter {
    /// The active error style, fixed at construction.
    pub style: ErrorStyle,
    /// Whether JSON output (and so the JSON error envelope) is pretty-printed.
    pub pretty: bool,
    /// The text written to standard output so far.
    pub stdout: String,
    /// The text written to standard error so far.
    pub stderr: String,
}

impl ErrorPrinter {
    /// A fresh printer with the given policy and empty output.
    pub fn new(style: ErrorStyle, pretty: bool) -> (p: ErrorPrinter)
        ensures
            p.style == style,
            p.pretty == pretty,
            p.stdout@ == Seq::<char>::empty(),
            p.stderr@ == Seq::<char>::empty(),
    {
        ErrorPrinter { style, pretty, stdout: String::new(), stderr: String::new() }
    }

    /// Surfaces one error message according to the style: not at all, as a
    /// plain line on standard error, or as a JSON envelope on standard
    /// output.
    pub fn print(&mut self, msg: &str)
        ensures
            final(self).style == old(self).style,
            final(self).pretty == old(self).pretty,
            final(self).stdout@ == old(self).stdout@ + printed_to_stdout(
                old(self).style,
                old(self).pretty,
                msg@,
            ),
            final(self).stderr@ == old(self).stderr@ + printed_to_stderr(old(self).style, msg@),
    {
        match self.style {
            ErrorStyle::Silent => {
                proof {
                    assert(self.stdout@ =~= old(self).stdout@ + Seq::<char>::empty());
                    assert(self.stderr@ =~= old(self).stderr@ + Seq::<char>::empty());
                }
            }
            ErrorStyle::Stderr => {
                self.stderr.append(msg);
                self.stderr.append("\n");
                proof {
                    assert(self.stdout@ =~= old(self).stdout@ + Seq::<char>::empty());
                    assert(self.stderr@ =~= old(self).stderr@ + (msg@ + "\n"@));
                }
            }
            ErrorStyle::Json => {
                if self.pretty {
                    self.stdout.append("{\n  \"yaml-error\": \"");
                    self.stdout.append(msg);
                    self.stdout.append("\"\n}\n");
                    proof {
                        assert(self.stdout@ =~= old(self).stdout@ + ("{\n  \"yaml-error\": \""@
                            + msg@ + "\"\n}\n"@));
                    }
                } else {
                    self.stdout.append("{\"yaml-error\":\"");
                    self.stdout.append(msg);
                    self.stdout.append("\"}\n");
                    proof {
                        assert(self.stdout@ =~= old(self).stdout@ + ("{\"yaml-error\":\""@ + msg@
                            + "\"}\n"@));
                    }
                }
                proof {
                    assert(self.stderr@ =~= old(self).stderr@ + Seq::<char>::empty());
                }
            }
        }
    }
}

} // verus!
