//! The source dispatcher's per-path decisions.
//!
//! The dispatcher walks the supplied paths in argument order, or falls back
//! to standard input when none is given.  Probing the filesystem is the
//! binary's work; the outcome of a probe comes back as a [`PathProbe`] and
//! the library decides the exact message such a failure puts through the
//! error printer.  A failed path is reported and skipped; it never ends the
//! run.

use vstd::prelude::*;
use vstd::string::StringExecFns;
use crate::printer::{printed_to_stderr, printed_to_stdout, ErrorPrinter};

verus! {

/// Why one supplied path yields no document sequence: the path does not
/// exist, names a directory, or failed to open (with the failure's display
/// text).
pub enum PathProbe {
    Missing,
    Directory,
    OpenFailed(String),
}

/// The message reported for a failed path: the path followed by what is
/// wrong with it, or the open failure's own text.
pub open spec fn path_message(path: Seq<char>, probe: PathProbe) -> Seq<char> {
    match probe {
        PathProbe::Missing => path + " does not exist"@,
        PathProbe::Directory => path + " is a directory"@,
        PathProbe::OpenFailed(e) => e@,
    }
}

/// Builds the message reported for a failed path.
pub fn path_error_message(path: &str, probe: &PathProbe) -> (m: String)
    ensures
        m@ == path_message(path@, *probe),
{
    match probe {
        PathProbe::Missing => {
            let mut m = String::new();
            m.append(path);
            m.append(" does not exist");
            proof {
                assert(m@ =~= path@ + " does not exist"@);
            }
            m
        }
        PathProbe::Directory => {
            let mut m = String::new();
            m.append(path);
            m.append(" is a directory");
            proof {
                assert(m@ =~= path@ + " is a directory"@);
            }
            m
        }
        PathProbe::OpenFailed(e) => e.clone(),
    }
}

/// Reports one failed path through the error printer and leaves the run to
/// go on with the next source.
pub fn report_path_failure(ep: &mut ErrorPrinter, path: &str, probe: &PathProbe)
    ensures
        final(ep).style == old(ep).style,
        final(ep).pretty == old(ep).pretty,
        final(ep).stdout@ == old(ep).stdout@ + printed_to_stdout(
            old(ep).style,
            old(ep).pretty,
            path_message(path@, *probe),
        ),
        final(ep).stderr@ == old(ep).stderr@ + printed_to_stderr(
            old(ep).style,
            path_message(path@, *probe),
        ),
{
    let m = path_error_message(path, probe);
    ep.print(m.as_str());
}

} // verus!
