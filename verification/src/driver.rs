//! The conversion driver: consumes one input's document sequence, converts
//! each document, routes failures to the error printer, and keeps the
//! newline bookkeeping between consecutive outputs.
//!
//! The document sequence is pulled from the splitter by the binary around
//! the library, one item at a time, and handed in as [`DocItem`] events;
//! [`Driver::step`] takes the decision for one item and [`Driver::finish`]
//! closes the sequence.  [`drive`] runs a whole, already collected sequence.
//! The spec functions `run_stdout`, `run_stderr` and `run_fatal` give, for
//! every item sequence, exactly the text a run appends to each stream and
//! whether it ends in a fatal termination.

use vstd::prelude::*;
use vstd::seq_lib::*;
use vstd::string::StringExecFns;
use crate::convert::{convert_document, convert_result};
use crate::printer::{printed_to_stdout, printed_to_stderr, ErrorPrinter};
use crate::style::ErrorStyle;

verus! {

/// One item of an input's document sequence: a successfully delimited YAML
/// document, or the splitter's terminal IO failure, which ends the whole
/// run.
pub enum DocItem {
    Doc(String),
    IoFail,
}

impl View for DocItem {
    type V = Option<Seq<char>>;

    /// A delimited document is its text; the terminal IO failure is `None`.
    open spec fn view(&self) -> Option<Seq<char>> {
        match self {
            DocItem::Doc(s) => Some(s@),
            DocItem::IoFail => None,
        }
    }
}

/// The views of a collected item sequence.
pub open spec fn item_views(items: Seq<DocItem>) -> Seq<Option<Seq<char>>> {
    items.map_values(|d: DocItem| d@)
}

/// The separator the driver owes before the next item: one newline exactly
/// when the previous document produced output.
pub open spec fn sep_text(printed_last: bool) -> Seq<char> {
    if printed_last {
        "\n"@
    } else {
        Seq::<char>::empty()
    }
}

/// The text one item itself puts on standard output, separator aside: the
/// converted JSON on success, the printer's share on a conversion failure,
/// nothing for the terminal IO failure.
pub open spec fn item_stdout(style: ErrorStyle, pretty: bool, item: Option<Seq<char>>) -> Seq<
    char,
> {
    match item {
        Some(doc) => match convert_result(pretty, doc) {
            Ok(json) => json,
            Err(msg) => printed_to_stdout(style, pretty, msg),
        },
        None => Seq::<char>::empty(),
    }
}

/// The text one item puts on standard error.
pub open spec fn item_stderr(style: ErrorStyle, pretty: bool, item: Option<Seq<char>>) -> Seq<
    char,
> {
    match item {
        Some(doc) => match convert_result(pretty, doc) {
            Ok(json) => Seq::<char>::empty(),
            Err(msg) => printed_to_stderr(style, msg),
        },
        None => Seq::<char>::empty(),
    }
}

/// Whether this item leaves output as the immediately preceding text on
/// standard output: true exactly for a successfully converted document.
pub open spec fn item_printed(pretty: bool, item: Option<Seq<char>>) -> bool {
    match item {
        Some(doc) => convert_result(pretty, doc) is Ok,
        None => false,
    }
}

/// The whole text a driver run over `items` appends to standard output,
/// starting with `printed_last` owed from before: each item is preceded by
/// its separator, a terminal IO failure stops the run at once, and an
/// exhausted sequence is closed by a trailing newline when its last document
/// produced output.
pub open spec fn run_stdout(
    style: ErrorStyle,
    pretty: bool,
    items: Seq<Option<Seq<char>>>,
    printed_last: bool,
) -> Seq<char>
    decreases items.len(),
{
    if items.len() == 0 {
        sep_text(printed_last)
    } else {
        sep_text(printed_last) + item_stdout(style, pretty, items[0]) + (if items[0] is None {
            Seq::<char>::empty()
        } else {
            run_stdout(style, pretty, items.drop_first(), item_printed(pretty, items[0]))
        })
    }
}

/// The whole text a driver run over `items` appends to standard error: the
/// failed documents' lines under the Stderr style, nothing else; a terminal
/// IO failure stops the run.
pub open spec fn run_stderr(style: ErrorStyle, pretty: bool, items: Seq<Option<Seq<char>>>) -> Seq<
    char,
>
    decreases items.len(),
{
    if items.len() == 0 {
        Seq::<char>::empty()
    } else {
        item_stderr(style, pretty, items[0]) + (if items[0] is None {
            Seq::<char>::empty()
        } else {
            run_stderr(style, pretty, items.drop_first())
        })
    }
}

/// Whether a run over `items` ends in the fatal termination: exactly when
/// the sequence holds a terminal IO failure.
pub open spec fn run_fatal(items: Seq<Option<Seq<char>>>) -> bool {
    exists|i: int| 0 <= i < items.len() && items[i] is None
}

/// The per-invocation state of the conversion driver: whether the
/// immediately preceding document produced output on standard output.
pub struct Driver {
    /// True exactly when the previous item put a document's JSON on standard
    /// output, so that a separating newline is owed before the next item.
    pub printed_last: bool,
}

impl Driver {
    /// A fresh driver at the start of one input's sequence: no separator
    /// owed.
    pub fn new() -> (d: Driver)
        ensures
            !d.printed_last,
    {
        Driver { printed_last: false }
    }

    /// Handles one item of the sequence: writes the owed separator, then
    /// converts the document and routes a failure to the printer, or reports
    /// the terminal IO failure by returning true, upon which the caller must
    /// end the whole run at once.
    pub fn step(&mut self, ep: &mut ErrorPrinter, item: &DocItem) -> (fatal: bool)
        ensures
            final(ep).style == old(ep).style,
            final(ep).pretty == old(ep).pretty,
            final(ep).stdout@ == old(ep).stdout@ + sep_text(old(self).printed_last) + item_stdout(
                old(ep).style,
                old(ep).pretty,
                item@,
            ),
            final(ep).stderr@ == old(ep).stderr@ + item_stderr(
                old(ep).style,
                old(ep).pretty,
                item@,
            ),
            final(self).printed_last == item_printed(old(ep).pretty, item@),
            fatal == (item@ is None),
    {
        if self.printed_last {
            ep.stdout.append("\n");
        }
        self.printed_last = false;
        let fatal = match item {
            DocItem::Doc(doc) => {
                match convert_document(ep.pretty, doc.as_str()) {
                    Ok(json) => {
                        ep.stdout.append(json.as_str());
                        self.printed_last = true;
                    }
                    Err(msg) => {
                        ep.print(msg.as_str());
                    }
                }
                false
            }
            DocItem::IoFail => true,
        };
        proof {
            assert(ep.stdout@ =~= old(ep).stdout@ + sep_text(old(self).printed_last) + item_stdout(
                old(ep).style,
                old(ep).pretty,
                item@,
            ));
            assert(ep.stderr@ =~= old(ep).stderr@ + item_stderr(
                old(ep).style,
                old(ep).pretty,
                item@,
            ));
        }
        fatal
    }

    /// Closes an exhausted sequence: writes the final trailing newline when
    /// the last document produced output.
    pub fn finish(&mut self, ep: &mut ErrorPrinter)
        ensures
            final(ep).style == old(ep).style,
            final(ep).pretty == old(ep).pretty,
            final(ep).stdout@ == old(ep).stdout@ + sep_text(old(self).printed_last),
            final(ep).stderr@ == old(ep).stderr@,
            !final(self).printed_last,
    {
        if self.printed_last {
            ep.stdout.append("\n");
        } else {
            proof {
                assert(ep.stdout@ =~= old(ep).stdout@ + Seq::<char>::empty());
            }
        }
        self.printed_last = false;
    }
}

/// Runs the driver over one input's whole document sequence: exactly the
/// loop of [`Driver::step`] closed by [`Driver::finish`], stopped at once by
/// a terminal IO failure.  Returns whether the run is fatal, upon which the
/// caller must terminate the process with a failure exit code and process no
/// further input.
pub fn drive(ep: &mut ErrorPrinter, items: &Vec<DocItem>) -> (fatal: bool)
    ensures
        final(ep).style == old(ep).style,
        final(ep).pretty == old(ep).pretty,
        final(ep).stdout@ == old(ep).stdout@ + run_stdout(
            old(ep).style,
            old(ep).pretty,
            item_views(items@),
            false,
        ),
        final(ep).stderr@ == old(ep).stderr@ + run_stderr(
            old(ep).style,
            old(ep).pretty,
            item_views(items@),
        ),
        fatal == run_fatal(item_views(items@)),
{
    let ghost views = item_views(items@);
    let ghost style = ep.style;
    let ghost pretty = ep.pretty;
    let mut d = Driver::new();
    let mut i: usize = 0;
    proof {
        assert(views.skip(0) =~= views);
    }
    while i < items.len()
        invariant
            i <= items.len(),
            views == item_views(items@),
            views.len() == items@.len(),
            style == old(ep).style,
            pretty == old(ep).pretty,
            ep.style == style,
            ep.pretty == pretty,
            old(ep).stdout@ + run_stdout(style, pretty, views, false) == ep.stdout@ + run_stdout(
                style,
                pretty,
                views.skip(i as int),
                d.printed_last,
            ),
            old(ep).stderr@ + run_stderr(style, pretty, views) == ep.stderr@ + run_stderr(
                style,
                pretty,
                views.skip(i as int),
            ),
            forall|j: int| 0 <= j < i ==> views[j] is Some,
        decreases items.len() - i,
    {
        let ghost pl_before = d.printed_last;
        let ghost rest = views.skip(i as int);
        let ghost out_before = ep.stdout@;
        let ghost err_before = ep.stderr@;
        let fatal = d.step(ep, &items[i]);
        proof {
            assert(views[i as int] == items@[i as int]@);
            assert(rest[0] == views[i as int]);
            assert(rest.drop_first() =~= views.skip(i as int + 1));
            assert(ep.stdout@ =~= out_before + (sep_text(pl_before) + item_stdout(
                style,
                pretty,
                rest[0],
            )));
        }
        if fatal {
            proof {
                assert(run_stdout(style, pretty, rest, pl_before) =~= sep_text(pl_before)
                    + item_stdout(style, pretty, rest[0]));
                assert(run_stderr(style, pretty, rest) =~= item_stderr(style, pretty, rest[0]));
                assert(ep.stdout@ =~= out_before + run_stdout(style, pretty, rest, pl_before));
                assert(ep.stderr@ =~= err_before + run_stderr(style, pretty, rest));
                assert(run_fatal(views));
            }
            return true;
        }
        proof {
            let tail = views.skip(i as int + 1);
            assert(run_stdout(style, pretty, rest, pl_before) =~= sep_text(pl_before)
                + item_stdout(style, pretty, rest[0]) + run_stdout(
                style,
                pretty,
                tail,
                item_printed(pretty, rest[0]),
            ));
            assert(ep.stdout@ + run_stdout(style, pretty, tail, d.printed_last) =~= out_before
                + run_stdout(style, pretty, rest, pl_before));
            assert(run_stderr(style, pretty, rest) =~= item_stderr(style, pretty, rest[0])
                + run_stderr(style, pretty, tail));
            assert(ep.stderr@ + run_stderr(style, pretty, tail) =~= err_before + run_stderr(
                style,
                pretty,
                rest,
            ));
        }
        i = i + 1;
    }
    proof {
        assert(views.skip(items@.len() as int) =~= Seq::<Option<Seq<char>>>::empty());
    }
    d.finish(ep);
    proof {
        assert(!run_fatal(views));
    }
    false
}

} // verus!
