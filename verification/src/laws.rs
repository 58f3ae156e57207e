//! Properties of whole driver runs, proved over the run model of
//! [`crate::driver`].

use vstd::prelude::*;
use vstd::seq_lib::*;
use crate::convert::convert_result;
use crate::driver::{
    item_printed, item_stderr, item_stdout, run_fatal, run_stderr, run_stdout, sep_text,
};
use crate::style::ErrorStyle;

verus! {

/// The separator a run owes from before comes first and the rest of the run
/// is as if nothing were owed.
pub proof fn lemma_run_owed_separator(
    style: ErrorStyle,
    pretty: bool,
    items: Seq<Option<Seq<char>>>,
    printed_last: bool,
)
    ensures
        run_stdout(style, pretty, items, printed_last) == sep_text(printed_last) + run_stdout(
            style,
            pretty,
            items,
            false,
        ),
{
    if items.len() == 0 {
        assert(run_stdout(style, pretty, items, printed_last) =~= sep_text(printed_last)
            + run_stdout(style, pretty, items, false));
    } else {
        assert(run_stdout(style, pretty, items, printed_last) =~= sep_text(printed_last)
            + run_stdout(style, pretty, items, false));
    }
}

/// Whether every item of a sequence is a document that converts
/// successfully.
pub open spec fn all_convert_ok(pretty: bool, items: Seq<Option<Seq<char>>>) -> bool {
    forall|i: int|
        0 <= i < items.len() ==> items[i] is Some && convert_result(pretty, (#[trigger] items[i])->0)
            is Ok
}

/// The converted JSON texts of an all-successful sequence, each closed by
/// one newline: the documents' outputs separated by single newlines with one
/// trailing newline.
pub open spec fn joined_outputs(pretty: bool, items: Seq<Option<Seq<char>>>) -> Seq<char>
    decreases items.len(),
{
    if items.len() == 0 {
        Seq::<char>::empty()
    } else {
        convert_result(pretty, items[0]->0)->Ok_0 + "\n"@ + joined_outputs(
            pretty,
            items.drop_first(),
        )
    }
}

/// When every document of an input converts successfully, standard output
/// carries exactly the converted values separated by single newlines with
/// one trailing newline — whatever the error style — standard error stays
/// empty, and the run is not fatal.
pub proof fn lemma_all_success(style: ErrorStyle, pretty: bool, items: Seq<Option<Seq<char>>>)
    ensures
        all_convert_ok(pretty, items) ==> run_stdout(style, pretty, items, false)
            == joined_outputs(pretty, items),
        all_convert_ok(pretty, items) ==> run_stderr(style, pretty, items) == Seq::<char>::empty(),
        all_convert_ok(pretty, items) ==> !run_fatal(items),
    decreases items.len(),
{
    if all_convert_ok(pretty, items) {
        if items.len() == 0 {
            assert(run_stdout(style, pretty, items, false) =~= joined_outputs(pretty, items));
        } else {
            let rest = items.drop_first();
            assert(forall|i: int|
                0 <= i < rest.len() ==> #[trigger] rest[i] == items[i + 1]);
            lemma_all_success(style, pretty, rest);
            lemma_run_owed_separator(style, pretty, rest, true);
            let json = convert_result(pretty, items[0]->0)->Ok_0;
            assert(item_stdout(style, pretty, items[0]) == json);
            assert(run_stdout(style, pretty, items, false) =~= json + "\n"@ + joined_outputs(
                pretty,
                rest,
            ));
            assert(run_stderr(style, pretty, items) =~= Seq::<char>::empty());
        }
    }
}

/// Zero documents produce zero output on either stream, whatever the error
/// style, and the run is not fatal.
pub proof fn lemma_empty_input(style: ErrorStyle, pretty: bool)
    ensures
        run_stdout(style, pretty, Seq::<Option<Seq<char>>>::empty(), false) == Seq::<char>::empty(),
        run_stderr(style, pretty, Seq::<Option<Seq<char>>>::empty()) == Seq::<char>::empty(),
        !run_fatal(Seq::<Option<Seq<char>>>::empty()),
{
}

/// Under the Silent style a document that fails conversion leaves no trace:
/// the run over a sequence with such a document inserted anywhere puts the
/// same text on both streams as the run without it.
pub proof fn lemma_silent_failure_invisible(
    pretty: bool,
    items: Seq<Option<Seq<char>>>,
    i: int,
    doc: Seq<char>,
    printed_last: bool,
)
    ensures
        0 <= i <= items.len() && convert_result(pretty, doc) is Err ==> run_stdout(
            ErrorStyle::Silent,
            pretty,
            items.insert(i, Some(doc)),
            printed_last,
        ) == run_stdout(ErrorStyle::Silent, pretty, items, printed_last),
        0 <= i <= items.len() && convert_result(pretty, doc) is Err ==> run_stderr(
            ErrorStyle::Silent,
            pretty,
            items.insert(i, Some(doc)),
        ) == run_stderr(ErrorStyle::Silent, pretty, items),
    decreases i,
{
    let style = ErrorStyle::Silent;
    if 0 <= i <= items.len() && convert_result(pretty, doc) is Err {
        let grown = items.insert(i, Some(doc));
        if i == 0 {
            assert(grown[0] == Some(doc));
            assert(grown.drop_first() =~= items);
            assert(item_stdout(style, pretty, grown[0]) == Seq::<char>::empty());
            assert(item_stderr(style, pretty, grown[0]) == Seq::<char>::empty());
            assert(!item_printed(pretty, grown[0]));
            lemma_run_owed_separator(style, pretty, items, printed_last);
            assert(run_stdout(style, pretty, grown, printed_last) =~= sep_text(printed_last)
                + run_stdout(style, pretty, items, false));
            assert(run_stderr(style, pretty, grown) =~= run_stderr(style, pretty, items));
        } else {
            assert(items.len() >= 1);
            let head = items[0];
            assert(grown[0] == head);
            assert(grown.drop_first() =~= items.drop_first().insert(i - 1, Some(doc)));
            lemma_silent_failure_invisible(
                pretty,
                items.drop_first(),
                i - 1,
                doc,
                item_printed(pretty, head),
            );
            if head is None {
                assert(run_stdout(style, pretty, grown, printed_last) =~= run_stdout(
                    style,
                    pretty,
                    items,
                    printed_last,
                ));
                assert(run_stderr(style, pretty, grown) =~= run_stderr(style, pretty, items));
            } else {
                assert(run_stdout(style, pretty, grown, printed_last) =~= run_stdout(
                    style,
                    pretty,
                    items,
                    printed_last,
                ));
                assert(run_stderr(style, pretty, grown) =~= run_stderr(style, pretty, items));
            }
        }
    }
}

/// Under the Stderr style nothing of a failure reaches standard output: a
/// run puts the same text there as the same run under the Silent style,
/// whatever it owes from before.
pub proof fn lemma_stderr_keeps_stdout_clean(
    pretty: bool,
    items: Seq<Option<Seq<char>>>,
    printed_last: bool,
)
    ensures
        run_stdout(ErrorStyle::Stderr, pretty, items, printed_last) == run_stdout(
            ErrorStyle::Silent,
            pretty,
            items,
            printed_last,
        ),
    decreases items.len(),
{
    if items.len() == 0 {
    } else {
        lemma_stderr_keeps_stdout_clean(pretty, items.drop_first(), item_printed(
            pretty,
            items[0],
        ));
        assert(item_stdout(ErrorStyle::Stderr, pretty, items[0]) == item_stdout(
            ErrorStyle::Silent,
            pretty,
            items[0],
        ));
        assert(run_stdout(ErrorStyle::Stderr, pretty, items, printed_last) =~= run_stdout(
            ErrorStyle::Silent,
            pretty,
            items,
            printed_last,
        ));
    }
}

/// The lines of the failed documents of a run, in order, each exactly the
/// failure's message closed by one newline; the terminal IO failure stops
/// the run.
pub open spec fn failure_lines(pretty: bool, items: Seq<Option<Seq<char>>>) -> Seq<char>
    decreases items.len(),
{
    if items.len() == 0 {
        Seq::<char>::empty()
    } else {
        (match items[0] {
            Some(doc) => match convert_result(pretty, doc) {
                Ok(json) => Seq::<char>::empty(),
                Err(msg) => msg + "\n"@,
            },
            None => Seq::<char>::empty(),
        }) + (if items[0] is None {
            Seq::<char>::empty()
        } else {
            failure_lines(pretty, items.drop_first())
        })
    }
}

/// Under the Stderr style standard error carries exactly one line per
/// failed document, the failure's message closed by one newline, in run
/// order.
pub proof fn lemma_stderr_failure_lines(pretty: bool, items: Seq<Option<Seq<char>>>)
    ensures
        run_stderr(ErrorStyle::Stderr, pretty, items) == failure_lines(pretty, items),
    decreases items.len(),
{
    if items.len() == 0 {
    } else {
        lemma_stderr_failure_lines(pretty, items.drop_first());
        assert(run_stderr(ErrorStyle::Stderr, pretty, items) =~= failure_lines(pretty, items));
    }
}

/// Under the Json style nothing ever reaches standard error: every failure
/// is carried on standard output instead, as the JSON envelope the printer
/// puts there in run order.
pub proof fn lemma_json_keeps_stderr_empty(pretty: bool, items: Seq<Option<Seq<char>>>)
    ensures
        run_stderr(ErrorStyle::Json, pretty, items) == Seq::<char>::empty(),
    decreases items.len(),
{
    if items.len() == 0 {
    } else {
        lemma_json_keeps_stderr_empty(pretty, items.drop_first());
        assert(item_stderr(ErrorStyle::Json, pretty, items[0]) == Seq::<char>::empty());
        assert(run_stderr(ErrorStyle::Json, pretty, items) =~= Seq::<char>::empty());
    }
}

} // verus!
