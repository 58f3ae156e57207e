//! The YAML-to-JSON converter, an outside collaborator of the driver.
//!
//! Conversion of one document is an opaque fallible operation: the driver
//! only needs that its outcome is a function of the document text and the
//! chosen style, so the outcome is given a name and every contract above it
//! speaks of that name.

use vstd::prelude::*;

verus! {

/// What converting one YAML document yields: the JSON text on success, the
/// error's display text on failure.  The outcome depends on the document and
/// the style alone.
pub uninterp spec fn convert_result(pretty: bool, doc: Seq<char>) -> Result<Seq<char>, Seq<char>>;

/// Relies on yaml2json_rs::Yaml2Json::document_to_string: parses one YAML
/// document and renders it as JSON, pretty or compact; the result depends on
/// the document text and the style alone.
#[verifier::external_body]
pub(crate) fn convert_document(pretty: bool, doc: &str) -> (r: Result<String, String>)
    ensures
        convert_result(pretty, doc@) == (match r {
            Ok(j) => Ok::<Seq<char>, Seq<char>>(j@),
            Err(e) => Err::<Seq<char>, Seq<char>>(e@),
        }),
{
    let style = if pretty {
        yaml2json_rs::Style::PRETTY
    } else {
        yaml2json_rs::Style::COMPACT
    };
    match yaml2json_rs::Yaml2Json::new(style).document_to_string(doc) {
        Ok(j) => Ok(j),
        Err(e) => Err(e.to_string()),
    }
}

} // verus!
