//! Column alignment of tab-separated text, done by the `tabwriter` crate.

use vstd::prelude::*;
use std::io::Write;
use tabwriter::TabWriter;

verus! {

/// The text that a `TabWriter` with its default settings makes of `text`:
/// the tab-delimited fields of adjoining lines, laid out in aligned columns.
/// `None` where the writer reports a failure or its output is not UTF-8.
pub uninterp spec fn tab_aligned(text: Seq<char>) -> Option<Seq<char>>;

/// Writes `text` to a `TabWriter` over a byte vector (`TabWriter::new`,
/// `write_all`), flushes it and takes the vector back (`into_inner`). The
/// outcome depends on `text` alone; `tab_aligned` names it.
#[verifier::external_body]
pub(crate) fn tab_align(text: &str) -> (aligned: Option<String>)
    ensures
        aligned is Some == tab_aligned(text@) is Some,
        aligned is Some ==> aligned->0@ == tab_aligned(text@)->0,
{
    let mut writer = TabWriter::new(Vec::new());
    writer.write_all(text.as_bytes()).ok()?;
    let bytes = writer.into_inner().ok()?;
    String::from_utf8(bytes).ok()
}

} // verus!
