//! The settings report: a title naming the index, then one block per
//! setting with its display key and its value.

use vstd::prelude::*;
use vstd::string::StringExecFns;
use crate::keycase::{display_key, spaced, title_of};
use crate::value::{Value, render_spec};

verus! {

/// The report's title line, closed by a blank line.
pub open spec fn settings_title(index: Seq<char>) -> Seq<char> {
    "# Settings for "@ + index + " index\n"@
}

/// The block one setting adds to the report: the newline that joins it
/// to what came before, its title-cased key as a heading, its value,
/// and a closing blank line.
pub open spec fn setting_block(p: (String, Value)) -> Seq<char> {
    "\n## "@ + title_of(spaced(p.0@)) + "\n"@ + render_spec(p.1) + "\n"@
}

/// The blocks of the settings from `idx` on.
pub open spec fn setting_blocks_from(pairs: Seq<(String, Value)>, idx: int) -> Seq<char>
    decreases pairs.len() - idx,
{
    if idx < 0 || idx >= pairs.len() {
        Seq::<char>::empty()
    } else {
        setting_block(pairs[idx]) + setting_blocks_from(pairs, idx + 1)
    }
}

/// The whole settings report: the title, then one block per setting in
/// the order the caller handed them in.
pub open spec fn settings_report_spec(index: Seq<char>, pairs: Seq<(String, Value)>) -> Seq<char> {
    settings_title(index) + setting_blocks_from(pairs, 0)
}

/// Formats an index's settings. Every setting keeps its place; its key
/// is shown with underscores opened into spaces and the words
/// title-cased, and its value rendered beneath the key.
pub fn format_settings(index: &str, results: &Vec<(String, Value)>) -> (r: String)
    ensures
        r@ == settings_report_spec(index@, results@),
{
    let mut out = String::new();
    out.append("# Settings for ");
    out.append(index);
    out.append(" index\n");
    let ghost title = out@;
    let mut i: usize = 0;
    while i < results.len()
        invariant
            i <= results.len(),
            out@ + setting_blocks_from(results@, i as int) == title + setting_blocks_from(
                results@,
                0,
            ),
        decreases results.len() - i,
    {
        out.append("\n## ");
        let shown = display_key(results[i].0.as_str());
        out.append(shown.as_str());
        out.append("\n");
        results[i].1.append_to(&mut out);
        out.append("\n");
        proof {
            assert(out@ + setting_blocks_from(results@, i as int + 1) =~= title
                + setting_blocks_from(results@, 0));
        }
        i = i + 1;
    }
    proof {
        assert(out@ =~= title + setting_blocks_from(results@, 0));
    }
    out
}

/// An empty settings mapping formats to the title line alone, whatever
/// the index is called.
pub proof fn lemma_empty_settings_report(index: Seq<char>)
    ensures
        settings_report_spec(index, Seq::<(String, Value)>::empty()) == "# Settings for "@ + index
            + " index\n"@,
{
}

/// Formatting settings is deterministic: two reports of the same input
/// are byte-identical.
pub proof fn lemma_settings_deterministic(
    index: Seq<char>,
    pairs: Seq<(String, Value)>,
    r1: Seq<char>,
    r2: Seq<char>,
)
    requires
        r1 == settings_report_spec(index, pairs),
        r2 == settings_report_spec(index, pairs),
    ensures
        r1 == r2,
{
}

} // verus!
