//! The search result report: a header with the estimated hit count and
//! the processing time, then one block per hit record.

use vstd::prelude::*;
use vstd::string::StringExecFns;
use crate::num::{dec_of, append_u64};
use crate::value::{Value, render_pair};

verus! {

/// The separator drawn under every hit record's fields.
pub open spec fn separator_line() -> Seq<char> {
    "-------------------------------"@
}

/// The displayed hit count: the estimate when present, zero otherwise.
pub open spec fn count_of(est: Option<nat>) -> nat {
    match est {
        Option::Some(n) => n,
        Option::None => 0,
    }
}

/// The report's first line: the hit count and the processing time,
/// closed by a blank line.
pub open spec fn header_spec(total: nat, time: nat) -> Seq<char> {
    "## Hits: ~"@ + dec_of(total) + " | Search time: "@ + dec_of(time) + "\n"@
}

/// One line per field of a hit record, each opened by the newline that
/// joins it to the line before.
pub open spec fn field_lines(fields: Seq<(String, Value)>) -> Seq<char>
    decreases fields.len(),
{
    if fields.len() == 0 {
        Seq::<char>::empty()
    } else {
        "\n"@ + render_pair(fields[0]) + field_lines(fields.drop_first())
    }
}

/// The block a hit record adds to the report: its field lines, then the
/// separator line.
pub open spec fn hit_block(fields: Seq<(String, Value)>) -> Seq<char> {
    field_lines(fields) + "\n"@ + separator_line()
}

/// The blocks of the hit records from `idx` on.
pub open spec fn blocks_from(hits: Seq<Vec<(String, Value)>>, idx: int) -> Seq<char>
    decreases hits.len() - idx,
{
    if idx < 0 || idx >= hits.len() {
        Seq::<char>::empty()
    } else {
        hit_block(hits[idx]@) + blocks_from(hits, idx + 1)
    }
}

/// The whole search report: the fixed notice when the hit list is
/// absent, else the header followed by one block per hit record.
pub open spec fn search_report_spec(
    time: nat,
    est: Option<nat>,
    hits: Option<Seq<Vec<(String, Value)>>>,
) -> Seq<char> {
    match hits {
        Option::None => "No results found"@,
        Option::Some(hs) => header_spec(count_of(est), time) + blocks_from(hs, 0),
    }
}

/// The estimate as a mathematical option.
pub open spec fn opt_nat(est: Option<usize>) -> Option<nat> {
    match est {
        Option::Some(n) => Option::Some(n as nat),
        Option::None => Option::None,
    }
}

/// The hit list seen through its view.
pub open spec fn opt_hits(hits: Option<&Vec<Vec<(String, Value)>>>) -> Option<
    Seq<Vec<(String, Value)>>,
> {
    match hits {
        Option::Some(v) => Option::Some(v@),
        Option::None => Option::None,
    }
}

/// Appends one hit record's block: a `key: value` line per field, then
/// the separator line.
fn append_hit_block(out: &mut String, fields: &Vec<(String, Value)>)
    ensures
        final(out)@ == old(out)@ + hit_block(fields@),
{
    let ghost entry = out@;
    proof {
        assert(fields@.subrange(0, fields@.len() as int) =~= fields@);
    }
    let mut j: usize = 0;
    while j < fields.len()
        invariant
            j <= fields.len(),
            out@ + field_lines(fields@.subrange(j as int, fields@.len() as int)) == entry
                + field_lines(fields@),
        decreases fields.len() - j,
    {
        proof {
            lemma_field_lines_step(fields@, j as int);
        }
        out.append("\n");
        out.append(fields[j].0.as_str());
        out.append(": ");
        fields[j].1.append_to(out);
        proof {
            assert(out@ + field_lines(fields@.subrange(j as int + 1, fields@.len() as int)) =~= entry
                + field_lines(fields@));
        }
        j = j + 1;
    }
    proof {
        assert(out@ =~= entry + field_lines(fields@));
    }
    out.append("\n");
    out.append("-------------------------------");
}

/// Peels the line of the field at `idx` off the pending field lines.
proof fn lemma_field_lines_step(fields: Seq<(String, Value)>, idx: int)
    requires
        0 <= idx < fields.len(),
    ensures
        field_lines(fields.subrange(idx, fields.len() as int)) == "\n"@ + render_pair(fields[idx])
            + field_lines(fields.subrange(idx + 1, fields.len() as int)),
{
    let tail = fields.subrange(idx, fields.len() as int);
    assert(tail[0] == fields[idx]);
    assert(tail.drop_first() =~= fields.subrange(idx + 1, fields.len() as int));
}

/// Formats a search result: the processing time, the estimated total
/// hit count when known, and the hit records when a list was handed in.
/// An absent list gives the fixed notice; an empty list gives the
/// header alone.
pub fn format_search(
    processing_time_ms: usize,
    estimated_total_hits: Option<usize>,
    hits: Option<&Vec<Vec<(String, Value)>>>,
) -> (r: String)
    ensures
        r@ == search_report_spec(
            processing_time_ms as nat,
            opt_nat(estimated_total_hits),
            opt_hits(hits),
        ),
{
    match hits {
        Option::None => {
            let mut out = String::new();
            out.append("No results found");
            proof {
                assert(out@ =~= "No results found"@);
            }
            out
        },
        Option::Some(hs) => {
            let mut out = String::new();
            out.append("## Hits: ~");
            let total: usize = match estimated_total_hits {
                Option::Some(n) => n,
                Option::None => 0,
            };
            append_u64(&mut out, total as u64);
            out.append(" | Search time: ");
            append_u64(&mut out, processing_time_ms as u64);
            out.append("\n");
            let ghost header = out@;
            proof {
                assert(header =~= header_spec(
                    count_of(opt_nat(estimated_total_hits)),
                    processing_time_ms as nat,
                ));
            }
            let mut i: usize = 0;
            while i < hs.len()
                invariant
                    i <= hs.len(),
                    out@ + blocks_from(hs@, i as int) == header + blocks_from(hs@, 0),
                decreases hs.len() - i,
            {
                append_hit_block(&mut out, &hs[i]);
                proof {
                    assert(out@ + blocks_from(hs@, i as int + 1) =~= header + blocks_from(
                        hs@,
                        0,
                    ));
                }
                i = i + 1;
            }
            proof {
                assert(out@ =~= header + blocks_from(hs@, 0));
            }
            out
        },
    }
}

/// An absent hit list formats to the fixed notice, whatever the
/// processing time says.
pub proof fn lemma_absent_hits_report(time: nat)
    ensures
        search_report_spec(time, Option::None, Option::None) == "No results found"@,
{
}

/// An empty hit list formats to the header alone: a count of zero, the
/// processing time, and the closing blank line.
pub proof fn lemma_empty_hits_report(time: nat)
    ensures
        search_report_spec(time, Option::None, Option::Some(Seq::<Vec<(String, Value)>>::empty()))
            == "## Hits: ~0 | Search time: "@ + dec_of(time) + "\n"@,
{
    reveal_strlit("## Hits: ~");
    reveal_strlit("## Hits: ~0 | Search time: ");
    reveal_strlit(" | Search time: ");
    assert(search_report_spec(
        time,
        Option::None,
        Option::Some(Seq::<Vec<(String, Value)>>::empty()),
    ) =~= "## Hits: ~0 | Search time: "@ + dec_of(time) + "\n"@);
}

/// Formatting a search result is deterministic: two reports of the same
/// input are byte-identical.
pub proof fn lemma_search_deterministic(
    time: nat,
    est: Option<nat>,
    hits: Option<Seq<Vec<(String, Value)>>>,
    r1: Seq<char>,
    r2: Seq<char>,
)
    requires
        r1 == search_report_spec(time, est, hits),
        r2 == search_report_spec(time, est, hits),
    ensures
        r1 == r2,
{
}

} // verus!
