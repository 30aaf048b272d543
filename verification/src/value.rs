//! A closed variant type for the field and setting values that the
//! reports render, with a deterministic textual rendering per variant.

use vstd::prelude::*;
use vstd::string::StringExecFns;
use crate::num::{int_dec, append_i64};

verus! {

/// A renderable value: a string, an integer, a boolean, a null, a
/// nested list or a nested dictionary of named values.
pub enum Value {
    Str(String),
    Int(i64),
    Bool(bool),
    Null,
    List(Vec<Value>),
    Dict(Vec<(String, Value)>),
}

/// The rendering of one value: strings as themselves, integers in
/// decimal, booleans and null in their host spelling, lists as
/// `[a, b]`, dictionaries as `{k: v, l: w}`.
pub open spec fn render_spec(v: Value) -> Seq<char>
    decreases v,
{
    match v {
        Value::Str(s) => s@,
        Value::Int(i) => int_dec(i as int),
        Value::Bool(b) => if b {
            "True"@
        } else {
            "False"@
        },
        Value::Null => "None"@,
        Value::List(items) => "["@ + render_list(items@) + "]"@,
        Value::Dict(pairs) => "{"@ + render_dict(pairs@) + "}"@,
    }
}

/// The comma-separated renderings of a list's items.
pub open spec fn render_list(items: Seq<Value>) -> Seq<char>
    decreases items,
{
    if items.len() == 0 {
        Seq::<char>::empty()
    } else {
        render_spec(items[0]) + render_list_rest(items.drop_first())
    }
}

/// The renderings of the items after the first, each preceded by `", "`.
pub open spec fn render_list_rest(items: Seq<Value>) -> Seq<char>
    decreases items,
{
    if items.len() == 0 {
        Seq::<char>::empty()
    } else {
        ", "@ + render_spec(items[0]) + render_list_rest(items.drop_first())
    }
}

/// The rendering of one dictionary entry, as `key: value`.
pub open spec fn render_pair(p: (String, Value)) -> Seq<char>
    decreases p,
{
    p.0@ + ": "@ + render_spec(p.1)
}

/// The comma-separated renderings of a dictionary's entries.
pub open spec fn render_dict(pairs: Seq<(String, Value)>) -> Seq<char>
    decreases pairs,
{
    if pairs.len() == 0 {
        Seq::<char>::empty()
    } else {
        render_pair(pairs[0]) + render_dict_rest(pairs.drop_first())
    }
}

/// The renderings of the entries after the first, each preceded by `", "`.
pub open spec fn render_dict_rest(pairs: Seq<(String, Value)>) -> Seq<char>
    decreases pairs,
{
    if pairs.len() == 0 {
        Seq::<char>::empty()
    } else {
        ", "@ + render_pair(pairs[0]) + render_dict_rest(pairs.drop_first())
    }
}

impl Value {
    /// This value's rendering as a fresh string.
    pub fn render(&self) -> (r: String)
        ensures
            r@ == render_spec(*self),
    {
        let mut out = String::new();
        self.append_to(&mut out);
        out
    }

    /// Appends this value's rendering to `out`.
    pub fn append_to(&self, out: &mut String)
        ensures
            final(out)@ == old(out)@ + render_spec(*self),
        decreases *self,
    {
        match self {
            Value::Str(s) => {
                out.append(s.as_str());
            },
            Value::Int(i) => {
                append_i64(out, *i);
            },
            Value::Bool(b) => {
                if *b {
                    out.append("True");
                } else {
                    out.append("False");
                }
            },
            Value::Null => {
                out.append("None");
            },
            Value::List(items) => {
                out.append("[");
                let ghost entry = out@;
                let mut idx: usize = 0;
                while idx < items.len()
                    invariant
                        *self == Value::List(*items),
                        idx <= items.len(),
                        out@ + rest_of_list(items@, idx as int) == entry + render_list(items@),
                    decreases items.len() - idx,
                {
                    proof {
                        lemma_list_step(items@, idx as int);
                        assert(decreases_to!(*self => (*self)->List_0));
                        assert((*self)->List_0 == *items);
                        assert(decreases_to!(*items => items@));
                        assert(decreases_to!(items@ => items@[idx as int]));
                        assert(decreases_to!(*self => items@[idx as int]));
                    }
                    if idx > 0 {
                        out.append(", ");
                    }
                    items[idx].append_to(out);
                    idx = idx + 1;
                }
                proof {
                    assert(out@ =~= entry + render_list(items@));
                }
                out.append("]");
            },
            Value::Dict(pairs) => {
                out.append("{");
                let ghost entry = out@;
                let mut idx: usize = 0;
                while idx < pairs.len()
                    invariant
                        *self == Value::Dict(*pairs),
                        idx <= pairs.len(),
                        out@ + rest_of_dict(pairs@, idx as int) == entry + render_dict(pairs@),
                    decreases pairs.len() - idx,
                {
                    proof {
                        lemma_dict_step(pairs@, idx as int);
                        assert(decreases_to!(*self => (*self)->Dict_0));
                        assert((*self)->Dict_0 == *pairs);
                        assert(decreases_to!(*pairs => pairs@));
                        assert(decreases_to!(pairs@ => pairs@[idx as int]));
                        assert(decreases_to!(pairs@[idx as int] => pairs@[idx as int].1));
                        assert(decreases_to!(*self => pairs@[idx as int].1));
                    }
                    if idx > 0 {
                        out.append(", ");
                    }
                    out.append(pairs[idx].0.as_str());
                    out.append(": ");
                    pairs[idx].1.append_to(out);
                    idx = idx + 1;
                }
                proof {
                    assert(out@ =~= entry + render_dict(pairs@));
                }
                out.append("}");
            },
        }
    }
}

/// What is still to be appended once the first `idx` items are out.
pub open spec fn rest_of_list(items: Seq<Value>, idx: int) -> Seq<char> {
    if idx == 0 {
        render_list(items)
    } else {
        render_list_rest(items.subrange(idx, items.len() as int))
    }
}

/// What is still to be appended once the first `idx` entries are out.
pub open spec fn rest_of_dict(pairs: Seq<(String, Value)>, idx: int) -> Seq<char> {
    if idx == 0 {
        render_dict(pairs)
    } else {
        render_dict_rest(pairs.subrange(idx, pairs.len() as int))
    }
}

/// Peels the item at `idx` off the pending part of a list rendering.
proof fn lemma_list_step(items: Seq<Value>, idx: int)
    requires
        0 <= idx < items.len(),
    ensures
        idx == 0 ==> rest_of_list(items, 0) == render_spec(items[0]) + rest_of_list(items, 1),
        idx > 0 ==> rest_of_list(items, idx) == ", "@ + render_spec(items[idx]) + rest_of_list(
            items,
            idx + 1,
        ),
{
    let tail = items.subrange(idx, items.len() as int);
    assert(tail.len() > 0);
    assert(tail[0] == items[idx]);
    assert(tail.drop_first() =~= items.subrange(idx + 1, items.len() as int));
    if idx == 0 {
        assert(items.drop_first() =~= items.subrange(1, items.len() as int));
        assert(rest_of_list(items, 0) =~= render_spec(items[0]) + rest_of_list(items, 1));
    } else {
        assert(rest_of_list(items, idx) =~= ", "@ + render_spec(items[idx]) + rest_of_list(
            items,
            idx + 1,
        ));
    }
}

/// Peels the entry at `idx` off the pending part of a dictionary rendering.
proof fn lemma_dict_step(pairs: Seq<(String, Value)>, idx: int)
    requires
        0 <= idx < pairs.len(),
    ensures
        idx == 0 ==> rest_of_dict(pairs, 0) == render_pair(pairs[0]) + rest_of_dict(pairs, 1),
        idx > 0 ==> rest_of_dict(pairs, idx) == ", "@ + render_pair(pairs[idx]) + rest_of_dict(
            pairs,
            idx + 1,
        ),
{
    let tail = pairs.subrange(idx, pairs.len() as int);
    assert(tail.len() > 0);
    assert(tail[0] == pairs[idx]);
    assert(tail.drop_first() =~= pairs.subrange(idx + 1, pairs.len() as int));
    if idx == 0 {
        assert(pairs.drop_first() =~= pairs.subrange(1, pairs.len() as int));
        assert(rest_of_dict(pairs, 0) =~= render_pair(pairs[0]) + rest_of_dict(pairs, 1));
    } else {
        assert(rest_of_dict(pairs, idx) =~= ", "@ + render_pair(pairs[idx]) + rest_of_dict(
            pairs,
            idx + 1,
        ));
    }
}

} // verus!
