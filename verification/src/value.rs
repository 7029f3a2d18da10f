//! A structured value for caller-supplied extension data.
//!
//! An event's `custom_details` is an arbitrary document owned by the
//! caller. This library models it as an ordered tree of plain values, so
//! that its wire encoding is pinned down by the same character-exact
//! specification as the rest of the envelope. Keys of an object and items
//! of an array are kept, and emitted, in the order given.

use vstd::prelude::*;

use crate::json::dec_rep;
use crate::json::int_rep;
use crate::json::push_char;
use crate::json::push_i64;
use crate::json::push_quoted;
use crate::json::push_u64;
use crate::json::quoted;

verus! {

broadcast use vstd::std_specs::vec::group_vec_axioms, vstd::seq::axiom_seq_index_decreases;

/// A JSON-like document: the values this library can place under
/// `custom_details`.
#[derive(Debug)]
pub enum Value {
    Null,
    Bool(bool),
    Int(i64),
    UInt(u64),
    Str(String),
    Array(Vec<Value>),
    Object(Vec<Entry>),
}

/// One key-value entry of an object document. Entries keep the order in
/// which they were given.
#[derive(Debug)]
pub struct Entry {
    pub key: String,
    pub value: Value,
}

/// The JSON encoding of a value.
pub open spec fn json_of_value(v: Value) -> Seq<char>
    decreases v, 0int,
{
    match v {
        Value::Null => "null"@,
        Value::Bool(b) => if b {
            "true"@
        } else {
            "false"@
        },
        Value::Int(i) => int_rep(i as int),
        Value::UInt(u) => dec_rep(u as nat),
        Value::Str(s) => quoted(s@),
        Value::Array(items) => {
            proof {
                assert(decreases_to!(v => v->Array_0));
            }
            seq!['['] + json_of_items_upto(items, items@.len() as int) + seq![']']
        },
        Value::Object(entries) => {
            proof {
                assert(decreases_to!(v => v->Object_0));
            }
            seq!['{'] + json_of_entries_upto(entries, entries@.len() as int) + seq!['}']
        },
    }
}

/// The JSON encoding of the first `j` items of an array, comma separated.
pub open spec fn json_of_items_upto(items: Vec<Value>, j: int) -> Seq<char>
    decreases items, j,
        when j <= items@.len()
{
    if j <= 0 {
        Seq::<char>::empty()
    } else {
        proof {
            assert(decreases_to!(items => items@));
            if 0 < j <= items@.len() {
                assert(decreases_to!(items@ => items@[j - 1]));
                assert(decreases_to!(items => items@[j - 1]));
            }
        }
        if j == 1 {
            json_of_value(items@[0])
        } else {
            json_of_items_upto(items, j - 1) + seq![','] + json_of_value(items@[j - 1])
        }
    }
}

/// The JSON encoding of one object entry: a quoted key, a colon and the
/// entry's value.
pub open spec fn json_of_entry(e: Entry) -> Seq<char>
    decreases e, 1int,
{
    quoted(e.key@) + seq![':'] + json_of_value(e.value)
}

/// The JSON encoding of the first `j` entries of an object, comma
/// separated.
pub open spec fn json_of_entries_upto(entries: Vec<Entry>, j: int) -> Seq<char>
    decreases entries, j,
        when j <= entries@.len()
{
    if j <= 0 {
        Seq::<char>::empty()
    } else {
        proof {
            assert(decreases_to!(entries => entries@));
            if 0 < j <= entries@.len() {
                assert(decreases_to!(entries@ => entries@[j - 1]));
                assert(decreases_to!(entries => entries@[j - 1]));
            }
        }
        if j == 1 {
            json_of_entry(entries@[0])
        } else {
            json_of_entries_upto(entries, j - 1) + seq![','] + json_of_entry(entries@[j - 1])
        }
    }
}

impl Value {
    /// Appends the JSON encoding of this value.
    pub fn push_json(&self, out: &mut String)
        ensures
            final(out)@ == old(out)@ + json_of_value(*self),
        decreases *self,
    {
        match self {
            Value::Null => {
                out.append("null");
            },
            Value::Bool(b) => {
                if *b {
                    out.append("true");
                } else {
                    out.append("false");
                }
            },
            Value::Int(i) => {
                push_i64(out, *i);
            },
            Value::UInt(u) => {
                push_u64(out, *u);
            },
            Value::Str(s) => {
                push_quoted(out, s.as_str());
            },
            Value::Array(items) => {
                proof {
                    assert(decreases_to!(*self => (*self)->Array_0));
                }
                push_char(out, '[');
                let n: usize = items.len();
                let mut j: usize = 0;
                while j < n
                    invariant
                        j <= n,
                        n == items@.len(),
                        decreases_to!(*self => *items),
                        out@ == old(out)@ + seq!['['] + json_of_items_upto(*items, j as int),
                    decreases n - j,
                {
                    if j > 0 {
                        push_char(out, ',');
                    }
                    proof {
                        assert(decreases_to!(*items => items@));
                        assert(decreases_to!(items@ => items@[j as int]));
                    }
                    items[j].push_json(out);
                    proof {
                        assert(out@ =~= old(out)@ + seq!['['] + json_of_items_upto(
                            *items,
                            j as int + 1,
                        ));
                    }
                    j = j + 1;
                }
                push_char(out, ']');
            },
            Value::Object(entries) => {
                proof {
                    assert(decreases_to!(*self => (*self)->Object_0));
                }
                push_char(out, '{');
                let n: usize = entries.len();
                let mut j: usize = 0;
                while j < n
                    invariant
                        j <= n,
                        n == entries@.len(),
                        decreases_to!(*self => *entries),
                        out@ == old(out)@ + seq!['{'] + json_of_entries_upto(*entries, j as int),
                    decreases n - j,
                {
                    if j > 0 {
                        push_char(out, ',');
                    }
                    push_quoted(out, entries[j].key.as_str());
                    push_char(out, ':');
                    proof {
                        assert(decreases_to!(*entries => entries@));
                        assert(decreases_to!(entries@ => entries@[j as int]));
                        assert(decreases_to!(entries@[j as int] => entries@[j as int].value));
                    }
                    entries[j].value.push_json(out);
                    proof {
                        assert(json_of_entry(entries@[j as int]) == quoted(
                            entries@[j as int].key@,
                        ) + seq![':'] + json_of_value(entries@[j as int].value));
                        assert(out@ =~= old(out)@ + seq!['{'] + json_of_entries_upto(
                            *entries,
                            j as int + 1,
                        ));
                    }
                    j = j + 1;
                }
                push_char(out, '}');
            },
        }
    }

    /// The JSON encoding of this value.
    pub fn to_json(&self) -> (r: String)
        ensures
            r@ == json_of_value(*self),
    {
        let mut out = String::new();
        self.push_json(&mut out);
        out
    }
}

} // verus!
