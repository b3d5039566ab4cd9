//! Short one-line renderings of JSON values, as the explorer shows the
//! fields of Move objects.

use vstd::prelude::*;
use crate::text::{dec, owned, push_dec, push_str};

verus! {

/// A JSON value: numbers keep their text, object entries come in the
/// order of the map they were read from.
pub enum JsonValue {
    Null,
    Bool(bool),
    Number(String),
    Str(String),
    Array(Vec<JsonValue>),
    Object(Vec<(String, JsonValue)>),
}

/// `"k: v"` for an object entry.
pub open spec fn entry_text(k: Seq<char>, v: Seq<char>) -> Seq<char> {
    k + ": "@ + v
}

/// A value on one line: strings bare, arrays of up to three items listed
/// (longer ones counted), objects with up to three entries listed (more
/// shown as `...`).
pub open spec fn spec_format_json(v: JsonValue) -> Seq<char>
    decreases v,
{
    match v {
        JsonValue::Str(s) => s@,
        JsonValue::Number(n) => n@,
        JsonValue::Bool(b) => if b {
            "true"@
        } else {
            "false"@
        },
        JsonValue::Null => "null"@,
        JsonValue::Array(a) => {
            let n = a@.len();
            if n == 0 {
                "[]"@
            } else if n == 1 {
                "["@ + spec_format_json(a@[0]) + "]"@
            } else if n == 2 {
                "["@ + spec_format_json(a@[0]) + ", "@ + spec_format_json(a@[1]) + "]"@
            } else if n == 3 {
                "["@ + spec_format_json(a@[0]) + ", "@ + spec_format_json(a@[1]) + ", "@
                    + spec_format_json(a@[2]) + "]"@
            } else {
                "["@ + dec(n) + " items]"@
            }
        },
        JsonValue::Object(m) => {
            let n = m@.len();
            let pairs = if n == 0 {
                Seq::empty()
            } else if n == 1 {
                entry_text(m@[0].0@, spec_format_json(m@[0].1))
            } else if n == 2 {
                entry_text(m@[0].0@, spec_format_json(m@[0].1)) + ", "@ + entry_text(
                    m@[1].0@,
                    spec_format_json(m@[1].1),
                )
            } else {
                entry_text(m@[0].0@, spec_format_json(m@[0].1)) + ", "@ + entry_text(
                    m@[1].0@,
                    spec_format_json(m@[1].1),
                ) + ", "@ + entry_text(m@[2].0@, spec_format_json(m@[2].1))
            };
            if n > 3 {
                "{ "@ + pairs + ", ... }"@
            } else {
                "{ "@ + pairs + " }"@
            }
        },
    }
}

fn push_entry(out: &mut String, k: &String, v: &JsonValue)
    ensures
        final(out)@ == old(out)@ + entry_text(k@, spec_format_json(*v)),
    decreases v, 1nat,
{
    push_str(out, k.as_str());
    push_str(out, ": ");
    let t = format_json_value(v);
    push_str(out, t.as_str());
}

/// One-line rendering of a JSON value (see `spec_format_json`).
pub fn format_json_value(v: &JsonValue) -> (r: String)
    ensures
        r@ == spec_format_json(*v),
    decreases v, 0nat,
{
    match v {
        JsonValue::Str(s) => {
            let r = s.clone();
            r
        },
        JsonValue::Number(n) => {
            n.clone()
        },
        JsonValue::Bool(b) => if *b {
            owned("true")
        } else {
            owned("false")
        },
        JsonValue::Null => owned("null"),
        JsonValue::Array(a) => {
            let n = a.len();
            let mut out = owned("[");
            if n > 3 {
                push_dec(&mut out, n as u128);
                push_str(&mut out, " items]");
                return out;
            }
            if n >= 1 {
                let t = format_json_value(&a[0]);
                push_str(&mut out, t.as_str());
            }
            if n >= 2 {
                push_str(&mut out, ", ");
                let t = format_json_value(&a[1]);
                push_str(&mut out, t.as_str());
            }
            if n == 3 {
                push_str(&mut out, ", ");
                let t = format_json_value(&a[2]);
                push_str(&mut out, t.as_str());
            }
            push_str(&mut out, "]");
            proof {
                if n == 0 {
                    reveal_strlit("[");
                    reveal_strlit("]");
                    reveal_strlit("[]");
                    assert(out@ =~= "[]"@);
                }
            }
            out
        },
        JsonValue::Object(m) => {
            let n = m.len();
            let mut out = owned("{ ");
            if n >= 1 {
                push_entry(&mut out, &m[0].0, &m[0].1);
            }
            if n >= 2 {
                push_str(&mut out, ", ");
                push_entry(&mut out, &m[1].0, &m[1].1);
            }
            if n >= 3 {
                push_str(&mut out, ", ");
                push_entry(&mut out, &m[2].0, &m[2].1);
            }
            if n > 3 {
                push_str(&mut out, ", ... }");
            } else {
                push_str(&mut out, " }");
            }
            out
        },
    }
}

/// Texts joined with `", "` between them.
pub open spec fn joined(parts: Seq<Seq<char>>) -> Seq<char>
    decreases parts.len(),
{
    if parts.len() == 0 {
        Seq::empty()
    } else if parts.len() == 1 {
        parts[0]
    } else {
        joined(parts.drop_last()) + ", "@ + parts.last()
    }
}

/// Each entry of an object as `k: v`, in order.
pub open spec fn entry_texts(m: Seq<(String, JsonValue)>) -> Seq<Seq<char>> {
    m.map_values(|e: (String, JsonValue)| entry_text(e.0@, spec_format_json(e.1)))
}

/// Each item of an array rendered, in order.
pub open spec fn item_texts(a: Seq<JsonValue>) -> Seq<Seq<char>> {
    a.map_values(|v: JsonValue| spec_format_json(v))
}

/// An object of at most three entries shows them all, joined, between
/// `{ ` and ` }`; a larger one shows its first three and then `, ...`.
pub proof fn lemma_object_rendering(m: Vec<(String, JsonValue)>)
    ensures
        ({
            let s = spec_format_json(JsonValue::Object(m));
            let es = entry_texts(m@);
            &&& m@.len() <= 3 ==> s == "{ "@ + joined(es) + " }"@
            &&& m@.len() > 3 ==> s == "{ "@ + joined(es.take(3)) + ", ... }"@
        }),
{
    let es = entry_texts(m@);
    let n = m@.len();
    let s = spec_format_json(JsonValue::Object(m));
    if n >= 1 {
        assert(es[0] == entry_text(m@[0].0@, spec_format_json(m@[0].1)));
        assert(es.take(1).len() == 1 && es.take(1)[0] == es[0]);
        assert(joined(es.take(1)) == es[0]);
    }
    if n >= 2 {
        assert(es[1] == entry_text(m@[1].0@, spec_format_json(m@[1].1)));
        assert(es.take(2).drop_last() =~= es.take(1));
        assert(joined(es.take(2)) == joined(es.take(1)) + ", "@ + es[1]);
    }
    if n >= 3 {
        assert(es[2] == entry_text(m@[2].0@, spec_format_json(m@[2].1)));
        assert(es.take(3).drop_last() =~= es.take(2));
        assert(joined(es.take(3)) == joined(es.take(2)) + ", "@ + es[2]);
    }
    if n == 0 {
        assert(joined(es) == Seq::<char>::empty());
        assert(s =~= "{ "@ + joined(es) + " }"@);
    } else if n == 1 {
        assert(es =~= es.take(1));
        assert(s =~= "{ "@ + joined(es) + " }"@);
    } else if n == 2 {
        assert(es =~= es.take(2));
        assert(s =~= "{ "@ + joined(es) + " }"@);
    } else if n == 3 {
        assert(es =~= es.take(3));
        assert(s =~= "{ "@ + joined(es) + " }"@);
    } else {
        assert(s =~= "{ "@ + joined(es.take(3)) + ", ... }"@);
    }
}

/// An array of at most three items shows them all, joined, between `[` and
/// `]`; a larger one shows only how many items it has.
pub proof fn lemma_array_rendering(a: Vec<JsonValue>)
    ensures
        ({
            let s = spec_format_json(JsonValue::Array(a));
            &&& a@.len() <= 3 ==> s == "["@ + joined(item_texts(a@)) + "]"@
            &&& a@.len() > 3 ==> s == "["@ + dec(a@.len()) + " items]"@
        }),
{
    let xs = item_texts(a@);
    let n = a@.len();
    let s = spec_format_json(JsonValue::Array(a));
    if n >= 1 {
        assert(xs[0] == spec_format_json(a@[0]));
        assert(xs.take(1).len() == 1 && xs.take(1)[0] == xs[0]);
        assert(joined(xs.take(1)) == xs[0]);
    }
    if n >= 2 {
        assert(xs[1] == spec_format_json(a@[1]));
        assert(xs.take(2).drop_last() =~= xs.take(1));
        assert(joined(xs.take(2)) == joined(xs.take(1)) + ", "@ + xs[1]);
    }
    if n >= 3 {
        assert(xs[2] == spec_format_json(a@[2]));
        assert(xs.take(3).drop_last() =~= xs.take(2));
        assert(joined(xs.take(3)) == joined(xs.take(2)) + ", "@ + xs[2]);
    }
    if n == 0 {
        assert(joined(xs) == Seq::<char>::empty());
        reveal_strlit("[]");
        reveal_strlit("[");
        reveal_strlit("]");
        assert(s =~= "["@ + joined(xs) + "]"@);
    } else if n == 1 {
        assert(xs =~= xs.take(1));
        assert(s =~= "["@ + joined(xs) + "]"@);
    } else if n == 2 {
        assert(xs =~= xs.take(2));
        assert(s =~= "["@ + joined(xs) + "]"@);
    } else if n == 3 {
        assert(xs =~= xs.take(3));
        assert(s =~= "["@ + joined(xs) + "]"@);
    }
}

} // verus!
