//! Query strings: ordered `name=value` fields joined by `&`.
use vstd::prelude::*;

use crate::text::{decimal_of, decimal_text};

verus! {

/// A query field as the contracts see it: its name and its value text.
pub type FieldView = (Seq<char>, Seq<char>);

/// The view of a list of executable fields.
pub open spec fn fields_view(fields: Seq<(String, String)>) -> Seq<FieldView> {
    fields.map_values(|f: (String, String)| (f.0@, f.1@))
}

/// `name=value`.
pub open spec fn field_text(f: FieldView) -> Seq<char> {
    f.0 + seq!['='] + f.1
}

/// The fields in order, each as `name=value`, separated by `&`, without any
/// encoding of the values.
pub open spec fn query_text(fields: Seq<FieldView>) -> Seq<char>
    decreases fields.len(),
{
    if fields.len() == 0 {
        Seq::empty()
    } else if fields.len() == 1 {
        field_text(fields[0])
    } else {
        query_text(fields.drop_last()) + seq!['&'] + field_text(fields.last())
    }
}

/// `&timestamp=<ms>`, the suffix that stamps a query with the time.
pub open spec fn timestamp_suffix(timestamp_ms: nat) -> Seq<char> {
    seq!['&'] + field_text(("timestamp"@, decimal_of(timestamp_ms)))
}

/// A query string followed by `&timestamp=<ms>`.
pub open spec fn stamped_text(query: Seq<char>, timestamp_ms: nat) -> Seq<char> {
    query + timestamp_suffix(timestamp_ms)
}

/// Adding a field to a non-empty list appends `&name=value` to its text.
pub proof fn lemma_query_text_push(fields: Seq<FieldView>, f: FieldView)
    ensures
        fields.len() == 0 ==> query_text(fields.push(f)) == field_text(f),
        fields.len() > 0 ==> query_text(fields.push(f)) == query_text(fields) + seq!['&'] + field_text(f),
{
    assert(fields.push(f).drop_last() =~= fields);
    if fields.len() == 0 {
        assert(fields.push(f)[0] == f);
    }
}

/// Makes the field `name=value`.
pub fn field(name: &str, value: String) -> (r: (String, String))
    ensures
        r.0@ == name@,
        r.1@ == value@,
{
    (String::from_str(name), value)
}

/// Renders fields in order as `name=value` pairs joined by `&`.
pub fn serialize(fields: &Vec<(String, String)>) -> (r: String)
    ensures
        r@ == query_text(fields_view(fields@)),
{
    let ghost all = fields_view(fields@);
    let mut s = String::new();
    let mut i: usize = 0;
    proof {
        reveal_strlit("&");
        reveal_strlit("=");
        assert(all.take(0) =~= Seq::<FieldView>::empty());
    }
    while i < fields.len()
        invariant
            i <= fields.len(),
            all == fields_view(fields@),
            s@ == query_text(all.take(i as int)),
        decreases fields.len() - i,
    {
        let ghost before = s@;
        if i > 0 {
            s.append("&");
        }
        s.append(fields[i].0.as_str());
        s.append("=");
        s.append(fields[i].1.as_str());
        proof {
            reveal_strlit("&");
            reveal_strlit("=");
            assert(all[i as int] == (fields@[i as int].0@, fields@[i as int].1@));
            assert(all.take(i as int).push(all[i as int]) =~= all.take(i + 1));
            lemma_query_text_push(all.take(i as int), all[i as int]);
            assert(s@ =~= query_text(all.take(i + 1)));
        }
        i += 1;
    }
    proof {
        assert(all.take(fields.len() as int) =~= all);
    }
    s
}

/// Appends `&timestamp=<ms>` to a query string.
pub fn append_timestamp(query: String, timestamp_ms: u64) -> (r: String)
    ensures
        r@ == stamped_text(query@, timestamp_ms as nat),
{
    let mut q = query;
    proof {
        reveal_strlit("&timestamp=");
        reveal_strlit("timestamp");
        assert("&timestamp="@ =~= seq!['&'] + "timestamp"@ + seq!['=']);
    }
    q.append("&timestamp=");
    let digits = decimal_text(timestamp_ms as u128);
    q.append(digits.as_str());
    proof {
        assert(q@ =~= stamped_text(query@, timestamp_ms as nat));
    }
    q
}

/// Renders the fields, then `&timestamp=<ms>`.
pub fn with_timestamp(fields: Vec<(String, String)>, timestamp_ms: u64) -> (r: String)
    ensures
        r@ == stamped_text(query_text(fields_view(fields@)), timestamp_ms as nat),
{
    append_timestamp(serialize(&fields), timestamp_ms)
}

} // verus!
