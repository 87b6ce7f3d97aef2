//! Trusted boundary to the JSON decoder, plus verified access to the
//! decoded entries.
//!
//! The publish endpoint accepts a JSON object; the five required fields
//! must be strings, while any extra field may carry any JSON value.
//! Decoding is delegated to `serde_json`; everything downstream of the
//! decoder (field lookup, string-ness checks, record construction,
//! routing) is verified against the abstract field map named by
//! `json_object_fields`.

use vstd::prelude::*;

verus! {

use crate::str_eq;

/// The abstract result of decoding a byte sequence as one JSON object:
/// `Some(m)` when the bytes decode to an object, where `m` maps each key
/// to `Some(s)` when its value is the JSON string `s` and to `None` when
/// its value is any other JSON value; `None` when the bytes do not decode
/// to an object. The decoder's output depends on the bytes alone, so this
/// is a well-defined function of the input.
pub uninterp spec fn json_object_fields(b: Seq<u8>) -> Option<Map<Seq<char>, Option<Seq<char>>>>;

/// The string content of one decoded entry's value: `Some(s)` for the
/// JSON string `s`, `None` for a value of any other kind.
pub open spec fn spec_entry_val(e: Option<String>) -> Option<Seq<char>> {
    match e {
        Some(s) => Some(s@),
        None => None,
    }
}

/// The entry list `v` holds exactly the entries of the field map `m`:
/// every listed pair is in the map, and every key of the map is listed.
pub open spec fn entries_agree(
    v: Seq<(String, Option<String>)>,
    m: Map<Seq<char>, Option<Seq<char>>>,
) -> bool {
    &&& forall|i: int|
        0 <= i < v.len() ==> m.contains_key(#[trigger] v[i].0@) && m[v[i].0@] == spec_entry_val(
            v[i].1,
        )
    &&& forall|k: Seq<char>|
        #[trigger] m.contains_key(k) ==> exists|i: int| 0 <= i < v.len() && v[i].0@ == k
}

/// The value of the first entry of `v` whose key is `k`: `None` when no
/// entry has that key, else `Some` of that entry's string content.
pub open spec fn field_at(v: Seq<(String, Option<String>)>, k: Seq<char>) -> Option<
    Option<Seq<char>>,
>
    decreases v.len(),
{
    if v.len() == 0 {
        None
    } else if v[0].0@ == k {
        Some(spec_entry_val(v[0].1))
    } else {
        field_at(v.drop_first(), k)
    }
}

/// A found field points at an entry of the list.
pub proof fn lemma_field_at_some(v: Seq<(String, Option<String>)>, k: Seq<char>, f: Option<
    Seq<char>,
>)
    requires
        field_at(v, k) == Some(f),
    ensures
        exists|i: int| 0 <= i < v.len() && (#[trigger] v[i]).0@ == k && spec_entry_val(v[i].1) == f,
    decreases v.len(),
{
    if v.len() > 0 {
        if v[0].0@ == k {
            assert(0 <= 0 < v.len() && v[0].0@ == k && spec_entry_val(v[0].1) == f);
        } else {
            lemma_field_at_some(v.drop_first(), k, f);
            let j = choose|j: int|
                0 <= j < v.drop_first().len() && (#[trigger] v.drop_first()[j]).0@ == k
                    && spec_entry_val(v.drop_first()[j].1) == f;
            assert(v.drop_first()[j] == v[j + 1]);
            assert(0 <= j + 1 < v.len() && v[j + 1].0@ == k && spec_entry_val(v[j + 1].1) == f);
        }
    }
}

/// A missing field has no entry in the list.
pub proof fn lemma_field_at_none(v: Seq<(String, Option<String>)>, k: Seq<char>)
    requires
        field_at(v, k) is None,
    ensures
        forall|i: int| 0 <= i < v.len() ==> (#[trigger] v[i]).0@ != k,
    decreases v.len(),
{
    if v.len() > 0 {
        lemma_field_at_none(v.drop_first(), k);
        assert forall|i: int| 0 <= i < v.len() implies (#[trigger] v[i]).0@ != k by {
            if i > 0 {
                assert(v.drop_first()[i - 1] == v[i]);
            }
        }
    }
}

/// Under `entries_agree`, a field of the list is a field of the map.
pub proof fn lemma_field_at_entries(
    v: Seq<(String, Option<String>)>,
    m: Map<Seq<char>, Option<Seq<char>>>,
    k: Seq<char>,
)
    requires
        entries_agree(v, m),
    ensures
        match field_at(v, k) {
            Some(f) => m.contains_key(k) && m[k] == f,
            None => !m.contains_key(k),
        },
{
    match field_at(v, k) {
        Some(f) => {
            lemma_field_at_some(v, k, f);
            let i = choose|i: int|
                0 <= i < v.len() && (#[trigger] v[i]).0@ == k && spec_entry_val(v[i].1) == f;
            assert(m.contains_key(v[i].0@) && m[v[i].0@] == spec_entry_val(v[i].1));
        },
        None => {
            lemma_field_at_none(v, k);
            if m.contains_key(k) {
                let i = choose|i: int| 0 <= i < v.len() && v[i].0@ == k;
                assert(v[i].0@ != k);
            }
        },
    }
}

#[verifier::external_type_specification]
#[verifier::external_body]
pub struct ExSerdeJsonError(serde_json::Error);

/// Relies on `serde_json::from_slice`: deserializing into a map of
/// `String` to `serde_json::Value` succeeds exactly when the bytes are one
/// JSON object, whatever kinds of values it carries; and on
/// `serde_json::Value::as_str`, which tells a JSON string apart from every
/// other value. A duplicated key is not observable through a map decode:
/// only its last occurrence reaches the map, so a body that repeats a key
/// decodes here instead of failing.
#[verifier::external_body]
pub(crate) fn parse_object_fields(body: &[u8]) -> (r: Result<
    Vec<(String, Option<String>)>,
    serde_json::Error,
>)
    ensures
        match r {
            Ok(v) => json_object_fields(body@) matches Some(m) && entries_agree(v@, m),
            Err(_) => json_object_fields(body@) is None,
        },
{
    match serde_json::from_slice::<std::collections::BTreeMap<String, serde_json::Value>>(body) {
        Ok(m) => Ok(
            m.into_iter().map(|(k, v)| (k, v.as_str().map(|s| s.to_owned()))).collect(),
        ),
        Err(e) => Err(e),
    }
}

/// Linear search for `key` among the decoded entries: absent, or present
/// with its string content.
pub(crate) fn lookup(entries: &Vec<(String, Option<String>)>, key: &str) -> (r: Option<
    Option<String>,
>)
    ensures
        match r {
            Some(e) => field_at(entries@, key@) == Some(spec_entry_val(e)),
            None => field_at(entries@, key@) is None,
        },
{
    let n = entries.len();
    let mut i: usize = 0;
    proof {
        assert(entries@.subrange(0, n as int) =~= entries@);
    }
    while i < n
        invariant
            n == entries@.len(),
            i <= n,
            field_at(entries@, key@) == field_at(entries@.subrange(i as int, n as int), key@),
        decreases n - i,
    {
        let hit = str_eq(entries[i].0.as_str(), key);
        proof {
            let sub = entries@.subrange(i as int, n as int);
            assert(sub[0] == entries@[i as int]);
            assert(sub.drop_first() =~= entries@.subrange(i as int + 1, n as int));
        }
        if hit {
            let val = match &entries[i].1 {
                Some(s) => Some(s.clone()),
                None => None,
            };
            return Some(val);
        }
        i = i + 1;
    }
    proof {
        assert(entries@.subrange(n as int, n as int) =~= Seq::<(String, Option<String>)>::empty());
    }
    None
}

} // verus!
