//! The header map built from the headers a caller gives: every pair whose
//! name and value are valid HTTP is kept, the name in small letters.
use crate::spider_calls::{
    ascii_lowercase, header_appended, header_entries, header_map_new, header_map_try_append,
    header_name_accepted, header_name_parse, header_name_set, header_name_text,
    header_value_accepted, header_value_bytes, header_value_parse, last_named,
};
use spider::reqwest::header::HeaderMap;
use vstd::prelude::*;
use vstd::utf8::encode_utf8;

verus! {

/// The entries of a header map made from the first `n` pairs: each valid
/// pair is appended in turn, its name in small letters (see
/// `header_appended`).
pub open spec fn kept_headers(pairs: Seq<(String, String)>, n: int) -> Seq<(Seq<char>, Seq<u8>)>
    decreases n,
{
    if n <= 0 {
        Seq::empty()
    } else {
        let kept = kept_headers(pairs, n - 1);
        let (name, value) = pairs[n - 1];
        if header_name_accepted(name@) && header_value_accepted(value@) {
            header_appended(kept, (ascii_lowercase(name@), encode_utf8(value@)))
        } else {
            kept
        }
    }
}

/// The names the pairs ask for, in small letters.
pub open spec fn pair_names(pairs: Seq<(String, String)>) -> Set<Seq<char>> {
    pairs.map_values(|p: (String, String)| ascii_lowercase(p.0@)).to_set()
}

/// `last_named` is -1 or the position of an entry under the name.
pub proof fn lemma_last_named_bounds(entries: Seq<(Seq<char>, Seq<u8>)>, name: Seq<char>)
    ensures
        -1 <= last_named(entries, name) < entries.len(),
    decreases entries.len(),
{
    if entries.len() > 0 && entries.last().0 != name {
        lemma_last_named_bounds(entries.drop_last(), name);
    }
}

/// Appending an entry whose name is in `names` keeps the map's names in
/// `names`.
proof fn lemma_names_appended(
    entries: Seq<(Seq<char>, Seq<u8>)>,
    e: (Seq<char>, Seq<u8>),
    names: Set<Seq<char>>,
)
    requires
        header_name_set(entries).subset_of(names),
        names.contains(e.0),
    ensures
        header_name_set(header_appended(entries, e)).subset_of(names),
{
    let after = header_appended(entries, e);
    let k = last_named(entries, e.0);
    lemma_last_named_bounds(entries, e.0);
    if k >= 0 {
        entries.insert_ensures(k + 1, e);
    }
    assert forall|x: Seq<char>| header_name_set(after).contains(x) implies names.contains(x) by {
        let m = after.map_values(|f: (Seq<char>, Seq<u8>)| f.0);
        assert(m.contains(x));
        let idx = choose|idx: int| 0 <= idx < m.len() && m[idx] == x;
        assert(after[idx].0 == x);
        let src: int = if k < 0 {
            idx
        } else if idx <= k {
            idx
        } else {
            idx - 1
        };
        if after[idx] != e {
            if k < 0 {
                assert(idx < entries.len());
            } else {
                assert(idx != k + 1);
            }
            assert(entries[src] == after[idx]);
            let n = entries.map_values(|f: (Seq<char>, Seq<u8>)| f.0);
            assert(n[src] == x);
            assert(n.contains(x));
            assert(header_name_set(entries).contains(x));
        }
    }
}

/// The header map of the pairs (see `kept_headers`). The map can refuse to
/// grow past a few thousand names (see `header_map_try_append`); it is then
/// left with the entries of the pairs before the refused one. With fewer than
/// 6554 distinct names asked for, it never refuses.
pub fn header_map(pairs: &Vec<(String, String)>) -> (map: HeaderMap)
    ensures
        exists|k: int| 0 <= k <= pairs@.len() && header_entries(map) == kept_headers(pairs@, k),
        pair_names(pairs@).len() < 6554 ==> header_entries(map) == kept_headers(
            pairs@,
            pairs@.len() as int,
        ),
{
    let mut map = header_map_new();
    let mut i: usize = 0;
    while i < pairs.len()
        invariant
            i <= pairs@.len(),
            header_entries(map) == kept_headers(pairs@, i as int),
            pair_names(pairs@).len() < 6554 ==> header_name_set(header_entries(map)).subset_of(
                pair_names(pairs@),
            ),
        decreases pairs@.len() - i,
    {
        let (key, value) = &pairs[i];
        let ghost before = header_entries(map);
        let ghost small = pair_names(pairs@).len() < 6554;
        proof {
            let names = pairs@.map_values(|p: (String, String)| ascii_lowercase(p.0@));
            vstd::seq_lib::seq_to_set_is_finite(names);
            if small {
                vstd::set_lib::lemma_len_subset(header_name_set(before), pair_names(pairs@));
            }
            assert(names[i as int] == ascii_lowercase(key@));
            assert(pair_names(pairs@).contains(ascii_lowercase(key@)));
        }
        match header_name_parse(key.as_str()) {
            Ok(name) => match header_value_parse(value.as_str()) {
                Ok(v) => {
                    let ghost e = (header_name_text(name), header_value_bytes(v));
                    match header_map_try_append(&mut map, name, v) {
                        Ok(_) => {
                            proof {
                                if small {
                                    lemma_names_appended(before, e, pair_names(pairs@));
                                }
                            }
                        },
                        Err(_) => {
                            return map;
                        },
                    }
                },
                Err(_) => {},
            },
            Err(_) => {},
        }
        i = i + 1;
    }
    map
}

} // verus!
