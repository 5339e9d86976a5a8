//! Properties that relate several operations of the library.
use crate::conversions::{decimal, object_text, signed_decimal, ObjectField};
use crate::export::{
    default_file_of, directory_of, file_of, last_index_of, lemma_last_index_bounds,
};
use crate::registry::{can_allocate, lemma_highest_id, next_handle_id, with_id, without_id};
use crate::website::{
    can_plan, openai_after, plan_matches, planned_view, CrawlKind, CrawlPlan, OpenAiEntry, WebsiteView,
};
use crate::headers::{kept_headers, lemma_last_named_bounds};
use crate::spider_calls::{
    ascii_lowercase, header_appended, header_name_accepted, header_value_accepted, last_named,
};
use vstd::prelude::*;
use vstd::utf8::encode_utf8;

verus! {

/// The id handed out next is one more than the highest registered id (0 for
/// none): above every registered id, so it is not registered yet and
/// registering it adds it last.
pub proof fn lemma_next_id_is_fresh(ids: Seq<u32>)
    requires
        can_allocate(ids),
    ensures
        ids.len() == 0 ==> next_handle_id(ids) == 0,
        ids.len() > 0 ==> ids.contains((next_handle_id(ids) - 1) as u32),
        forall|k: int| 0 <= k < ids.len() ==> ids[k] < next_handle_id(ids),
        !ids.contains(next_handle_id(ids)),
        with_id(ids, next_handle_id(ids)) == ids.push(next_handle_id(ids)),
{
    lemma_highest_id(ids);
    let id = next_handle_id(ids);
    if ids.contains(id) {
        let k = choose|k: int| 0 <= k < ids.len() && ids[k] == id;
        assert(ids[k] < id);
    }
}

/// Removing an id that was just registered as a fresh id gives back the
/// registry as it was.
pub proof fn lemma_register_then_remove(ids: Seq<u32>, id: u32)
    requires
        ids.no_duplicates(),
        !ids.contains(id),
    ensures
        without_id(with_id(ids, id), id) == ids,
{
    let s = ids.push(id);
    assert(s[ids.len() as int] == id);
    assert(s.contains(id));
    let i = choose|i: int| 0 <= i < s.len() && s[i] == id;
    if i < ids.len() {
        assert(ids[i] == id);
        assert(false);
    }
    assert(s.update(i, s.last()).drop_last() =~= ids);
}

/// Subscribing and then unsubscribing the id just handed out succeeds and
/// gives back the subscriptions as they were.
pub proof fn lemma_subscribe_then_unsubscribe(ids: Seq<u32>)
    requires
        ids.no_duplicates(),
        can_allocate(ids),
    ensures
        with_id(ids, next_handle_id(ids)).contains(next_handle_id(ids)),
        without_id(with_id(ids, next_handle_id(ids)), next_handle_id(ids)) == ids,
{
    let id = next_handle_id(ids);
    lemma_next_id_is_fresh(ids);
    assert(ids.push(id)[ids.len() as int] == id);
    lemma_register_then_remove(ids, id);
}

/// Removing the most recently registered id drops it and keeps the others
/// in their order.
pub proof fn lemma_remove_last(ids: Seq<u32>)
    requires
        ids.no_duplicates(),
        ids.len() > 0,
    ensures
        without_id(ids, ids.last()) == ids.drop_last(),
{
    let id = ids.last();
    assert(ids[ids.len() - 1] == id);
    assert(ids.contains(id));
    let i = choose|i: int| 0 <= i < ids.len() && ids[i] == id;
    assert(i == ids.len() - 1);
    assert(ids.update(i, ids.last()).drop_last() =~= ids.drop_last());
}

/// The text of an object always opens and closes with a brace.
pub proof fn lemma_object_text_braced(fields: Seq<ObjectField>)
    ensures
        object_text(fields).len() >= 2,
        object_text(fields)[0] == 123u8,
        object_text(fields).last() == 125u8,
{
}

/// An object without fields is written `{}`.
pub proof fn lemma_empty_object_text()
    ensures
        object_text(Seq::<ObjectField>::empty()) == seq![123u8, 125u8],
{
    assert(object_text(Seq::<ObjectField>::empty()) =~= seq![123u8, 125u8]);
}

/// Every export file name holds a `.`: the given path when it has one,
/// otherwise its `.jsonl` suffix, and the default file its leading `./`.
pub proof fn lemma_export_file_has_dot(path: Seq<char>, url: Seq<char>)
    ensures
        file_of(path).contains('.'),
        default_file_of(url).contains('.'),
{
    if !path.contains('.') {
        let f = file_of(path);
        assert(f[path.len() as int] == '.');
    }
    assert(default_file_of(url)[0] == '.');
}

/// The file an export writes lies in the directory it creates: when the
/// path holds a `/`, the file's path is that directory, a `/`, then the name.
pub proof fn lemma_file_in_directory(path: Seq<char>)
    requires
        path.contains('/'),
    ensures
        file_of(path).len() > directory_of(path).len(),
        file_of(path).subrange(0, directory_of(path).len() as int) == directory_of(path),
        file_of(path)[directory_of(path).len() as int] == '/',
{
    lemma_last_index_bounds(path, '/');
    let j = last_index_of(path, '/');
    if j < 0 {
        let w = choose|w: int| 0 <= w < path.len() && path[w] == '/';
        assert(path[w] != '/');
    }
    assert(file_of(path)[j] == path[j]);
    assert(file_of(path).subrange(0, j) =~= path.subrange(0, j));
}

/// Removing an id that is not registered (a repeated `unsubscribe` or
/// `stop`) leaves the ids as they are.
pub proof fn lemma_remove_absent_is_noop(ids: Seq<u32>, id: u32)
    requires
        !ids.contains(id),
    ensures
        without_id(ids, id) == ids,
{
}

/// Whether a byte is an ASCII decimal digit.
pub open spec fn is_digit(b: u8) -> bool {
    48 <= b <= 57
}

/// The number a string of ASCII decimal digits stands for, read in base 10.
pub open spec fn numeral_value(digits: Seq<u8>) -> int
    decreases digits.len(),
{
    if digits.len() == 0 {
        0
    } else {
        numeral_value(digits.drop_last()) * 10 + (digits.last() - 48)
    }
}

/// The number a numeral with an optional leading `-` stands for.
pub open spec fn signed_numeral_value(text: Seq<u8>) -> int {
    if text.len() > 0 && text[0] == 45u8 {
        -numeral_value(text.drop_first())
    } else {
        numeral_value(text)
    }
}

/// The digits written for a number are its base-10 numeral: at least one
/// digit, all of them digits, no leading zero, and they read back as the
/// number.
pub proof fn lemma_decimal_reads_back(n: nat)
    ensures
        decimal(n).len() >= 1,
        forall|i: int| 0 <= i < decimal(n).len() ==> is_digit(#[trigger] decimal(n)[i]),
        n > 0 ==> decimal(n)[0] != 48u8,
        numeral_value(decimal(n)) == n,
    decreases n,
{
    if n >= 10 {
        lemma_decimal_reads_back(n / 10);
        let d = decimal(n / 10);
        let s = d + seq![(48 + n % 10) as u8];
        assert(decimal(n) == s);
        assert(s.drop_last() =~= d);
        assert(s.last() == (48 + n % 10) as u8);
        vstd::arithmetic::div_mod::lemma_fundamental_div_mod(n as int, 10);
        assert forall|i: int| 0 <= i < s.len() implies is_digit(#[trigger] s[i]) by {
            if i < d.len() {
                assert(s[i] == d[i]);
            }
        }
        assert(s[0] == d[0]);
        assert(((48 + n % 10) as u8) - 48 == n % 10);
        assert(numeral_value(s) == numeral_value(d) * 10 + n % 10);
    } else {
        let s = seq![(48 + n) as u8];
        assert(decimal(n) == s);
        assert(s.drop_last() =~= Seq::<u8>::empty());
        assert(numeral_value(s) == numeral_value(Seq::<u8>::empty()) * 10 + (s.last() - 48));
    }
}

/// The text written for a signed number reads back as that number: its
/// digits after a `-` exactly when it is negative.
pub proof fn lemma_signed_decimal_reads_back(i: int)
    ensures
        signed_numeral_value(signed_decimal(i)) == i,
        (signed_decimal(i)[0] == 45u8) <==> i < 0,
{
    if i < 0 {
        lemma_decimal_reads_back((-i) as nat);
        assert(signed_decimal(i).drop_first() =~= decimal((-i) as nat));
    } else {
        lemma_decimal_reads_back(i as nat);
        if i == 0 {
            assert(decimal(0) == seq![48u8]);
        } else {
            assert(is_digit(decimal(i as nat)[0]));
        }
    }
}

/// A run goes to the background exactly when asked. Then it runs on a
/// detached copy of the crawler, registered under a crawl id above every live
/// one, and the website is marked as running in the background; otherwise it
/// runs on the website's own crawler and the crawl ids and the mark stay as
/// they were. A callback's listener gets a subscription id above every live
/// one exactly when the run is in the background or its listener is to be
/// registered; a foreground listener that is not registered is awaited. The
/// run's kind and the stored data are never changed.
pub proof fn lemma_plan_background_exactly_when_asked(
    plan: CrawlPlan,
    old: WebsiteView,
    kind: CrawlKind,
    with_callback: bool,
    background: bool,
    register_listener: bool,
    capacity: usize,
)
    requires
        can_plan(old, with_callback, background, register_listener, capacity),
        plan_matches(plan, old, kind, with_callback, background, register_listener),
    ensures
        plan.kind == kind,
        plan.detached is Some <==> background,
        plan.crawl_id is Some <==> background,
        plan.receiver is Some <==> with_callback,
        background ==> {
            let id = plan.crawl_id.unwrap();
            &&& forall|k: int| 0 <= k < old.crawls.len() ==> old.crawls[k] < id
            &&& planned_view(old, with_callback, background, register_listener).crawls
                == old.crawls.push(id)
            &&& planned_view(old, with_callback, background, register_listener).running_in_background
        },
        !background ==> planned_view(old, with_callback, background, register_listener).crawls
            == old.crawls,
        !background ==> planned_view(
            old,
            with_callback,
            background,
            register_listener,
        ).running_in_background == old.running_in_background,
        plan.subscription_id is Some <==> (with_callback && (background || register_listener)),
        plan.subscription_id matches Some(id) ==> {
            &&& forall|k: int| 0 <= k < old.subscriptions.len() ==> old.subscriptions[k] < id
            &&& planned_view(old, with_callback, background, register_listener).subscriptions
                == old.subscriptions.push(id)
        },
        plan.subscription_id is None ==> planned_view(
            old,
            with_callback,
            background,
            register_listener,
        ).subscriptions == old.subscriptions,
        plan.await_listener <==> (with_callback && !background && !register_listener),
        planned_view(old, with_callback, background, register_listener).collected == old.collected,
        planned_view(old, with_callback, background, register_listener).raw_content
            == old.raw_content,
{
    if background {
        lemma_next_id_is_fresh(old.crawls);
    }
    if with_callback && (background || register_listener) {
        lemma_next_id_is_fresh(old.subscriptions);
    }
}

/// Whether a pair makes a header: its name and its value are valid.
pub open spec fn valid_header_pair(pair: (String, String)) -> bool {
    header_name_accepted(pair.0@) && header_value_accepted(pair.1@)
}

/// The header entry a pair makes: the name in small letters, the value's
/// bytes exactly as given.
pub open spec fn header_entry_of(pair: (String, String)) -> (Seq<char>, Seq<u8>) {
    (ascii_lowercase(pair.0@), encode_utf8(pair.1@))
}

/// The number of valid pairs among the first `n`.
pub open spec fn valid_pair_count(pairs: Seq<(String, String)>, n: int) -> nat
    decreases n,
{
    if n <= 0 {
        0
    } else {
        valid_pair_count(pairs, n - 1) + if valid_header_pair(pairs[n - 1]) {
            1nat
        } else {
            0nat
        }
    }
}

/// Appending an entry adds that entry and keeps every other one.
proof fn lemma_appended_elements(entries: Seq<(Seq<char>, Seq<u8>)>, e: (Seq<char>, Seq<u8>))
    ensures
        header_appended(entries, e).len() == entries.len() + 1,
        header_appended(entries, e).contains(e),
        forall|j: int|
            0 <= j < entries.len() ==> header_appended(entries, e).contains(#[trigger] entries[j]),
        forall|i: int|
            0 <= i < header_appended(entries, e).len() ==> #[trigger] header_appended(entries, e)[i]
                == e || entries.contains(header_appended(entries, e)[i]),
{
    lemma_last_named_bounds(entries, e.0);
    let k = last_named(entries, e.0);
    let after = header_appended(entries, e);
    if k < 0 {
        assert(after == entries.push(e));
        assert(after[entries.len() as int] == e);
        assert forall|j: int| 0 <= j < entries.len() implies after.contains(#[trigger] entries[j]) by {
            assert(after[j] == entries[j]);
        }
        assert forall|i: int| 0 <= i < after.len() implies #[trigger] after[i] == e
            || entries.contains(after[i]) by {
            if i < entries.len() {
                assert(after[i] == entries[i]);
            }
        }
    } else {
        entries.insert_ensures(k + 1, e);
        assert(after[k + 1] == e);
        assert forall|j: int| 0 <= j < entries.len() implies after.contains(#[trigger] entries[j]) by {
            if j <= k {
                assert(after[j] == entries[j]);
            } else {
                assert(after[j + 1] == entries[j]);
            }
        }
        assert forall|i: int| 0 <= i < after.len() implies #[trigger] after[i] == e
            || entries.contains(after[i]) by {
            if i <= k {
                assert(after[i] == entries[i]);
            } else if i > k + 1 {
                assert(after[i] == entries[i - 1]);
            }
        }
    }
}

/// The headers made from pairs are exactly the valid pairs' entries: one per
/// valid pair, each the pair's name in small letters with its value byte for
/// byte, and every valid pair's entry among them.
pub proof fn lemma_header_entries_come_from_pairs(pairs: Seq<(String, String)>, n: int)
    requires
        0 <= n <= pairs.len(),
    ensures
        kept_headers(pairs, n).len() == valid_pair_count(pairs, n),
        forall|i: int|
            0 <= i < kept_headers(pairs, n).len() ==> exists|j: int|
                0 <= j < n && valid_header_pair(pairs[j]) && #[trigger] kept_headers(pairs, n)[i]
                    == header_entry_of(pairs[j]),
        forall|j: int|
            0 <= j < n && valid_header_pair(#[trigger] pairs[j]) ==> kept_headers(pairs, n).contains(
                header_entry_of(pairs[j]),
            ),
    decreases n,
{
    if n > 0 {
        lemma_header_entries_come_from_pairs(pairs, n - 1);
        let prev = kept_headers(pairs, n - 1);
        let p = pairs[n - 1];
        if valid_header_pair(p) {
            let e = header_entry_of(p);
            lemma_appended_elements(prev, e);
            let cur = kept_headers(pairs, n);
            assert(cur == header_appended(prev, e));
            assert forall|i: int| 0 <= i < cur.len() implies exists|j: int|
                0 <= j < n && valid_header_pair(pairs[j]) && #[trigger] cur[i] == header_entry_of(
                    pairs[j],
                ) by {
                if cur[i] == e {
                    assert(valid_header_pair(pairs[n - 1]) && cur[i] == header_entry_of(pairs[n - 1]));
                } else {
                    assert(prev.contains(cur[i]));
                    let w = choose|w: int| 0 <= w < prev.len() && prev[w] == cur[i];
                    assert(prev[w] == cur[i]);
                }
            }
            assert forall|j: int| 0 <= j < n && valid_header_pair(#[trigger] pairs[j]) implies cur.contains(
                header_entry_of(pairs[j]),
            ) by {
                if j < n - 1 {
                    assert(prev.contains(header_entry_of(pairs[j])));
                    let w = choose|w: int| 0 <= w < prev.len() && prev[w] == header_entry_of(pairs[j]);
                    assert(cur.contains(prev[w]));
                }
            }
        } else {
            assert(kept_headers(pairs, n) == prev);
        }
    }
}

/// Whether entry `j` is the last of the first `n` entries under `key`.
pub open spec fn last_under(entries: Seq<OpenAiEntry>, n: int, j: int, key: Seq<char>) -> bool {
    &&& 0 <= j < n
    &&& entries[j].key@ == key
    &&& forall|k: int| j < k < n ==> entries[k].key@ != key
}

/// Whether none of the first `n` entries is under `key`.
pub open spec fn none_under(entries: Seq<OpenAiEntry>, n: int, key: Seq<char>) -> bool {
    forall|k: int| 0 <= k < n ==> entries[k].key@ != key
}

/// Each OpenAI setting comes from the last entry under its key, wherever the
/// entries stand and whatever other keys come before or after: the model is
/// the text of the `model` entry, the prompt that of the `prompt` entry, the
/// max tokens the number of the `maxTokens` entry; without such an entry the
/// model and prompt are empty and the max tokens 1.
pub proof fn lemma_openai_setting_from_its_entry(entries: Seq<OpenAiEntry>, n: int)
    requires
        0 <= n <= entries.len(),
    ensures
        forall|j: int|
            last_under(entries, n, j, "model"@) ==> #[trigger] entries[j].text@ == openai_after(
                entries,
                n,
            ).0,
        none_under(entries, n, "model"@) ==> openai_after(entries, n).0 == Seq::<char>::empty(),
        forall|j: int|
            last_under(entries, n, j, "prompt"@) ==> #[trigger] entries[j].text@ == openai_after(
                entries,
                n,
            ).1,
        none_under(entries, n, "prompt"@) ==> openai_after(entries, n).1 == Seq::<char>::empty(),
        forall|j: int|
            last_under(entries, n, j, "maxTokens"@) ==> #[trigger] entries[j].number
                == openai_after(entries, n).2,
        none_under(entries, n, "maxTokens"@) ==> openai_after(entries, n).2 == 1u16,
    decreases n,
{
    reveal_strlit("model");
    reveal_strlit("prompt");
    reveal_strlit("maxTokens");
    assert("model"@[0] != "prompt"@[0]);
    assert("model"@[1] != "maxTokens"@[1]);
    assert("prompt"@[0] != "maxTokens"@[0]);
    if n > 0 {
        lemma_openai_setting_from_its_entry(entries, n - 1);
        let e = entries[n - 1];
        assert forall|j: int, key: Seq<char>|
            last_under(entries, n, j, key) && j < n - 1 implies last_under(entries, n - 1, j, key) by {}
        assert forall|j: int, key: Seq<char>|
            last_under(entries, n, j, key) && e.key@ != key implies j < n - 1 by {}
        assert forall|j: int, key: Seq<char>|
            last_under(entries, n, j, key) && e.key@ == key implies j == n - 1 by {
            if j < n - 1 {
                assert(entries[n - 1].key@ != key);
            }
        }
        assert forall|key: Seq<char>| none_under(entries, n, key) implies none_under(
            entries,
            n - 1,
            key,
        ) && e.key@ != key by {
            assert(entries[n - 1].key@ != key);
        }
    }
}

/// The entries of the valid pairs among the first `n`, in the pairs' order.
pub open spec fn valid_entries(pairs: Seq<(String, String)>, n: int) -> Seq<(Seq<char>, Seq<u8>)>
    decreases n,
{
    if n <= 0 {
        Seq::empty()
    } else if valid_header_pair(pairs[n - 1]) {
        valid_entries(pairs, n - 1).push(header_entry_of(pairs[n - 1]))
    } else {
        valid_entries(pairs, n - 1)
    }
}

/// Whether no two valid pairs among the first `n` name the same header (up to
/// the case of ASCII letters).
pub open spec fn valid_names_distinct(pairs: Seq<(String, String)>, n: int) -> bool {
    forall|a: int, b: int|
        0 <= a < b < n && valid_header_pair(#[trigger] pairs[a]) && valid_header_pair(
            #[trigger] pairs[b],
        ) ==> ascii_lowercase(pairs[a].0@) != ascii_lowercase(pairs[b].0@)
}

/// A position `last_named` finds holds an entry under the name.
proof fn lemma_last_named_hit(entries: Seq<(Seq<char>, Seq<u8>)>, name: Seq<char>)
    ensures
        last_named(entries, name) >= 0 ==> entries[last_named(entries, name)].0 == name,
    decreases entries.len(),
{
    if entries.len() > 0 && entries.last().0 != name {
        lemma_last_named_hit(entries.drop_last(), name);
        lemma_last_named_bounds(entries.drop_last(), name);
        let k = last_named(entries.drop_last(), name);
        if k >= 0 {
            assert(entries.drop_last()[k] == entries[k]);
        }
    }
}

/// When the valid pairs name different headers, the headers are the valid
/// pairs' entries in the pairs' order.
pub proof fn lemma_distinct_headers_keep_pair_order(pairs: Seq<(String, String)>, n: int)
    requires
        0 <= n <= pairs.len(),
        valid_names_distinct(pairs, n),
    ensures
        kept_headers(pairs, n) == valid_entries(pairs, n),
    decreases n,
{
    if n > 0 {
        assert(valid_names_distinct(pairs, n - 1));
        lemma_distinct_headers_keep_pair_order(pairs, n - 1);
        let prev = kept_headers(pairs, n - 1);
        let p = pairs[n - 1];
        if valid_header_pair(p) {
            let e = header_entry_of(p);
            lemma_last_named_bounds(prev, e.0);
            lemma_last_named_hit(prev, e.0);
            let k = last_named(prev, e.0);
            if k >= 0 {
                lemma_header_entries_come_from_pairs(pairs, n - 1);
                let j = choose|j: int|
                    0 <= j < n - 1 && valid_header_pair(pairs[j]) && prev[k] == header_entry_of(
                        pairs[j],
                    );
                assert(valid_header_pair(pairs[j]) && valid_header_pair(pairs[n - 1]));
                assert(false);
            }
            assert(kept_headers(pairs, n) == prev.push(e));
        }
    }
}

} // verus!
