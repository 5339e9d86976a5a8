//! Where and what `export_jsonl_data` writes: the directory to create, the
//! file name, and the file's contents (the stored items, one per line).
use vstd::prelude::*;

verus! {

/// `str::chars` collected into a vector.
#[verifier::external_body]
pub(crate) fn chars_of(s: &str) -> (chars: Vec<char>)
    ensures
        chars@ == s@,
{
    s.chars().collect()
}

/// `String: FromIterator<char>`: the string of the given characters.
#[verifier::external_body]
pub(crate) fn string_from_chars(chars: &Vec<char>) -> (s: String)
    ensures
        s@ == chars@,
{
    chars.iter().collect()
}

/// The position of the last `c` in `s`, or -1 when there is none.
pub open spec fn last_index_of(s: Seq<char>, c: char) -> int
    decreases s.len(),
{
    if s.len() == 0 {
        -1
    } else if s.last() == c {
        s.len() - 1
    } else {
        last_index_of(s.drop_last(), c)
    }
}

/// The directory created for an export path: everything before its last
/// `/`, which is the directory the file goes in (nothing when the path has no
/// `/`).
pub open spec fn directory_of(path: Seq<char>) -> Seq<char> {
    let j = last_index_of(path, '/');
    if j < 0 {
        Seq::empty()
    } else {
        path.subrange(0, j)
    }
}

/// The file written for an export path: the path itself when it holds a `.`,
/// otherwise the path with `.jsonl` appended.
pub open spec fn file_of(path: Seq<char>) -> Seq<char> {
    if path.contains('.') {
        path
    } else {
        path + seq!['.', 'j', 's', 'o', 'n', 'l']
    }
}

/// `text` with every occurrence of `pattern` removed, scanning left to right
/// as `str::replace` does.
pub open spec fn remove_all(text: Seq<char>, pattern: Seq<char>) -> Seq<char>
    decreases text.len(),
{
    if pattern.len() == 0 || text.len() < pattern.len() {
        text
    } else if text.subrange(0, pattern.len() as int) == pattern {
        remove_all(text.subrange(pattern.len() as int, text.len() as int), pattern)
    } else {
        seq![text[0]] + remove_all(text.drop_first(), pattern)
    }
}

/// The default export file for a site: `./storage/`, the site's url without
/// its `http://` and `https://` parts, then `jsonl` (no dot is added).
pub open spec fn default_file_of(url: Seq<char>) -> Seq<char> {
    seq!['.', '/', 's', 't', 'o', 'r', 'a', 'g', 'e', '/'] + remove_all(
        remove_all(url, seq!['h', 't', 't', 'p', ':', '/', '/']),
        seq!['h', 't', 't', 'p', 's', ':', '/', '/'],
    ) + seq!['j', 's', 'o', 'n', 'l']
}

/// The default export directory, `./storage`.
pub open spec fn default_directory() -> Seq<char> {
    seq!['.', '/', 's', 't', 'o', 'r', 'a', 'g', 'e']
}

/// The stored items, separated by newlines.
pub open spec fn jsonl_lines(items: Seq<Seq<u8>>) -> Seq<u8>
    decreases items.len(),
{
    if items.len() == 0 {
        Seq::empty()
    } else if items.len() == 1 {
        items[0]
    } else {
        jsonl_lines(items.drop_last()) + seq![10u8] + items.last()
    }
}

/// `last_index_of` is -1 or the position of the last `c`.
pub proof fn lemma_last_index_bounds(s: Seq<char>, c: char)
    ensures
        -1 <= last_index_of(s, c) < s.len(),
        last_index_of(s, c) >= 0 ==> s[last_index_of(s, c)] == c,
        forall|k: int| last_index_of(s, c) < k < s.len() ==> s[k] != c,
    decreases s.len(),
{
    if s.len() > 0 && s.last() != c {
        lemma_last_index_bounds(s.drop_last(), c);
        assert forall|k: int| last_index_of(s, c) < k < s.len() implies s[k] != c by {
            if k < s.len() - 1 {
                assert(s.drop_last()[k] == s[k]);
            }
        }
    }
}

/// The directory an export path names (see `directory_of`).
pub fn storage_directory(path: &str) -> (dir: String)
    ensures
        dir@ == directory_of(path@),
{
    let chars = chars_of(path);
    let n = chars.len();
    let mut j: usize = n;
    while j > 0 && chars[j - 1] != '/'
        invariant
            n == chars@.len(),
            j <= n,
            forall|k: int| j <= k < n ==> chars@[k] != '/',
        decreases j,
    {
        j = j - 1;
    }
    proof {
        lemma_last_index_bounds(chars@, '/');
        let li = last_index_of(chars@, '/');
        if j == 0 {
            if li >= 0 {
                assert(chars@[li] == '/');
            }
        } else {
            if li < j - 1 {
                assert(chars@[j - 1] == '/');
            }
            if li > j - 1 {
                assert(chars@[li] == '/');
            }
        }
    }
    let mut dir: Vec<char> = Vec::new();
    if j > 0 {
        let mut k: usize = 0;
        while k < j - 1
            invariant
                n == chars@.len(),
                0 < j <= n,
                k <= j - 1,
                dir@ == chars@.subrange(0, k as int),
            decreases j - 1 - k,
        {
            dir.push(chars[k]);
            k = k + 1;
            assert(dir@ =~= chars@.subrange(0, k as int));
        }
    } else {
        assert(dir@ =~= Seq::<char>::empty());
    }
    string_from_chars(&dir)
}

/// Whether `s` holds `c`.
fn has_char(s: &Vec<char>, c: char) -> (res: bool)
    ensures
        res == s@.contains(c),
{
    let mut i: usize = 0;
    while i < s.len()
        invariant
            i <= s@.len(),
            forall|k: int| 0 <= k < i ==> s@[k] != c,
        decreases s@.len() - i,
    {
        if s[i] == c {
            return true;
        }
        i = i + 1;
    }
    false
}

/// The file an export path names (see `file_of`).
pub fn jsonl_file_name(path: &str) -> (file: String)
    ensures
        file@ == file_of(path@),
{
    let mut chars = chars_of(path);
    if !has_char(&chars, '.') {
        chars.push('.');
        chars.push('j');
        chars.push('s');
        chars.push('o');
        chars.push('n');
        chars.push('l');
        assert(chars@ =~= path@ + seq!['.', 'j', 's', 'o', 'n', 'l']);
    }
    string_from_chars(&chars)
}

/// Whether `pattern` occurs in `text` at position `at`.
fn matches_at(text: &Vec<char>, at: usize, pattern: &Vec<char>) -> (res: bool)
    requires
        at + pattern@.len() <= text@.len(),
    ensures
        res == (text@.subrange(at as int, at + pattern@.len()) == pattern@),
{
    let tl = text.len();
    let mut k: usize = 0;
    while k < pattern.len()
        invariant
            tl == text@.len(),
            k <= pattern@.len(),
            at + pattern@.len() <= text@.len(),
            forall|m: int| 0 <= m < k ==> text@[at + m] == pattern@[m],
        decreases pattern@.len() - k,
    {
        if text[at + k] != pattern[k] {
            assert(text@.subrange(at as int, at + pattern@.len())[k as int] != pattern@[k as int]);
            return false;
        }
        k = k + 1;
    }
    assert(text@.subrange(at as int, at + pattern@.len()) =~= pattern@);
    true
}

/// `text` without the occurrences of `pattern` (see `remove_all`).
pub fn remove_pattern(text: &Vec<char>, pattern: &Vec<char>) -> (res: Vec<char>)
    ensures
        res@ == remove_all(text@, pattern@),
{
    let n = text.len();
    let m = pattern.len();
    let mut out: Vec<char> = Vec::new();
    let mut i: usize = 0;
    assert(text@.subrange(0, n as int) =~= text@);
    assert(out@ + remove_all(text@, pattern@) =~= remove_all(text@, pattern@));
    while i < n
        invariant
            n == text@.len(),
            m == pattern@.len(),
            i <= n,
            out@ + remove_all(text@.subrange(i as int, n as int), pattern@) == remove_all(
                text@,
                pattern@,
            ),
        decreases n - i,
    {
        let ghost rest = text@.subrange(i as int, n as int);
        if m > 0 && m <= n - i && matches_at(text, i, pattern) {
            assert(rest.subrange(0, m as int) =~= text@.subrange(i as int, i + m));
            assert(rest.subrange(m as int, rest.len() as int) =~= text@.subrange(i + m, n as int));
            i = i + m;
        } else {
            proof {
                if m > 0 && m <= n - i {
                    assert(rest.subrange(0, m as int) =~= text@.subrange(i as int, i + m));
                }
                if m == 0 {
                    assert(remove_all(rest, pattern@) == rest);
                    assert(remove_all(text@.subrange(i + 1, n as int), pattern@)
                        == text@.subrange(i + 1, n as int));
                    assert(rest =~= seq![text@[i as int]] + text@.subrange(i + 1, n as int));
                } else if m > n - i {
                    assert(remove_all(rest, pattern@) == rest);
                    assert(remove_all(text@.subrange(i + 1, n as int), pattern@)
                        == text@.subrange(i + 1, n as int));
                    assert(rest =~= seq![text@[i as int]] + text@.subrange(i + 1, n as int));
                } else {
                    assert(rest.drop_first() =~= text@.subrange(i + 1, n as int));
                }
            }
            let ghost before = out@;
            out.push(text[i]);
            assert(out@ =~= before + seq![text@[i as int]]);
            i = i + 1;
        }
    }
    assert(text@.subrange(n as int, n as int) =~= Seq::<char>::empty());
    assert(out@ + Seq::<char>::empty() =~= out@);
    out
}

/// The default export file for a site url (see `default_file_of`).
pub fn default_jsonl_file(url: &str) -> (file: String)
    ensures
        file@ == default_file_of(url@),
{
    let chars = chars_of(url);
    let mut http: Vec<char> = Vec::new();
    http.push('h');
    http.push('t');
    http.push('t');
    http.push('p');
    http.push(':');
    http.push('/');
    http.push('/');
    let mut https: Vec<char> = Vec::new();
    https.push('h');
    https.push('t');
    https.push('t');
    https.push('p');
    https.push('s');
    https.push(':');
    https.push('/');
    https.push('/');
    assert(http@ =~= seq!['h', 't', 't', 'p', ':', '/', '/']);
    assert(https@ =~= seq!['h', 't', 't', 'p', 's', ':', '/', '/']);
    let stripped = remove_pattern(&remove_pattern(&chars, &http), &https);
    let mut out: Vec<char> = Vec::new();
    out.push('.');
    out.push('/');
    out.push('s');
    out.push('t');
    out.push('o');
    out.push('r');
    out.push('a');
    out.push('g');
    out.push('e');
    out.push('/');
    let mut k: usize = 0;
    let ghost out0 = out@;
    while k < stripped.len()
        invariant
            k <= stripped@.len(),
            out@ == out0 + stripped@.subrange(0, k as int),
        decreases stripped@.len() - k,
    {
        out.push(stripped[k]);
        k = k + 1;
        assert(out@ =~= out0 + stripped@.subrange(0, k as int));
    }
    out.push('j');
    out.push('s');
    out.push('o');
    out.push('n');
    out.push('l');
    assert(stripped@.subrange(0, stripped@.len() as int) =~= stripped@);
    assert(out@ =~= default_file_of(url@));
    string_from_chars(&out)
}

/// The default export directory, `./storage`.
pub fn default_storage_directory() -> (dir: String)
    ensures
        dir@ == default_directory(),
{
    let mut out: Vec<char> = Vec::new();
    out.push('.');
    out.push('/');
    out.push('s');
    out.push('t');
    out.push('o');
    out.push('r');
    out.push('a');
    out.push('g');
    out.push('e');
    assert(out@ =~= default_directory());
    string_from_chars(&out)
}

/// The items separated by newlines (see `jsonl_lines`).
pub fn join_lines(items: &Vec<Vec<u8>>) -> (bytes: Vec<u8>)
    ensures
        bytes@ == jsonl_lines(items@.map_values(|item: Vec<u8>| item@)),
{
    let ghost views = items@.map_values(|item: Vec<u8>| item@);
    let mut out: Vec<u8> = Vec::new();
    let mut i: usize = 0;
    while i < items.len()
        invariant
            i <= items@.len(),
            views == items@.map_values(|item: Vec<u8>| item@),
            out@ == jsonl_lines(views.subrange(0, i as int)),
        decreases items@.len() - i,
    {
        let ghost before = out@;
        if i > 0 {
            out.push(10u8);
        }
        let item = &items[i];
        let mut k: usize = 0;
        let ghost mid = out@;
        while k < item.len()
            invariant
                k <= item@.len(),
                out@ == mid + item@.subrange(0, k as int),
            decreases item@.len() - k,
        {
            out.push(item[k]);
            k = k + 1;
            assert(out@ =~= mid + item@.subrange(0, k as int));
        }
        proof {
            assert(item@.subrange(0, item@.len() as int) =~= item@);
            let p = views.subrange(0, i + 1);
            assert(p.drop_last() =~= views.subrange(0, i as int));
            assert(p.last() == item@);
            if i == 0 {
                assert(out@ =~= item@);
            } else {
                assert(out@ =~= before + seq![10u8] + item@);
            }
        }
        i = i + 1;
    }
    assert(views.subrange(0, items@.len() as int) =~= views);
    out
}

} // verus!
