//! Small string operations that the symbol rules are written with: finding
//! and counting characters, splitting at the first occurrence of one, and
//! building names from pieces.
use vstd::prelude::*;

verus! {

/// The index of the first `c` in `s`, searching from `from`.
pub open spec fn find_char_from(s: Seq<char>, c: char, from: int) -> Option<int>
    decreases s.len() - from,
{
    if from < 0 || from >= s.len() {
        None
    } else if s[from] == c {
        Some(from)
    } else {
        find_char_from(s, c, from + 1)
    }
}

/// The index of the first `c` in `s`.
pub open spec fn find_char(s: Seq<char>, c: char) -> Option<int> {
    find_char_from(s, c, 0)
}

/// The number of occurrences of `c` in `s`.
pub open spec fn count_char(s: Seq<char>, c: char) -> nat
    decreases s.len(),
{
    if s.len() == 0 {
        0
    } else {
        count_char(s.drop_last(), c) + if s.last() == c {
            1nat
        } else {
            0nat
        }
    }
}

/// `s` split at its first `c`, which belongs to neither part.
pub open spec fn split_once(s: Seq<char>, c: char) -> Option<(Seq<char>, Seq<char>)> {
    match find_char(s, c) {
        Some(i) => Some((s.subrange(0, i), s.subrange(i + 1, s.len() as int))),
        None => None,
    }
}

/// Whether `c` has the Unicode `White_Space` property, which is what
/// `char::is_whitespace` answers: the controls from tab to carriage return,
/// space, next line, no-break space, ogham space mark, the spaces from en
/// quad to hair space, the line and paragraph separators, narrow no-break
/// space, medium mathematical space and ideographic space.
pub open spec fn char_is_whitespace(c: char) -> bool {
    let v = c as u32;
    ||| 0x9 <= v <= 0xd
    ||| v == 0x20
    ||| v == 0x85
    ||| v == 0xa0
    ||| v == 0x1680
    ||| 0x2000 <= v <= 0x200a
    ||| v == 0x2028
    ||| v == 0x2029
    ||| v == 0x202f
    ||| v == 0x205f
    ||| v == 0x3000
}

/// The upper-case form of `s`, as `str::to_uppercase` gives it.
pub uninterp spec fn str_to_uppercase(s: Seq<char>) -> Seq<char>;

/// Whether `c` is whitespace in the sense of `char::is_whitespace`.
fn is_whitespace(c: char) -> (r: bool)
    ensures
        r == char_is_whitespace(c),
{
    let v = c as u32;
    (0x9 <= v && v <= 0xd) || v == 0x20 || v == 0x85 || v == 0xa0 || v == 0x1680 || (0x2000 <= v
        && v <= 0x200a) || v == 0x2028 || v == 0x2029 || v == 0x202f || v == 0x205f || v == 0x3000
}

/// `str::to_uppercase` from std.  The result is named; the Unicode case
/// mapping it applies is a table.
#[verifier::external_body]
pub(crate) fn to_uppercase(s: &str) -> (r: String)
    ensures
        r@ == str_to_uppercase(s@),
{
    s.to_uppercase()
}

/// `String::push` from std: appends one character.
#[verifier::external_body]
pub(crate) fn push_char(s: &mut String, c: char)
    ensures
        final(s)@ == old(s)@.push(c),
{
    s.push(c)
}

/// Whether `c` occurs in `s`.
pub(crate) fn contains_char(s: &str, c: char) -> (r: bool)
    ensures
        r == s@.contains(c),
        r == (find_char(s@, c) is Some),
{
    match first_index(s, c) {
        Some(_) => true,
        None => false,
    }
}

/// Whether some character of `s` is whitespace.
pub(crate) fn contains_whitespace(s: &str) -> (r: bool)
    ensures
        r == exists|i: int| 0 <= i < s@.len() && char_is_whitespace(#[trigger] s@[i]),
{
    let len = s.unicode_len();
    let mut i: usize = 0;
    while i < len
        invariant
            len == s@.len(),
            i <= len,
            forall|j: int| 0 <= j < i ==> !char_is_whitespace(#[trigger] s@[j]),
        decreases len - i,
    {
        if is_whitespace(s.get_char(i)) {
            return true;
        }
        i += 1;
    }
    false
}

/// The index of the first `c` in `s`.
pub(crate) fn first_index(s: &str, c: char) -> (r: Option<usize>)
    ensures
        r matches Some(i) ==> find_char(s@, c) == Some(i as int) && i < s@.len() && s@[i as int]
            == c,
        r is None ==> find_char(s@, c) is None,
        r == (match find_char(s@, c) {
            Some(i) => Some(i as usize),
            None => None,
        }),
        (r is Some) == s@.contains(c),
{
    let len = s.unicode_len();
    let mut i: usize = 0;
    while i < len
        invariant
            len == s@.len(),
            i <= len,
            find_char(s@, c) == find_char_from(s@, c, i as int),
            forall|j: int| 0 <= j < i ==> s@[j] != c,
        decreases len - i,
    {
        if s.get_char(i) == c {
            proof {
                lemma_find_char_bound(s@, c, i as int);
            }
            return Some(i);
        }
        i += 1;
    }
    proof {
        if s@.contains(c) {
            let j = choose|j: int| 0 <= j < s@.len() && s@[j] == c;
            assert(s@[j] != c);
        }
    }
    None
}

/// A character that does not occur is not found.
pub proof fn lemma_find_char_absent(s: Seq<char>, c: char)
    requires
        !s.contains(c),
    ensures
        find_char(s, c) is None,
{
    lemma_find_char_absent_from(s, c, 0);
}

/// A character that does not occur is not found from any start.
proof fn lemma_find_char_absent_from(s: Seq<char>, c: char, from: int)
    requires
        !s.contains(c),
    ensures
        find_char_from(s, c, from) is None,
    decreases s.len() - from,
{
    if 0 <= from < s.len() {
        assert(s[from] != c);
        lemma_find_char_absent_from(s, c, from + 1);
    }
}

/// The first occurrence of `c` is found.
pub proof fn lemma_find_char_bound(s: Seq<char>, c: char, i: int)
    requires
        0 <= i < s.len(),
        s[i] == c,
        forall|j: int| 0 <= j < i ==> s[j] != c,
    ensures
        find_char(s, c) == Some(i),
        s.contains(c),
{
    lemma_find_char_from(s, c, 0, i);
}

/// Searching from `from` finds the first occurrence at or after it.
pub proof fn lemma_find_char_from(s: Seq<char>, c: char, from: int, i: int)
    requires
        0 <= from <= i < s.len(),
        s[i] == c,
        forall|j: int| from <= j < i ==> s[j] != c,
    ensures
        find_char_from(s, c, from) == Some(i),
    decreases i - from,
{
    if from < i {
        lemma_find_char_from(s, c, from + 1, i);
    }
}

/// The number of occurrences of `c` in `s`.
pub(crate) fn count_occurrences(s: &str, c: char) -> (r: usize)
    ensures
        r == count_char(s@, c),
{
    let len = s.unicode_len();
    let mut i: usize = 0;
    let mut n: usize = 0;
    while i < len
        invariant
            len == s@.len(),
            i <= len,
            n <= i,
            n == count_char(s@.subrange(0, i as int), c),
        decreases len - i,
    {
        proof {
            assert(s@.subrange(0, i + 1).drop_last() =~= s@.subrange(0, i as int));
        }
        if s.get_char(i) == c {
            n += 1;
        }
        i += 1;
    }
    proof {
        assert(s@.subrange(0, len as int) =~= s@);
    }
    n
}

/// `s` split at its first `c`.
pub(crate) fn split_once_char(s: &str, c: char) -> (r: Option<(String, String)>)
    ensures
        r matches Some(p) ==> split_once(s@, c) == Some((p.0@, p.1@)),
        r is None ==> split_once(s@, c) is None,
{
    match first_index(s, c) {
        None => None,
        Some(i) => {
            let len = s.unicode_len();
            let head = s.substring_char(0, i);
            let tail = s.substring_char(i + 1, len);
            Some((String::from_str(head), String::from_str(tail)))
        },
    }
}

/// A new string holding the characters of `s`.
pub(crate) fn owned(s: &str) -> (r: String)
    ensures
        r@ == s@,
{
    String::from_str(s)
}

/// Appends `t` to `s`.
pub(crate) fn push_str(s: &mut String, t: &str)
    ensures
        final(s)@ == old(s)@ + t@,
{
    s.append(t);
}

/// `a`, the character `c`, then `b`.
pub(crate) fn join_with(a: &str, c: char, b: &str) -> (r: String)
    ensures
        r@ == a@ + seq![c] + b@,
{
    let mut r = String::from_str(a);
    push_char(&mut r, c);
    r.append(b);
    r
}

/// Whether `s` and `t` hold the same characters.
pub(crate) fn str_eq(s: &str, t: &str) -> (r: bool)
    ensures
        r == (s@ == t@),
{
    let n = s.unicode_len();
    if n != t.unicode_len() {
        return false;
    }
    let mut i: usize = 0;
    while i < n
        invariant
            n == s@.len(),
            n == t@.len(),
            i <= n,
            forall|j: int| 0 <= j < i ==> s@[j] == t@[j],
        decreases n - i,
    {
        if s.get_char(i) != t.get_char(i) {
            return false;
        }
        i += 1;
    }
    proof {
        assert(s@ =~= t@);
    }
    true
}

/// Whether `s` is the one-character string `c`.
pub(crate) fn is_single_char(s: &str, c: char) -> (r: bool)
    ensures
        r == (s@ == seq![c]),
{
    if s.unicode_len() == 1 {
        let r = s.get_char(0) == c;
        proof {
            if r {
                assert(s@ =~= seq![c]);
            }
        }
        r
    } else {
        false
    }
}

/// `a`, a space, then `b`.
pub(crate) fn join_space(a: &str, b: &str) -> (r: String)
    ensures
        r@ == a@ + seq![' '] + b@,
{
    let mut r = String::from_str(a);
    push_char(&mut r, ' ');
    r.append(b);
    r
}

/// `s` without the copies of `c` at its end.
pub open spec fn trim_trailing(s: Seq<char>, c: char) -> Seq<char>
    decreases s.len(),
{
    if s.len() > 0 && s.last() == c {
        trim_trailing(s.drop_last(), c)
    } else {
        s
    }
}

/// The pieces of `s` between the occurrences of `c` (one more piece than
/// there are occurrences).
pub open spec fn split_all(s: Seq<char>, c: char) -> Seq<Seq<char>>
    decreases s.len(),
{
    match find_char(s, c) {
        Some(i) => if 0 <= i < s.len() {
            seq![s.take(i)] + split_all(s.skip(i + 1), c)
        } else {
            seq![s]
        },
        None => seq![s],
    }
}

/// Whether `s` begins with `prefix`.
pub(crate) fn starts_with(s: &str, prefix: &str) -> (r: bool)
    ensures
        r == (prefix@.len() <= s@.len() && s@.take(prefix@.len() as int) == prefix@),
{
    let n = prefix.unicode_len();
    if n > s.unicode_len() {
        return false;
    }
    let mut i: usize = 0;
    while i < n
        invariant
            n == prefix@.len(),
            n <= s@.len(),
            i <= n,
            forall|j: int| 0 <= j < i ==> s@[j] == prefix@[j],
        decreases n - i,
    {
        if s.get_char(i) != prefix.get_char(i) {
            proof {
                assert(s@.take(n as int)[i as int] != prefix@[i as int]);
            }
            return false;
        }
        i += 1;
    }
    proof {
        assert(s@.take(n as int) =~= prefix@);
    }
    true
}

/// The characters of `s` from `start` on, without the copies of `c` at
/// the end.
pub(crate) fn rest_trimmed(s: &str, start: usize, c: char) -> (r: String)
    requires
        start <= s@.len(),
    ensures
        r@ == trim_trailing(s@.skip(start as int), c),
{
    let mut end = s.unicode_len();
    while end > start && s.get_char(end - 1) == c
        invariant
            start <= end <= s@.len(),
            trim_trailing(s@.skip(start as int), c) == trim_trailing(
                s@.subrange(start as int, end as int),
                c,
            ),
        decreases end,
    {
        proof {
            assert(s@.subrange(start as int, end as int).drop_last() =~= s@.subrange(
                start as int,
                end - 1,
            ));
        }
        end -= 1;
    }
    proof {
        assert(s@.skip(start as int) =~= s@.subrange(start as int, s@.len() as int));
    }
    String::from_str(s.substring_char(start, end))
}

/// The pieces of `s` between the occurrences of `c`.
pub(crate) fn split_char(s: &str, c: char) -> (r: Vec<String>)
    ensures
        r@.len() == split_all(s@, c).len(),
        forall|i: int| 0 <= i < r@.len() ==> #[trigger] r@[i]@ == split_all(s@, c)[i],
{
    let len = s.unicode_len();
    let mut pieces: Vec<String> = Vec::new();
    let mut piece_start: usize = 0;
    let mut i: usize = 0;
    proof {
        assert(s@.skip(0) =~= s@);
        assert(pieces@.map_values(|p: String| p@) + split_all(s@, c) =~= split_all(s@, c));
    }
    while i < len
        invariant
            len == s@.len(),
            piece_start <= i <= len,
            forall|j: int| piece_start <= j < i ==> s@[j] != c,
            split_all(s@, c) == pieces@.map_values(|p: String| p@) + split_all(
                s@.skip(piece_start as int),
                c,
            ),
        decreases len - i,
    {
        if s.get_char(i) == c {
            let ghost rest = s@.skip(piece_start as int);
            proof {
                assert(rest[i - piece_start] == c);
                assert forall|j: int| 0 <= j < i - piece_start implies rest[j] != c by {
                    assert(rest[j] == s@[piece_start + j]);
                }
                lemma_find_char_bound(rest, c, i - piece_start);
                assert(rest.take(i - piece_start) =~= s@.subrange(piece_start as int, i as int));
                assert(rest.skip(i - piece_start + 1) =~= s@.skip(i + 1));
            }
            let ghost views = pieces@.map_values(|p: String| p@);
            pieces.push(String::from_str(s.substring_char(piece_start, i)));
            proof {
                assert(pieces@.map_values(|p: String| p@) =~= views.push(
                    s@.subrange(piece_start as int, i as int),
                ));
            }
            piece_start = i + 1;
        }
        i += 1;
    }
    let ghost rest = s@.skip(piece_start as int);
    proof {
        assert forall|j: int| 0 <= j < rest.len() implies rest[j] != c by {
            assert(rest[j] == s@[piece_start + j]);
        }
        lemma_find_char_absent(rest, c);
        assert(rest =~= s@.subrange(piece_start as int, len as int));
    }
    let ghost views = pieces@.map_values(|p: String| p@);
    pieces.push(String::from_str(s.substring_char(piece_start, len)));
    proof {
        assert(pieces@.map_values(|p: String| p@) =~= views.push(rest));
    }
    pieces
}


/// Splitting a piece without `c`, then `c`, then the rest, gives the piece
/// and the pieces of the rest.
pub proof fn lemma_split_all_first(a: Seq<char>, rest: Seq<char>, c: char)
    requires
        !a.contains(c),
    ensures
        split_all(a + seq![c] + rest, c) == seq![a] + split_all(rest, c),
{
    let s = a + seq![c] + rest;
    assert(s[a.len() as int] == c);
    assert forall|j: int| 0 <= j < a.len() implies s[j] != c by {
        assert(s[j] == a[j]);
    }
    lemma_find_char_bound(s, c, a.len() as int);
    assert(s.take(a.len() as int) =~= a);
    assert(s.skip(a.len() + 1int) =~= rest);
}

/// A string without `c` is a single piece.
pub proof fn lemma_split_all_none(a: Seq<char>, c: char)
    requires
        !a.contains(c),
    ensures
        split_all(a, c) == seq![a],
{
    lemma_find_char_absent(a, c);
}

/// Trimming `c` from a string that ends in something else changes nothing.
pub proof fn lemma_trim_trailing_other(s: Seq<char>, c: char)
    requires
        s.len() > 0,
        s.last() != c,
    ensures
        trim_trailing(s, c) == s,
{
}

/// Pieces joined by a separator.
pub open spec fn join_parts(parts: Seq<Seq<char>>, sep: Seq<char>) -> Seq<char>
    decreases parts.len(),
{
    if parts.len() == 0 {
        Seq::empty()
    } else if parts.len() == 1 {
        parts[0]
    } else {
        join_parts(parts.drop_last(), sep) + sep + parts.last()
    }
}

/// The views of a slice of strings.
pub open spec fn str_views(v: Seq<&str>) -> Seq<Seq<char>> {
    v.map_values(|s: &str| s@)
}

/// The views of a list of owned strings.
pub open spec fn string_views(v: Seq<String>) -> Seq<Seq<char>> {
    v.map_values(|s: String| s@)
}

/// Pieces joined by `sep`.
pub(crate) fn join_strs(parts: &[&str], sep: &str) -> (r: String)
    ensures
        r@ == join_parts(str_views(parts@), sep@),
{
    let mut out = String::new();
    let mut i: usize = 0;
    while i < parts.len()
        invariant
            i <= parts@.len(),
            out@ == join_parts(str_views(parts@).take(i as int), sep@),
        decreases parts.len() - i,
    {
        proof {
            let views = str_views(parts@);
            assert(views.take(i + 1).drop_last() =~= views.take(i as int));
            if i == 0 {
                assert(views.take(1) =~= seq![views[0]]);
            }
        }
        if i > 0 {
            push_str(&mut out, sep);
        }
        push_str(&mut out, parts[i]);
        proof {
            if i == 0 {
                assert(out@ =~= Seq::<char>::empty() + parts@[0]@);
            }
        }
        i += 1;
    }
    proof {
        assert(str_views(parts@).take(parts@.len() as int) =~= str_views(parts@));
    }
    out
}

/// Owned pieces joined by `sep`.
pub(crate) fn join_strings(parts: &Vec<String>, sep: &str) -> (r: String)
    ensures
        r@ == join_parts(string_views(parts@), sep@),
{
    let mut out = String::new();
    let mut i: usize = 0;
    while i < parts.len()
        invariant
            i <= parts@.len(),
            out@ == join_parts(string_views(parts@).take(i as int), sep@),
        decreases parts.len() - i,
    {
        proof {
            let views = string_views(parts@);
            assert(views.take(i + 1).drop_last() =~= views.take(i as int));
            if i == 0 {
                assert(views.take(1) =~= seq![views[0]]);
            }
        }
        if i > 0 {
            push_str(&mut out, sep);
        }
        push_str(&mut out, parts[i].as_str());
        proof {
            if i == 0 {
                assert(out@ =~= Seq::<char>::empty() + parts@[0]@);
            }
        }
        i += 1;
    }
    proof {
        assert(string_views(parts@).take(parts@.len() as int) =~= string_views(parts@));
    }
    out
}

/// `s` without the whitespace at its end.
pub open spec fn trim_end_ws(s: Seq<char>) -> Seq<char>
    decreases s.len(),
{
    if s.len() > 0 && char_is_whitespace(s.last()) {
        trim_end_ws(s.drop_last())
    } else {
        s
    }
}

/// `s` without the whitespace at its start.
pub open spec fn trim_start_ws(s: Seq<char>) -> Seq<char>
    decreases s.len(),
{
    if s.len() > 0 && char_is_whitespace(s[0]) {
        trim_start_ws(s.drop_first())
    } else {
        s
    }
}

/// `s` without the whitespace at either end.
pub open spec fn trim_ws(s: Seq<char>) -> Seq<char> {
    trim_end_ws(trim_start_ws(s))
}

/// Whether `s` ends with `suffix`.
pub open spec fn ends_with(s: Seq<char>, suffix: Seq<char>) -> bool {
    suffix.len() <= s.len() && s.skip(s.len() - suffix.len()) == suffix
}

/// `str::trim_end`: `s` without the whitespace at its end.
pub(crate) fn trim_end(s: &str) -> (r: &str)
    ensures
        r@ == trim_end_ws(s@),
{
    let mut end = s.unicode_len();
    proof {
        assert(s@.take(end as int) =~= s@);
    }
    while end > 0 && is_whitespace(s.get_char(end - 1))
        invariant
            end <= s@.len(),
            trim_end_ws(s@) == trim_end_ws(s@.take(end as int)),
        decreases end,
    {
        proof {
            assert(s@.take(end as int).drop_last() =~= s@.take(end - 1));
        }
        end -= 1;
    }
    proof {
        assert(s@.subrange(0, end as int) =~= s@.take(end as int));
        if end == s@.len() {
            assert(s@.take(end as int) =~= s@);
        }
    }
    s.substring_char(0, end)
}

/// `str::trim`: `s` without the whitespace at either end.
pub(crate) fn trim(s: &str) -> (r: &str)
    ensures
        r@ == trim_ws(s@),
{
    let len = s.unicode_len();
    let mut start: usize = 0;
    proof {
        assert(s@.skip(0) =~= s@);
    }
    while start < len && is_whitespace(s.get_char(start))
        invariant
            len == s@.len(),
            start <= len,
            trim_start_ws(s@) == trim_start_ws(s@.skip(start as int)),
        decreases len - start,
    {
        proof {
            assert(s@.skip(start as int).drop_first() =~= s@.skip(start + 1));
        }
        start += 1;
    }
    proof {
        assert(s@.skip(0) =~= s@);
        assert(s@.subrange(start as int, len as int) =~= s@.skip(start as int));
    }
    let rest = s.substring_char(start, len);
    trim_end(rest)
}

/// `str::strip_suffix`: `s` without `suffix` at its end, if it ends so.
pub(crate) fn strip_suffix<'a>(s: &'a str, suffix: &str) -> (r: Option<&'a str>)
    ensures
        ends_with(s@, suffix@) ==> (r matches Some(t) && t@ == s@.take(s@.len() - suffix@.len())),
        !ends_with(s@, suffix@) ==> r is None,
{
    let n = s.unicode_len();
    let k = suffix.unicode_len();
    if k > n {
        return None;
    }
    let mut i: usize = 0;
    while i < k
        invariant
            n == s@.len(),
            k == suffix@.len(),
            k <= n,
            i <= k,
            forall|j: int| 0 <= j < i ==> s@[n - k + j] == suffix@[j],
        decreases k - i,
    {
        if s.get_char(n - k + i) != suffix.get_char(i) {
            proof {
                assert(s@.skip(n - k)[i as int] != suffix@[i as int]);
            }
            return None;
        }
        i += 1;
    }
    proof {
        assert(s@.skip(n - k) =~= suffix@);
        assert(s@.subrange(0, (n - k) as int) =~= s@.take(n - k));
    }
    Some(s.substring_char(0, n - k))
}

/// The occurrences in two joined strings are those of each.
pub proof fn lemma_count_char_concat(a: Seq<char>, b: Seq<char>, c: char)
    ensures
        count_char(a + b, c) == count_char(a, c) + count_char(b, c),
    decreases b.len(),
{
    if b.len() > 0 {
        lemma_count_char_concat(a, b.drop_last(), c);
        assert((a + b).drop_last() =~= a + b.drop_last());
        assert((a + b).last() == b.last());
    } else {
        assert(a + b =~= a);
    }
}

/// A string without `c` has no occurrence of it.
pub proof fn lemma_count_char_absent(s: Seq<char>, c: char)
    requires
        !s.contains(c),
    ensures
        count_char(s, c) == 0,
    decreases s.len(),
{
    if s.len() > 0 {
        assert(s.drop_last().len() < s.len());
        assert forall|i: int| 0 <= i < s.drop_last().len() implies s.drop_last()[i] != c by {
            assert(s.drop_last()[i] == s[i]);
        }
        assert(s.last() == s[s.len() - 1]);
        lemma_count_char_absent(s.drop_last(), c);
    }
}

} // verus!
