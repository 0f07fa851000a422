//! Text helpers: comparison, prefixes, joining, and truncation of display
//! strings to a byte budget.
use vstd::prelude::*;
use vstd::utf8::*;

verus! {

/// The texts of `parts` with `sep` between each two of them.
pub open spec fn join(parts: Seq<Seq<char>>, sep: Seq<char>) -> Seq<char>
    decreases parts.len(),
{
    if parts.len() == 0 {
        Seq::empty()
    } else if parts.len() == 1 {
        parts[0]
    } else {
        join(parts.drop_last(), sep) + sep + parts.last()
    }
}

/// The texts held by a list of strings.
pub open spec fn string_views(v: Seq<String>) -> Seq<Seq<char>> {
    v.map_values(|s: String| s@)
}

/// The texts of `parts` with `sep` between each two of them.
pub fn join_strings(parts: &Vec<String>, sep: &str) -> (res: String)
    ensures
        res@ == join(string_views(parts@), sep@),
{
    let ghost views = string_views(parts@);
    let mut res = String::new();
    let n = parts.len();
    let mut i: usize = 0;
    assert(views.take(0) =~= Seq::<Seq<char>>::empty());
    while i < n
        invariant
            n == parts@.len(),
            views == string_views(parts@),
            i <= n,
            res@ == join(views.take(i as int), sep@),
        decreases n - i,
    {
        proof {
            let next = views.take(i + 1);
            assert(next.drop_last() =~= views.take(i as int));
            assert(next.last() == parts@[i as int]@);
            if i == 0 {
                assert(next =~= seq![parts@[0]@]);
            }
        }
        if i > 0 {
            res.append(sep);
        }
        res.append(parts[i].as_str());
        i += 1;
    }
    assert(views.take(n as int) =~= views);
    res
}

/// Number of bytes that `c` takes in UTF-8.
pub open spec fn utf8_width(c: char) -> nat {
    encode_scalar(c as u32).len()
}

/// Number of bytes that `s` takes in UTF-8 (what `str::len` reports).
pub open spec fn utf8_len(s: Seq<char>) -> nat {
    encode_utf8(s).len()
}

/// How many leading characters of `s` fit, encoded in UTF-8, in `budget`
/// bytes: the characters before the last character boundary at or below
/// `budget`.
pub open spec fn fitting_prefix_len(s: Seq<char>, budget: int) -> nat
    decreases s.len(),
{
    if s.len() == 0 || utf8_width(s[0]) > budget {
        0
    } else {
        1 + fitting_prefix_len(s.drop_first(), budget - utf8_width(s[0]))
    }
}

/// The marker appended to a shortened text.
pub open spec fn ellipsis() -> Seq<char> {
    seq!['.', '.', '.']
}

/// The text shown for `s` under a limit of `max_length` bytes: unchanged if
/// the limit is zero or the text fits, and otherwise the longest prefix
/// that fits in `max_length - 3` bytes followed by `...`.
pub open spec fn truncated(s: Seq<char>, max_length: nat) -> Seq<char> {
    if max_length > 0 && utf8_len(s) > max_length {
        s.take(fitting_prefix_len(s, max_length - 3) as int) + ellipsis()
    } else {
        s
    }
}

/// The inputs on which truncation is defined: a limit of 1 or 2 bytes
/// leaves no room for the marker, and a text over such a limit is refused.
pub open spec fn truncation_defined(s: Seq<char>, max_length: nat) -> bool {
    max_length == 0 || max_length >= 3 || utf8_len(s) <= max_length
}

/// The UTF-8 encoding of two texts one after the other is the two encodings
/// one after the other.
pub proof fn lemma_encode_utf8_concat(a: Seq<char>, b: Seq<char>)
    ensures
        encode_utf8(a + b) == encode_utf8(a) + encode_utf8(b),
    decreases a.len(),
{
    if a.len() == 0 {
        assert(a + b =~= b);
        assert(encode_utf8(a) =~= Seq::<u8>::empty());
        assert(encode_utf8(a) + encode_utf8(b) =~= encode_utf8(b));
    } else {
        assert((a + b).drop_first() =~= a.drop_first() + b);
        assert((a + b)[0] == a[0]);
        lemma_encode_utf8_concat(a.drop_first(), b);
        assert(encode_utf8(a + b) =~= encode_scalar(a[0] as u32) + (encode_utf8(a.drop_first())
            + encode_utf8(b)));
    }
}

/// A single character takes its own width.
pub proof fn lemma_utf8_len_single(c: char)
    ensures
        utf8_len(seq![c]) == utf8_width(c),
{
    assert(seq![c].drop_first() =~= Seq::<char>::empty());
    assert(encode_utf8(Seq::<char>::empty()) =~= Seq::<u8>::empty());
    assert(encode_utf8(seq![c]) =~= encode_scalar(c as u32));
}

/// Adding a character to a text adds its width.
pub proof fn lemma_utf8_len_push(s: Seq<char>, c: char)
    ensures
        utf8_len(s.push(c)) == utf8_len(s) + utf8_width(c),
{
    assert(s.push(c) =~= s + seq![c]);
    lemma_encode_utf8_concat(s, seq![c]);
    lemma_utf8_len_single(c);
}

/// The marker takes three bytes.
pub proof fn lemma_ellipsis_len()
    ensures
        utf8_len(ellipsis()) == 3,
{
    let e = ellipsis();
    assert(e =~= seq!['.'].push('.').push('.'));
    assert(seq!['.'].push('.') =~= seq!['.', '.']);
    lemma_utf8_len_single('.');
    lemma_utf8_len_push(seq!['.'], '.');
    lemma_utf8_len_push(seq!['.', '.'], '.');
    assert(('.' as u32) == 46);
}

/// What `fitting_prefix_len` counts: a prefix that fits the budget, which
/// the next character would overflow.
pub proof fn lemma_fitting_prefix(s: Seq<char>, budget: int)
    requires
        budget >= 0,
    ensures
        fitting_prefix_len(s, budget) <= s.len(),
        utf8_len(s.take(fitting_prefix_len(s, budget) as int)) <= budget,
        fitting_prefix_len(s, budget) < s.len() ==> utf8_len(
            s.take(fitting_prefix_len(s, budget) + 1int),
        ) > budget,
    decreases s.len(),
{
    let k = fitting_prefix_len(s, budget);
    if s.len() == 0 {
        assert(s.take(0) =~= Seq::<char>::empty());
    } else if utf8_width(s[0]) > budget {
        assert(s.take(0) =~= Seq::<char>::empty());
        assert(s.take(1) =~= seq![s[0]]);
        lemma_utf8_len_single(s[0]);
    } else {
        let rest = s.drop_first();
        let b2 = budget - utf8_width(s[0]);
        lemma_fitting_prefix(rest, b2);
        let k2 = fitting_prefix_len(rest, b2);
        assert(k == k2 + 1);
        assert(s.take(k as int) =~= seq![s[0]] + rest.take(k2 as int));
        lemma_encode_utf8_concat(seq![s[0]], rest.take(k2 as int));
        lemma_utf8_len_single(s[0]);
        if k < s.len() {
            assert(s.take(k + 1int) =~= seq![s[0]] + rest.take(k2 + 1int));
            lemma_encode_utf8_concat(seq![s[0]], rest.take(k2 + 1int));
        }
    }
}

/// Number of bytes that `c` takes in UTF-8.
pub fn char_utf8_width(c: char) -> (w: usize)
    ensures
        w == utf8_width(c),
        1 <= w <= 4,
{
    let v = c as u32;
    proof {
        char_is_scalar(c);
    }
    if v <= 0x7F {
        1
    } else if v <= 0x7FF {
        2
    } else if v <= 0xFFFF {
        3
    } else {
        4
    }
}

/// Number of bytes that `s` takes in UTF-8.
pub fn byte_len(s: &str) -> (n: usize)
    ensures
        n == utf8_len(s@),
{
    s.as_bytes().len()
}

/// The number of leading characters of `s` that fit in `budget` bytes.
fn fitting_prefix(s: &str, budget: usize) -> (k: usize)
    ensures
        k == fitting_prefix_len(s@, budget as int),
{
    let n = s.unicode_len();
    let mut i: usize = 0;
    let mut used: usize = 0;
    assert(s@.skip(0) =~= s@);
    assert(s@.take(0) =~= Seq::<char>::empty());
    while i < n
        invariant
            n == s@.len(),
            i <= n,
            used <= budget,
            used == utf8_len(s@.take(i as int)),
            fitting_prefix_len(s@, budget as int) == i + fitting_prefix_len(
                s@.skip(i as int),
                budget - used,
            ),
        decreases n - i,
    {
        let c = s.get_char(i);
        let w = char_utf8_width(c);
        let ghost rest = s@.skip(i as int);
        assert(rest[0] == c);
        if w > budget - used {
            assert(fitting_prefix_len(rest, budget - used) == 0);
            return i;
        }
        proof {
            assert(rest.drop_first() =~= s@.skip(i + 1));
            assert(s@.take(i + 1) =~= s@.take(i as int).push(c));
            lemma_utf8_len_push(s@.take(i as int), c);
        }
        used = used + w;
        i = i + 1;
    }
    assert(s@.skip(i as int) =~= Seq::<char>::empty());
    i
}

/// The text shown for `string` under a limit of `max_length` bytes: when
/// the limit is not zero and the text is longer, the longest prefix that
/// fits in `max_length - 3` bytes, cut at a character boundary, followed by
/// `...`; otherwise the text itself.
pub fn truncate_str(string: &str, max_length: usize) -> (res: String)
    requires
        truncation_defined(string@, max_length as nat),
    ensures
        res@ == truncated(string@, max_length as nat),
{
    if max_length > 0 && byte_len(string) > max_length {
        let k = fitting_prefix(string, max_length - 3);
        proof {
            lemma_fitting_prefix(string@, max_length - 3);
        }
        let mut res = String::from_str(string.substring_char(0, k));
        res.append("...");
        proof {
            reveal_strlit("...");
            assert("..."@ =~= ellipsis());
            assert(string@.subrange(0, k as int) =~= string@.take(k as int));
        }
        res
    } else {
        string.to_owned()
    }
}

/// Like [`truncate_str`], taking the text by value and giving it back
/// unchanged when it fits.
pub fn truncate_string(string: String, max_length: usize) -> (res: String)
    requires
        truncation_defined(string@, max_length as nat),
    ensures
        res@ == truncated(string@, max_length as nat),
{
    if max_length > 0 && byte_len(string.as_str()) > max_length {
        truncate_str(string.as_str(), max_length)
    } else {
        string
    }
}

/// Under a limit that is not zero, the shortened text fits the limit.
pub proof fn lemma_truncated_fits(s: Seq<char>, max_length: nat)
    requires
        truncation_defined(s, max_length),
        max_length > 0,
    ensures
        utf8_len(truncated(s, max_length)) <= max_length,
{
    if utf8_len(s) > max_length {
        let k = fitting_prefix_len(s, max_length - 3);
        lemma_fitting_prefix(s, max_length - 3);
        lemma_encode_utf8_concat(s.take(k as int), ellipsis());
        lemma_ellipsis_len();
    }
}

/// Shortening a shortened text changes nothing.
pub proof fn lemma_truncate_idempotent(s: Seq<char>, max_length: nat)
    requires
        truncation_defined(s, max_length),
    ensures
        truncation_defined(truncated(s, max_length), max_length),
        truncated(truncated(s, max_length), max_length) == truncated(s, max_length),
{
    if max_length > 0 {
        lemma_truncated_fits(s, max_length);
    }
}

/// A shortened text begins with a prefix of the given text: all of it,
/// or a part followed by the marker.
pub proof fn lemma_truncated_keeps_prefix(s: Seq<char>, max_length: nat)
    requires
        truncation_defined(s, max_length),
    ensures
        truncated(s, max_length) == s || exists|k: int|
            0 <= k < s.len() && truncated(s, max_length) == s.take(k) + ellipsis(),
{
    if max_length > 0 && utf8_len(s) > max_length {
        let k = fitting_prefix_len(s, max_length - 3);
        lemma_fitting_prefix(s, max_length - 3);
        if k == s.len() {
            assert(s.take(k as int) =~= s);
        }
        assert(truncated(s, max_length) == s.take(k as int) + ellipsis());
    }
}

/// Whether two string slices hold the same characters.
pub fn str_eq(a: &str, b: &str) -> (res: bool)
    ensures
        res == (a@ == b@),
{
    let n = a.unicode_len();
    if n != b.unicode_len() {
        return false;
    }
    let mut i: usize = 0;
    while i < n
        invariant
            n == a@.len(),
            n == b@.len(),
            i <= n,
            forall|j: int| 0 <= j < i ==> a@[j] == b@[j],
        decreases n - i,
    {
        if a.get_char(i) != b.get_char(i) {
            return false;
        }
        i += 1;
    }
    assert(a@ =~= b@);
    true
}

/// Whether `s` begins with the characters of `prefix`.
pub fn has_prefix(s: &str, prefix: &str) -> (res: bool)
    ensures
        res == prefix@.is_prefix_of(s@),
{
    let n = prefix.unicode_len();
    if n > s.unicode_len() {
        return false;
    }
    let mut i: usize = 0;
    while i < n
        invariant
            n == prefix@.len(),
            n <= s@.len(),
            i <= n,
            forall|j: int| 0 <= j < i ==> prefix@[j] == s@[j],
        decreases n - i,
    {
        if prefix.get_char(i) != s.get_char(i) {
            return false;
        }
        i += 1;
    }
    true
}

} // verus!
