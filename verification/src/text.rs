//! Character-level text handling with the semantics of the standard
//! library's `str` methods that the command syntaxes rely on: Unicode
//! whitespace, trimming, splitting, and integer parsing.

use vstd::prelude::*;
use vstd::string::StrSliceExecFns;

verus! {

/// The characters with the Unicode `White_Space` property (`char::is_whitespace`).
pub open spec fn is_whitespace(c: char) -> bool {
    let v = c as u32;
    ||| 0x09 <= v <= 0x0D
    ||| v == 0x20
    ||| v == 0x85
    ||| v == 0xA0
    ||| v == 0x1680
    ||| 0x2000 <= v <= 0x200A
    ||| v == 0x2028
    ||| v == 0x2029
    ||| v == 0x202F
    ||| v == 0x205F
    ||| v == 0x3000
}

pub fn char_is_whitespace(c: char) -> (r: bool)
    ensures
        r == is_whitespace(c),
{
    let v = c as u32;
    (0x09 <= v && v <= 0x0D) || v == 0x20 || v == 0x85 || v == 0xA0 || v == 0x1680 || (0x2000
        <= v && v <= 0x200A) || v == 0x2028 || v == 0x2029 || v == 0x202F || v == 0x205F || v
        == 0x3000
}

/// `s` without its leading whitespace.
pub open spec fn trim_start(s: Seq<char>) -> Seq<char>
    decreases s.len(),
{
    if s.len() > 0 && is_whitespace(s[0]) {
        trim_start(s.drop_first())
    } else {
        s
    }
}

/// `s` without its trailing whitespace.
pub open spec fn trim_end(s: Seq<char>) -> Seq<char>
    decreases s.len(),
{
    if s.len() > 0 && is_whitespace(s.last()) {
        trim_end(s.drop_last())
    } else {
        s
    }
}

/// `s` without leading and trailing whitespace (`str::trim`).
pub open spec fn trim(s: Seq<char>) -> Seq<char> {
    trim_end(trim_start(s))
}

/// The index of the first `c` in `s`, if any.
pub open spec fn find_char(s: Seq<char>, c: char) -> Option<nat>
    decreases s.len(),
{
    if s.len() == 0 {
        None
    } else if s[0] == c {
        Some(0)
    } else {
        match find_char(s.drop_first(), c) {
            Some(i) => Some(i + 1),
            None => None,
        }
    }
}

/// The length of the run of non-whitespace characters that starts `s`.
pub open spec fn word_len(s: Seq<char>) -> nat
    decreases s.len(),
{
    if s.len() == 0 || is_whitespace(s[0]) {
        0
    } else {
        1 + word_len(s.drop_first())
    }
}

pub proof fn lemma_word_len(s: Seq<char>)
    ensures
        word_len(s) <= s.len(),
        s.len() > 0 && !is_whitespace(s[0]) ==> word_len(s) > 0,
        forall|k: int| 0 <= k < word_len(s) ==> !is_whitespace(#[trigger] s[k]),
        word_len(s) < s.len() ==> is_whitespace(s[word_len(s) as int]),
    decreases s.len(),
{
    if s.len() > 0 && !is_whitespace(s[0]) {
        lemma_word_len(s.drop_first());
        assert forall|k: int| 0 <= k < word_len(s) implies !is_whitespace(#[trigger] s[k]) by {
            if k > 0 {
                assert(s[k] == s.drop_first()[k - 1]);
            }
        }
    }
}

pub proof fn lemma_find_char(s: Seq<char>, c: char)
    ensures
        find_char(s, c) matches Some(i) ==> i < s.len() && s[i as int] == c,
        find_char(s, c) matches Some(i) ==> forall|k: int| 0 <= k < i ==> s[k] != c,
        find_char(s, c) is None ==> forall|k: int| 0 <= k < s.len() ==> s[k] != c,
    decreases s.len(),
{
    if s.len() > 0 {
        lemma_find_char(s.drop_first(), c);
        if s[0] != c {
            assert forall|k: int| 1 <= k < s.len() implies s[k] == s.drop_first()[k - 1] by {}
        }
    }
}

/// The maximal runs of non-whitespace characters of `s`, in order
/// (`str::split_whitespace`).
pub open spec fn split_whitespace(s: Seq<char>) -> Seq<Seq<char>>
    decreases s.len(),
{
    if s.len() == 0 {
        Seq::empty()
    } else if is_whitespace(s[0]) {
        split_whitespace(s.drop_first())
    } else {
        let n = word_len(s);
        proof {
            lemma_word_len(s);
        }
        seq![s.take(n as int)] + split_whitespace(s.skip(n as int))
    }
}

/// The pieces of `s` between occurrences of `sep`, in order (`str::split`);
/// an empty `s` is one empty piece.
pub open spec fn split_char(s: Seq<char>, sep: char) -> Seq<Seq<char>>
    decreases s.len(),
{
    match find_char(s, sep) {
        None => seq![s],
        Some(i) => {
            proof {
                lemma_find_char(s, sep);
            }
            seq![s.take(i as int)] + split_char(s.skip(i + 1 as int), sep)
        },
    }
}

/// The characters of a `str`.
pub fn chars_of(s: &str) -> (r: Vec<char>)
    ensures
        r@ == s@,
{
    let n = s.unicode_len();
    let mut out: Vec<char> = Vec::new();
    let mut i: usize = 0;
    while i < n
        invariant
            n == s@.len(),
            i <= n,
            out@ == s@.take(i as int),
        decreases n - i,
    {
        out.push(s.get_char(i));
        i = i + 1;
        assert(out@ =~= s@.take(i as int));
    }
    assert(s@.take(n as int) =~= s@);
    out
}

/// Whether two character sequences are equal.
pub fn chars_eq(a: &[char], b: &[char]) -> (r: bool)
    ensures
        r == (a@ == b@),
{
    if a.len() != b.len() {
        return false;
    }
    let mut i: usize = 0;
    while i < a.len()
        invariant
            a@.len() == b@.len(),
            i <= a@.len(),
            forall|j: int| 0 <= j < i ==> a@[j] == b@[j],
        decreases a@.len() - i,
    {
        if a[i] != b[i] {
            return false;
        }
        i = i + 1;
    }
    assert(a@ =~= b@);
    true
}

/// Whether `a` holds the characters of the string `b`.
pub fn chars_eq_str(a: &[char], b: &str) -> (r: bool)
    ensures
        r == (a@ == b@),
{
    let bv = chars_of(b);
    chars_eq(a, bv.as_slice())
}

/// The characters `s[from..to]`.
pub fn slice_chars(s: &[char], from: usize, to: usize) -> (r: Vec<char>)
    requires
        from <= to <= s@.len(),
    ensures
        r@ == s@.subrange(from as int, to as int),
{
    let mut out: Vec<char> = Vec::new();
    let mut i = from;
    while i < to
        invariant
            from <= i <= to <= s@.len(),
            out@ == s@.subrange(from as int, i as int),
        decreases to - i,
    {
        out.push(s[i]);
        i = i + 1;
        assert(out@ =~= s@.subrange(from as int, i as int));
    }
    out
}

/// The bounds `(start, end)` of `trim(s)` in `s`.
pub fn trim_bounds(s: &[char]) -> (r: (usize, usize))
    ensures
        r.0 <= r.1 <= s@.len(),
        s@.subrange(r.0 as int, r.1 as int) == trim(s@),
{
    let n = s.len();
    let mut i: usize = 0;
    assert(s@.skip(0) =~= s@);
    while i < n && char_is_whitespace(s[i])
        invariant
            n == s@.len(),
            i <= n,
            trim_start(s@) == trim_start(s@.skip(i as int)),
        decreases n - i,
    {
        assert(s@.skip(i as int).drop_first() =~= s@.skip(i + 1));
        i = i + 1;
    }
    let ghost t = s@.skip(i as int);
    assert(trim_start(t) == t);
    let mut j: usize = n;
    while j > i && char_is_whitespace(s[j - 1])
        invariant
            n == s@.len(),
            i <= j <= n,
            t == s@.skip(i as int),
            trim_end(t) == trim_end(s@.subrange(i as int, j as int)),
        decreases j,
    {
        assert(s@.subrange(i as int, j as int).drop_last() =~= s@.subrange(i as int, j - 1));
        j = j - 1;
    }
    assert(s@.skip(i as int) =~= s@.subrange(i as int, n as int));
    (i, j)
}

/// The index of the first `c` in `s`, if any.
pub fn find(s: &[char], c: char) -> (r: Option<usize>)
    ensures
        r matches Some(i) ==> find_char(s@, c) == Some(i as nat),
        r is None ==> find_char(s@, c) is None,
{
    let mut i: usize = 0;
    assert(s@.skip(0) =~= s@);
    while i < s.len()
        invariant
            i <= s@.len(),
            find_char(s@, c) == (match find_char(s@.skip(i as int), c) {
                Some(k) => Some((k + i) as nat),
                None => None::<nat>,
            }),
        decreases s@.len() - i,
    {
        if s[i] == c {
            return Some(i);
        }
        assert(s@.skip(i as int).drop_first() =~= s@.skip(i + 1));
        i = i + 1;
    }
    None
}

/// The words of `s` (`str::split_whitespace`).
pub fn words(s: &[char]) -> (r: Vec<Vec<char>>)
    ensures
        views(r@) == split_whitespace(s@),
{
    let n = s.len();
    let mut out: Vec<Vec<char>> = Vec::new();
    let mut i: usize = 0;
    assert(s@.skip(0) =~= s@);
    while i < n
        invariant
            n == s@.len(),
            i <= n,
            views(out@) + split_whitespace(s@.skip(i as int)) == split_whitespace(s@),
        decreases n - i,
    {
        let ghost rest = s@.skip(i as int);
        if char_is_whitespace(s[i]) {
            assert(rest.drop_first() =~= s@.skip(i + 1));
            i = i + 1;
        } else {
            let mut j = i;
            while j < n && !char_is_whitespace(s[j])
                invariant
                    n == s@.len(),
                    i <= j <= n,
                    rest == s@.skip(i as int),
                    word_len(rest) == (j - i) + word_len(s@.skip(j as int)),
                decreases n - j,
            {
                assert(s@.skip(j as int).drop_first() =~= s@.skip(j + 1));
                j = j + 1;
            }
            let word = slice_chars(s, i, j);
            let ghost before = views(out@);
            out.push(word);
            assert(views(out@) =~= before.push(word@));
            assert(rest.take((j - i) as int) =~= word@);
            assert(rest.skip((j - i) as int) =~= s@.skip(j as int));
            assert(before.push(word@) + split_whitespace(s@.skip(j as int)) =~= before + (seq![
                word@,
            ] + split_whitespace(s@.skip(j as int))));
            i = j;
        }
    }
    assert(s@.skip(n as int) =~= Seq::<char>::empty());
    assert(views(out@) + Seq::<Seq<char>>::empty() =~= views(out@));
    out
}

/// The value of the digit `c` in base `radix` (10 or 16, either case).
pub open spec fn digit_value(c: char, radix: nat) -> Option<nat> {
    let v = c as u32;
    if 0x30 <= v <= 0x39 {
        Some((v - 0x30) as nat)
    } else if radix == 16 && 0x61 <= v <= 0x66 {
        Some((v - 0x61 + 10) as nat)
    } else if radix == 16 && 0x41 <= v <= 0x46 {
        Some((v - 0x41 + 10) as nat)
    } else {
        None
    }
}

/// Every character of `s` is a digit in base `radix`.
pub open spec fn all_digits(s: Seq<char>, radix: nat) -> bool {
    forall|i: int| 0 <= i < s.len() ==> (#[trigger] digit_value(s[i], radix)) is Some
}

/// The number that the digits `s` spell in base `radix`, most significant first.
pub open spec fn digits_value(s: Seq<char>, radix: nat) -> nat
    decreases s.len(),
{
    if s.len() == 0 {
        0
    } else {
        digits_value(s.drop_last(), radix) * radix + digit_value(s.last(), radix)->Some_0
    }
}

/// The integer that `s` spells in base `radix` for a type with range
/// `lo..=hi`, as `from_str_radix` reads it: an optional `+` (or `-` where
/// the type is signed), then at least one digit; `None` for anything else or
/// a value out of range.
pub open spec fn from_str_radix(s: Seq<char>, radix: nat, lo: int, hi: int) -> Option<int> {
    if s.len() == 0 {
        None
    } else {
        let neg = s[0] == '-' && lo < 0;
        let digits = if s[0] == '+' || neg {
            s.drop_first()
        } else {
            s
        };
        if digits.len() == 0 || !all_digits(digits, radix) {
            None
        } else {
            let v = if neg {
                -digits_value(digits, radix)
            } else {
                digits_value(digits, radix) as int
            };
            if lo <= v <= hi {
                Some(v)
            } else {
                None
            }
        }
    }
}

/// The value of the digit `c` in base `radix`.
pub fn digit(c: char, radix: u32) -> (r: Option<u32>)
    requires
        radix == 10 || radix == 16,
    ensures
        r matches Some(d) ==> digit_value(c, radix as nat) == Some(d as nat) && d < radix,
        r is None ==> digit_value(c, radix as nat) is None,
{
    let v = c as u32;
    if 0x30 <= v && v <= 0x39 {
        Some(v - 0x30)
    } else if radix == 16 && 0x61 <= v && v <= 0x66 {
        Some(v - 0x61 + 10)
    } else if radix == 16 && 0x41 <= v && v <= 0x46 {
        Some(v - 0x41 + 10)
    } else {
        None
    }
}

const VALUE_CAP: u128 = 0x1_0000_0000_0000_0000;

/// The integer that `s` spells in base `radix` for a type with range
/// `lo..=hi` (see `from_str_radix`).
pub fn parse_int(s: &[char], radix: u32, lo: i128, hi: i128) -> (r: Option<i128>)
    requires
        radix == 10 || radix == 16,
        -0xffff_ffff_ffff_ffff <= lo <= 0 <= hi <= 0xffff_ffff_ffff_ffff,
    ensures
        r matches Some(v) ==> from_str_radix(s@, radix as nat, lo as int, hi as int) == Some(
            v as int,
        ),
        r is None ==> from_str_radix(s@, radix as nat, lo as int, hi as int) is None,
{
    if s.len() == 0 {
        return None;
    }
    let neg = s[0] == '-' && lo < 0;
    let start: usize = if s[0] == '+' || neg {
        1
    } else {
        0
    };
    let ghost digits = if s@[0] == '+' || neg {
        s@.drop_first()
    } else {
        s@
    };
    assert(digits =~= s@.skip(start as int));
    if start == s.len() {
        return None;
    }
    let mut acc: u128 = 0;
    let mut i: usize = start;
    assert(s@.subrange(start as int, start as int) =~= Seq::<char>::empty());
    while i < s.len()
        invariant
            radix == 10 || radix == 16,
            start <= i <= s@.len(),
            digits == s@.skip(start as int),
            s@.len() > 0,
            digits == (if s@[0] == '+' || (s@[0] == '-' && lo < 0) {
                s@.drop_first()
            } else {
                s@
            }),
            all_digits(s@.subrange(start as int, i as int), radix as nat),
            acc == (if digits_value(s@.subrange(start as int, i as int), radix as nat) <= VALUE_CAP {
                digits_value(s@.subrange(start as int, i as int), radix as nat) as u128
            } else {
                VALUE_CAP
            }),
        decreases s@.len() - i,
    {
        let ghost prefix = s@.subrange(start as int, i as int);
        let ghost next_prefix = s@.subrange(start as int, i + 1);
        assert(next_prefix.drop_last() =~= prefix);
        match digit(s[i], radix) {
            None => {
                assert(digits[i - start] == s@[i as int]);
                assert(digit_value(digits[i - start], radix as nat) is None);
                return None;
            },
            Some(d) => {
                let ghost old_value = digits_value(prefix, radix as nat);
                let next = acc * (radix as u128) + (d as u128);
                acc = if next > VALUE_CAP {
                    VALUE_CAP
                } else {
                    next
                };
                proof {
                    assert(digits_value(next_prefix, radix as nat) == old_value * radix + d);
                    if old_value > VALUE_CAP {
                        if radix == 10 {
                            assert(old_value * 10 + d > VALUE_CAP);
                        } else {
                            assert(old_value * 16 + d > VALUE_CAP);
                        }
                    }
                }
                assert forall|j: int| 0 <= j < next_prefix.len() implies (#[trigger] digit_value(
                    next_prefix[j],
                    radix as nat,
                )) is Some by {
                    if j < prefix.len() {
                        assert(next_prefix[j] == prefix[j]);
                    }
                }
            },
        }
        i = i + 1;
    }
    assert(s@.subrange(start as int, s@.len() as int) =~= digits);
    if acc >= VALUE_CAP {
        return None;
    }
    let magnitude = acc as i128;
    let v = if neg {
        -magnitude
    } else {
        magnitude
    };
    if lo <= v && v <= hi {
        Some(v)
    } else {
        None
    }
}

pub proof fn lemma_find_char_at(s: Seq<char>, c: char, i: int)
    requires
        0 <= i < s.len(),
        s[i] == c,
        forall|k: int| 0 <= k < i ==> s[k] != c,
    ensures
        find_char(s, c) == Some(i as nat),
    decreases i,
{
    if i > 0 {
        lemma_find_char_at(s.drop_first(), c, i - 1);
    }
}

/// The pieces of `s` between occurrences of `sep` (`str::split`).
pub fn split_on(s: &[char], sep: char) -> (r: Vec<Vec<char>>)
    ensures
        views(r@) == split_char(s@, sep),
{
    let n = s.len();
    let mut out: Vec<Vec<char>> = Vec::new();
    let mut start: usize = 0;
    let mut j: usize = 0;
    assert(s@.skip(0) =~= s@);
    while j < n
        invariant
            n == s@.len(),
            start <= j <= n,
            forall|k: int| start <= k < j ==> s@[k] != sep,
            views(out@) + split_char(s@.skip(start as int), sep) == split_char(s@, sep),
        decreases n - j,
    {
        if s[j] == sep {
            let ghost rest = s@.skip(start as int);
            proof {
                lemma_find_char_at(rest, sep, j - start);
            }
            let piece = slice_chars(s, start, j);
            let ghost before = views(out@);
            out.push(piece);
            assert(views(out@) =~= before.push(piece@));
            assert(rest.take(j - start) =~= piece@);
            assert(rest.skip(j - start + 1) =~= s@.skip(j + 1));
            assert(before.push(piece@) + split_char(s@.skip(j + 1), sep) =~= before + (seq![piece@]
                + split_char(s@.skip(j + 1), sep)));
            start = j + 1;
        }
        j = j + 1;
    }
    let ghost rest = s@.skip(start as int);
    proof {
        lemma_find_char(rest, sep);
    }
    let piece = slice_chars(s, start, n);
    let ghost before = views(out@);
    assert(piece@ =~= rest);
    out.push(piece);
    assert(views(out@) =~= before.push(piece@));
    assert(before + seq![rest] =~= before.push(rest));
    out
}

/// The character sequences that the vectors hold.
pub open spec fn views(v: Seq<Vec<char>>) -> Seq<Seq<char>> {
    Seq::new(v.len(), |i: int| v[i]@)
}

/// Appends `c` with `String::push`. Claimed, as its documentation states:
/// the string afterwards is the string before with `c` at its end.
#[verifier::external_body]
pub(crate) fn push_char(s: &mut String, c: char)
    ensures
        final(s)@ == old(s)@.push(c),
{
    s.push(c);
}

/// A string that holds the characters `s`.
pub fn string_of(s: &[char]) -> (r: String)
    ensures
        r@ == s@,
{
    let mut out = String::new();
    let mut i: usize = 0;
    while i < s.len()
        invariant
            i <= s@.len(),
            out@ == s@.take(i as int),
        decreases s@.len() - i,
    {
        push_char(&mut out, s[i]);
        i = i + 1;
        assert(out@ =~= s@.take(i as int));
    }
    assert(s@.take(i as int) =~= s@);
    out
}

/// Every character of `s` is whitespace.
pub open spec fn all_whitespace(s: Seq<char>) -> bool {
    forall|i: int| 0 <= i < s.len() ==> is_whitespace(#[trigger] s[i])
}

proof fn lemma_trim_start_skips(w: Seq<char>, t: Seq<char>)
    requires
        all_whitespace(w),
    ensures
        trim_start(w + t) == trim_start(t),
    decreases w.len(),
{
    if w.len() == 0 {
        assert(w + t =~= t);
    } else {
        assert((w + t)[0] == w[0]);
        assert((w + t).drop_first() =~= w.drop_first() + t);
        assert(all_whitespace(w.drop_first())) by {
            assert forall|i: int| 0 <= i < w.drop_first().len() implies is_whitespace(
                #[trigger] w.drop_first()[i],
            ) by {
                assert(w.drop_first()[i] == w[i + 1]);
            }
        }
        lemma_trim_start_skips(w.drop_first(), t);
    }
}

proof fn lemma_trim_end_skips(t: Seq<char>, w: Seq<char>)
    requires
        all_whitespace(w),
    ensures
        trim_end(t + w) == trim_end(t),
    decreases w.len(),
{
    if w.len() == 0 {
        assert(t + w =~= t);
    } else {
        assert((t + w).last() == w.last());
        assert((t + w).drop_last() =~= t + w.drop_last());
        assert(all_whitespace(w.drop_last())) by {
            assert forall|i: int| 0 <= i < w.drop_last().len() implies is_whitespace(
                #[trigger] w.drop_last()[i],
            ) by {
                assert(w.drop_last()[i] == w[i]);
            }
        }
        lemma_trim_end_skips(t, w.drop_last());
    }
}

proof fn lemma_trim_start_append(s: Seq<char>, w: Seq<char>)
    ensures
        trim_start(s + w) == if trim_start(s).len() > 0 {
            trim_start(s) + w
        } else {
            trim_start(w)
        },
    decreases s.len(),
{
    if s.len() == 0 {
        assert(s + w =~= w);
    } else {
        assert((s + w)[0] == s[0]);
        if is_whitespace(s[0]) {
            assert((s + w).drop_first() =~= s.drop_first() + w);
            lemma_trim_start_append(s.drop_first(), w);
        }
    }
}

proof fn lemma_trim_start_whitespace(w: Seq<char>)
    requires
        all_whitespace(w),
    ensures
        trim_start(w).len() == 0,
{
    lemma_trim_start_skips(w, Seq::empty());
    assert(w + Seq::<char>::empty() =~= w);
}

/// Whitespace around a text does not change it trimmed.
pub proof fn lemma_trim_surrounded(pre: Seq<char>, s: Seq<char>, post: Seq<char>)
    requires
        all_whitespace(pre),
        all_whitespace(post),
    ensures
        trim(pre + s + post) == trim(s),
{
    assert(pre + s + post =~= pre + (s + post));
    lemma_trim_start_skips(pre, s + post);
    lemma_trim_start_append(s, post);
    if trim_start(s).len() > 0 {
        lemma_trim_end_skips(trim_start(s), post);
    } else {
        lemma_trim_start_whitespace(post);
        assert(trim_start(s) =~= trim_start(post));
    }
}

} // verus!
