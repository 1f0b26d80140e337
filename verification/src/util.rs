//! MAC address parsing and the side-by-side display of a request and its
//! response.

use vstd::prelude::*;

use crate::command::MfgCmd;
use crate::ffi::{read_array, MAC_ADDR_LENGTH};
use crate::pretty::debug_text;
use crate::text::{
    all_digits, chars_of, digit_value, digits_value, find_char, from_str_radix, lemma_find_char,
    lemma_find_char_at, parse_int, push_char, slice_chars, split_char, split_on, views,
};
use vstd::utf8::{char_is_scalar, encode_scalar, encode_utf8};

verus! {

/// Why a MAC address was rejected.
#[derive(Debug, Clone, Copy, PartialEq, Eq, Structural)]
pub enum MacAddrError {
    /// The colon-separated segment at this index is not a hexadecimal byte.
    InvalidByte { segment: usize },
    /// The address has this many segments instead of `MAC_ADDR_LENGTH`.
    WrongLength { count: usize },
}

/// The bytes that the segments spell as hexadecimal numbers (each
/// `u8::from_str_radix(_, 16)`), or the index of the first segment that is
/// not one.
pub open spec fn parse_segments(parts: Seq<Seq<char>>) -> Result<Seq<u8>, nat>
    decreases parts.len(),
{
    if parts.len() == 0 {
        Ok(Seq::empty())
    } else {
        match from_str_radix(parts[0], 16, 0, 0xff) {
            None => Err(0),
            Some(v) => match parse_segments(parts.drop_first()) {
                Ok(rest) => Ok(seq![v as u8] + rest),
                Err(k) => Err(k + 1),
            },
        }
    }
}

/// The MAC address that `s` spells as colon-separated hexadecimal bytes.
pub open spec fn spec_parse_mac(s: Seq<char>) -> Result<Seq<u8>, MacAddrError> {
    match parse_segments(split_char(s, ':')) {
        Err(k) => Err(MacAddrError::InvalidByte { segment: k as usize }),
        Ok(bytes) => if bytes.len() != MAC_ADDR_LENGTH {
            Err(MacAddrError::WrongLength { count: bytes.len() as usize })
        } else {
            Ok(bytes)
        },
    }
}

/// The bytes of a MAC address result.
pub open spec fn mac_result(r: Result<[u8; MAC_ADDR_LENGTH], MacAddrError>) -> Result<
    Seq<u8>,
    MacAddrError,
> {
    match r {
        Ok(a) => Ok(a@),
        Err(e) => Err(e),
    }
}

pub proof fn lemma_parse_segments_len(parts: Seq<Seq<char>>)
    ensures
        parse_segments(parts) matches Ok(b) ==> b.len() == parts.len(),
        parse_segments(parts) matches Err(k) ==> k < parts.len(),
    decreases parts.len(),
{
    if parts.len() > 0 {
        lemma_parse_segments_len(parts.drop_first());
    }
}

/// Parse a MAC address given as characters, e.g. `00:11:22:33:44:55`.
pub fn parse_mac_chars(s: &[char]) -> (r: Result<[u8; MAC_ADDR_LENGTH], MacAddrError>)
    ensures
        mac_result(r) == spec_parse_mac(s@),
{
    let pieces = split_on(s, ':');
    let ghost parts = views(pieces@);
    let mut bytes: Vec<u8> = Vec::new();
    let mut k: usize = 0;
    assert(parts.skip(0) =~= parts);
    while k < pieces.len()
        invariant
            parts == views(pieces@),
            parts == split_char(s@, ':'),
            k <= pieces@.len(),
            bytes@.len() == k,
            parse_segments(parts) == (match parse_segments(parts.skip(k as int)) {
                Ok(rest) => Ok(bytes@ + rest),
                Err(j) => Err((j + k) as nat),
            }),
        decreases pieces@.len() - k,
    {
        let ghost rest = parts.skip(k as int);
        assert(rest[0] == pieces@[k as int]@);
        assert(rest.drop_first() =~= parts.skip(k + 1));
        match parse_int(pieces[k].as_slice(), 16, 0, 0xff) {
            None => {
                assert(parse_segments(rest) == Err::<Seq<u8>, nat>(0));
                assert(parse_segments(parts) == Err::<Seq<u8>, nat>(k as nat));
                return Err(MacAddrError::InvalidByte { segment: k });
            },
            Some(v) => {
                let ghost before = bytes@;
                bytes.push(v as u8);
                proof {
                    assert(bytes@ =~= before + seq![v as u8]);
                    match parse_segments(parts.skip(k + 1)) {
                        Ok(r2) => {
                            assert(before + (seq![v as u8] + r2) =~= bytes@ + r2);
                        },
                        Err(j) => {},
                    }
                }
            },
        }
        k = k + 1;
    }
    assert(parts.skip(k as int) =~= Seq::<Seq<char>>::empty());
    assert(bytes@ + Seq::<u8>::empty() =~= bytes@);
    if bytes.len() != MAC_ADDR_LENGTH {
        return Err(MacAddrError::WrongLength { count: bytes.len() });
    }
    let mac = read_array::<MAC_ADDR_LENGTH>(bytes.as_slice(), 0);
    assert(mac@ =~= bytes@);
    Ok(mac)
}

/// Parse a MAC address such as `00:11:22:33:44:55`.
pub fn parse_mac_addr(input: &str) -> (r: Result<[u8; MAC_ADDR_LENGTH], MacAddrError>)
    ensures
        mac_result(r) == spec_parse_mac(input@),
{
    let chars = chars_of(input);
    parse_mac_chars(chars.as_slice())
}

/// The number of bytes of the UTF-8 encoding of `s` (`str::len`).
pub open spec fn utf8_len(s: Seq<char>) -> nat {
    encode_utf8(s).len()
}

/// The number of bytes of the UTF-8 encoding of `c` (`char::len_utf8`).
pub open spec fn char_utf8_len(c: char) -> nat {
    if (c as u32) < 0x80 {
        1
    } else if (c as u32) < 0x800 {
        2
    } else if (c as u32) < 0x10000 {
        3
    } else {
        4
    }
}

/// The encoding of a character is `char_utf8_len(c)` bytes long.
pub proof fn lemma_char_utf8_len(c: char)
    ensures
        encode_scalar(c as u32).len() == char_utf8_len(c),
{
    char_is_scalar(c);
}

/// The encoding of a concatenation is the concatenation of the encodings.
pub proof fn lemma_encode_utf8_add(a: Seq<char>, b: Seq<char>)
    ensures
        encode_utf8(a + b) == encode_utf8(a) + encode_utf8(b),
    decreases a.len(),
{
    if a.len() == 0 {
        assert(a + b =~= b);
        assert(encode_utf8(a) + encode_utf8(b) =~= encode_utf8(b));
    } else {
        assert((a + b).drop_first() =~= a.drop_first() + b);
        lemma_encode_utf8_add(a.drop_first(), b);
        assert((a + b)[0] == a[0]);
        assert(encode_utf8(a + b) =~= encode_scalar(a[0] as u32) + (encode_utf8(a.drop_first())
            + encode_utf8(b)));
    }
}

/// The UTF-8 length of `s` is that of its first `i` characters plus that of the rest.
pub proof fn lemma_utf8_len_split(s: Seq<char>, i: int)
    requires
        0 <= i <= s.len(),
    ensures
        utf8_len(s) == utf8_len(s.take(i)) + utf8_len(s.skip(i)),
{
    assert(s =~= s.take(i) + s.skip(i));
    lemma_encode_utf8_add(s.take(i), s.skip(i));
}

/// Adding a character adds its encoded length.
pub proof fn lemma_utf8_len_push(s: Seq<char>, c: char)
    ensures
        utf8_len(s.push(c)) == utf8_len(s) + char_utf8_len(c),
{
    assert(s.push(c) =~= s + seq![c]);
    lemma_encode_utf8_add(s, seq![c]);
    lemma_char_utf8_len(c);
    assert(seq![c].drop_first() =~= Seq::<char>::empty());
    assert(encode_utf8(Seq::<char>::empty()) =~= Seq::<u8>::empty());
    assert(encode_utf8(seq![c]) =~= encode_scalar(c as u32));
}

/// A character's encoded length (`char::len_utf8`).
pub fn char_len_utf8(c: char) -> (r: usize)
    ensures
        r == char_utf8_len(c),
{
    let v = c as u32;
    if v < 0x80 {
        1
    } else if v < 0x800 {
        2
    } else if v < 0x10000 {
        3
    } else {
        4
    }
}

/// A line without the `\r` of a `\r\n` line ending.
pub open spec fn strip_cr(l: Seq<char>) -> Seq<char> {
    if l.len() > 0 && l.last() == '\r' {
        l.drop_last()
    } else {
        l
    }
}

/// The lines of `s` (`str::lines`): the pieces between `\n`s, each without
/// the `\r` of a `\r\n`; a final line ending is optional, so an empty last
/// piece is no line.
pub open spec fn lines(s: Seq<char>) -> Seq<Seq<char>> {
    let parts = split_char(s, '\n');
    let body = Seq::new((parts.len() - 1) as nat, |i: int| strip_cr(parts[i]));
    if parts.last().len() == 0 {
        body
    } else {
        body.push(parts.last())
    }
}

/// Every piece of a split, and so every line, is no longer in UTF-8 than the
/// whole text.
pub proof fn lemma_split_char_pieces(s: Seq<char>, sep: char)
    ensures
        split_char(s, sep).len() >= 1,
        forall|i: int|
            0 <= i < split_char(s, sep).len() ==> utf8_len(#[trigger] split_char(s, sep)[i])
                <= utf8_len(s),
    decreases s.len(),
{
    lemma_find_char(s, sep);
    match find_char(s, sep) {
        None => {},
        Some(k) => {
            let rest = s.skip(k + 1 as int);
            lemma_split_char_pieces(rest, sep);
            lemma_utf8_len_split(s, k as int);
            lemma_utf8_len_split(s, k + 1 as int);
            let parts = split_char(s, sep);
            assert forall|i: int| 0 <= i < parts.len() implies utf8_len(#[trigger] parts[i])
                <= utf8_len(s) by {
                if i > 0 {
                    assert(parts[i] == split_char(rest, sep)[i - 1]);
                }
            }
        },
    }
}

/// The lines of `s` (`str::lines`).
pub fn lines_of(s: &[char]) -> (r: Vec<Vec<char>>)
    ensures
        views(r@) == lines(s@),
{
    let parts = split_on(s, '\n');
    proof {
        lemma_split_char_pieces(s@, '\n');
    }
    let ghost ps = views(parts@);
    let ghost body = Seq::new((ps.len() - 1) as nat, |i: int| strip_cr(ps[i]));
    let last = parts.len() - 1;
    let mut out: Vec<Vec<char>> = Vec::new();
    let mut i: usize = 0;
    while i < last
        invariant
            ps == views(parts@),
            ps == split_char(s@, '\n'),
            last == ps.len() - 1,
            body == Seq::new((ps.len() - 1) as nat, |i: int| strip_cr(ps[i])),
            i <= last,
            views(out@) == body.take(i as int),
        decreases last - i,
    {
        let p = &parts[i];
        assert(p@ == ps[i as int]);
        let n = p.len();
        let line = if n > 0 && p[n - 1] == '\r' {
            slice_chars(p.as_slice(), 0, n - 1)
        } else {
            slice_chars(p.as_slice(), 0, n)
        };
        assert(line@ =~= strip_cr(p@));
        let ghost before = views(out@);
        out.push(line);
        assert(views(out@) =~= before.push(line@));
        assert(body[i as int] == strip_cr(ps[i as int]));
        i = i + 1;
        assert(views(out@) =~= body.take(i as int));
    }
    assert(body.take(i as int) =~= body);
    let p = &parts[last];
    assert(p@ == ps.last());
    if p.len() > 0 {
        let line = slice_chars(p.as_slice(), 0, p.len());
        assert(line@ =~= p@);
        let ghost before = views(out@);
        out.push(line);
        assert(views(out@) =~= before.push(line@));
        assert(views(out@) =~= body.push(ps.last()));
    }
    out
}

/// `k` spaces.
pub open spec fn spaces(k: nat) -> Seq<char> {
    Seq::new(k, |i: int| ' ')
}

/// `s` padded with spaces to `width` characters (`{:width$}`).
pub open spec fn pad(s: Seq<char>, width: nat) -> Seq<char> {
    if s.len() < width {
        s + spaces((width - s.len()) as nat)
    } else {
        s
    }
}

/// The widest UTF-8 length among the first `n` lines of `a` and of `b`.
pub open spec fn widest(a: Seq<Seq<char>>, b: Seq<Seq<char>>, n: nat) -> nat
    decreases n,
{
    if n == 0 {
        0
    } else {
        let w = widest(a, b, (n - 1) as nat);
        let x = if utf8_len(a[n - 1]) < utf8_len(b[n - 1]) {
            utf8_len(b[n - 1])
        } else {
            utf8_len(a[n - 1])
        };
        if w < x {
            x
        } else {
            w
        }
    }
}

/// One row of the display: the request line and the response line, each
/// padded to `width`, separated by `  =>  ` on the middle row and by blanks
/// elsewhere.
pub open spec fn row(req: Seq<char>, resp: Seq<char>, width: nat, arrow: bool) -> Seq<char> {
    let sep = if arrow {
        seq![' ', ' ', '=', '>', ' ', ' ']
    } else {
        spaces(6)
    };
    pad(req, width) + sep + pad(resp, width) + seq!['\n']
}

/// The first `n` rows of the display.
pub open spec fn rows(
    a: Seq<Seq<char>>,
    b: Seq<Seq<char>>,
    width: nat,
    middle: nat,
    n: nat,
) -> Seq<char>
    decreases n,
{
    if n == 0 {
        Seq::empty()
    } else {
        rows(a, b, width, middle, (n - 1) as nat) + row(
            a[n - 1],
            b[n - 1],
            width,
            n - 1 == middle,
        )
    }
}

/// Two texts side by side, line by line, as long as both have lines; the
/// column width is the widest UTF-8 length among the paired lines, and the
/// arrow stands on the row whose index is half the larger line count.
pub open spec fn spec_side_by_side(req: Seq<char>, resp: Seq<char>) -> Seq<char> {
    let a = lines(req);
    let b = lines(resp);
    let n = if a.len() < b.len() {
        a.len()
    } else {
        b.len()
    };
    let m = if a.len() < b.len() {
        b.len()
    } else {
        a.len()
    };
    rows(a, b, widest(a, b, n), m / 2, n)
}

/// The UTF-8 length of `s` (at most four bytes a character, so it fits a
/// `u128`).
fn utf8_count(s: &[char]) -> (r: u128)
    ensures
        r == utf8_len(s@),
{
    let mut total: u128 = 0;
    let mut i: usize = 0;
    let n = s.len();
    assert(s@.take(0) =~= Seq::<char>::empty());
    assert(encode_utf8(Seq::<char>::empty()) =~= Seq::<u8>::empty());
    while i < n
        invariant
            n == s@.len(),
            i <= s@.len(),
            total == utf8_len(s@.take(i as int)),
            total <= 4 * i,
        decreases s@.len() - i,
    {
        proof {
            lemma_utf8_len_push(s@.take(i as int), s@[i as int]);
            assert(s@.take(i as int).push(s@[i as int]) =~= s@.take(i + 1));
        }
        total = total + char_len_utf8(s[i]) as u128;
        i = i + 1;
    }
    assert(s@.take(i as int) =~= s@);
    total
}

/// Append `s` padded to `width` characters.
fn push_padded(out: &mut String, s: &[char], width: u128)
    ensures
        final(out)@ == old(out)@ + pad(s@, width as nat),
{
    let ghost start = out@;
    let mut i: usize = 0;
    while i < s.len()
        invariant
            i <= s@.len(),
            out@ == start + s@.take(i as int),
        decreases s@.len() - i,
    {
        push_char(out, s[i]);
        i = i + 1;
        assert(out@ =~= start + s@.take(i as int));
    }
    assert(s@.take(i as int) =~= s@);
    let mut k: u128 = s.len() as u128;
    while k < width
        invariant
            s@.len() <= k <= width || (k == s@.len() && k >= width),
            out@ == start + s@ + spaces((k - s@.len()) as nat),
        decreases width - k,
    {
        push_char(out, ' ');
        k = k + 1;
        assert(out@ =~= start + s@ + spaces((k - s@.len()) as nat));
    }
    if s.len() as u128 >= width {
        assert(out@ =~= start + s@);
    } else {
        assert(k == width);
    }
}

/// Append one row of the display.
fn push_row(out: &mut String, req: &[char], resp: &[char], width: u128, arrow: bool)
    ensures
        final(out)@ == old(out)@ + row(req@, resp@, width as nat, arrow),
{
    let ghost start = out@;
    push_padded(out, req, width);
    push_char(out, ' ');
    push_char(out, ' ');
    if arrow {
        push_char(out, '=');
        push_char(out, '>');
    } else {
        push_char(out, ' ');
        push_char(out, ' ');
    }
    push_char(out, ' ');
    push_char(out, ' ');
    push_padded(out, resp, width);
    push_char(out, '\n');
    let ghost sep = if arrow {
        seq![' ', ' ', '=', '>', ' ', ' ']
    } else {
        spaces(6)
    };
    assert(out@ =~= start + (pad(req@, width as nat) + sep + pad(resp@, width as nat) + seq!['\n']));
}

/// The request and the response side by side, line by line.
pub fn side_by_side(request: &str, response: &str) -> (r: String)
    ensures
        r@ == spec_side_by_side(request@, response@),
{
    let rc = chars_of(request);
    let sc = chars_of(response);
    let a = lines_of(rc.as_slice());
    let b = lines_of(sc.as_slice());
    let ghost va = views(a@);
    let ghost vb = views(b@);
    let n = if a.len() < b.len() {
        a.len()
    } else {
        b.len()
    };
    let m = if a.len() < b.len() {
        b.len()
    } else {
        a.len()
    };
    let mut width: u128 = 0;
    let mut i: usize = 0;
    while i < n
        invariant
            va == views(a@),
            vb == views(b@),
            va == lines(request@),
            vb == lines(response@),
            n <= a@.len(),
            n <= b@.len(),
            i <= n,
            width == widest(va, vb, i as nat),
        decreases n - i,
    {
        assert(a[i as int]@ == va[i as int]);
        assert(b[i as int]@ == vb[i as int]);
        let wa = utf8_count(a[i].as_slice());
        let wb = utf8_count(b[i].as_slice());
        let x = if wa < wb {
            wb
        } else {
            wa
        };
        if width < x {
            width = x;
        }
        i = i + 1;
    }
    let middle = m / 2;
    let mut out = String::new();
    let mut k: usize = 0;
    while k < n
        invariant
            va == views(a@),
            vb == views(b@),
            n <= a@.len(),
            n <= b@.len(),
            k <= n,
            out@ == rows(va, vb, width as nat, middle as nat, k as nat),
        decreases n - k,
    {
        assert(a[k as int]@ == va[k as int]);
        assert(b[k as int]@ == vb[k as int]);
        push_row(&mut out, a[k].as_slice(), b[k].as_slice(), width, k == middle);
        k = k + 1;
    }
    out
}

/// The pretty-printed request and response side by side, line by line, with
/// an arrow on the middle row.
pub fn format_request_response(request: &MfgCmd, response: &MfgCmd) -> (r: String)
    ensures
        r@ == spec_side_by_side(debug_text(request@), debug_text(response@)),
{
    let req = request.debug_string();
    let resp = response.debug_string();
    side_by_side(req.as_str(), resp.as_str())
}


/// The hexadecimal digit of `d` (below 16), in upper or lower case.
pub open spec fn hex_digit_char(d: nat, upper: bool) -> char {
    if d < 10 {
        ((0x30 + d) as u32) as char
    } else if upper {
        ((0x41 + d - 10) as u32) as char
    } else {
        ((0x61 + d - 10) as u32) as char
    }
}

/// The two hexadecimal digits of `b` (`{:02x}` or `{:02X}`).
pub open spec fn hex_byte(b: u8, upper: bool) -> Seq<char> {
    seq![hex_digit_char((b / 16) as nat, upper), hex_digit_char((b % 16) as nat, upper)]
}

/// The bytes `bs` written as two hexadecimal digits each, separated by `:`.
pub open spec fn mac_text(bs: Seq<u8>, upper: bool) -> Seq<char>
    decreases bs.len(),
{
    if bs.len() <= 1 {
        if bs.len() == 1 {
            hex_byte(bs[0], upper)
        } else {
            Seq::empty()
        }
    } else {
        hex_byte(bs[0], upper) + seq![':'] + mac_text(bs.drop_first(), upper)
    }
}

proof fn lemma_hex_byte_value(b: u8, upper: bool)
    ensures
        from_str_radix(hex_byte(b, upper), 16, 0, 0xff) == Some(b as int),
        hex_byte(b, upper)[0] != ':',
        hex_byte(b, upper)[1] != ':',
{
    let s = hex_byte(b, upper);
    let hi = (b / 16) as nat;
    let lo = (b % 16) as nat;
    assert(digit_value(hex_digit_char(hi, upper), 16) == Some(hi));
    assert(digit_value(hex_digit_char(lo, upper), 16) == Some(lo));
    assert(s.drop_last() =~= seq![s[0]]);
    assert(seq![s[0]].drop_last() =~= Seq::<char>::empty());
    assert(digits_value(Seq::<char>::empty(), 16) == 0);
    assert(seq![s[0]].last() == s[0]);
    assert(digits_value(seq![s[0]], 16) == digits_value(Seq::<char>::empty(), 16) * 16 + hi);
    assert(digits_value(seq![s[0]], 16) == hi);
    assert(digits_value(s, 16) == hi * 16 + lo);
    assert(all_digits(s, 16));
}

proof fn lemma_no_sep(s: Seq<char>, c: char)
    requires
        forall|i: int| 0 <= i < s.len() ==> s[i] != c,
    ensures
        find_char(s, c) is None,
    decreases s.len(),
{
    if s.len() > 0 {
        lemma_no_sep(s.drop_first(), c);
    }
}

proof fn lemma_split_mac_text(bs: Seq<u8>, upper: bool)
    requires
        bs.len() >= 1,
    ensures
        split_char(mac_text(bs, upper), ':') == Seq::new(bs.len(), |i: int| hex_byte(bs[i], upper)),
    decreases bs.len(),
{
    lemma_hex_byte_value(bs[0], upper);
    let h = hex_byte(bs[0], upper);
    if bs.len() == 1 {
        lemma_no_sep(h, ':');
        assert(Seq::new(bs.len(), |i: int| hex_byte(bs[i], upper)) =~= seq![h]);
    } else {
        let rest = mac_text(bs.drop_first(), upper);
        let t = h + seq![':'] + rest;
        lemma_find_char_at(t, ':', 2);
        assert(t.take(2) =~= h);
        assert(t.skip(3) =~= rest);
        lemma_split_mac_text(bs.drop_first(), upper);
        assert(Seq::new(bs.len(), |i: int| hex_byte(bs[i], upper)) =~= seq![h] + Seq::new(
            bs.drop_first().len(),
            |i: int| hex_byte(bs.drop_first()[i], upper),
        ));
    }
}

proof fn lemma_parse_hex_bytes(bs: Seq<u8>, upper: bool)
    ensures
        parse_segments(Seq::new(bs.len(), |i: int| hex_byte(bs[i], upper))) == Ok::<Seq<u8>, nat>(bs),
    decreases bs.len(),
{
    let parts = Seq::new(bs.len(), |i: int| hex_byte(bs[i], upper));
    if bs.len() > 0 {
        lemma_hex_byte_value(bs[0], upper);
        lemma_parse_hex_bytes(bs.drop_first(), upper);
        assert(parts.drop_first() =~= Seq::new(
            bs.drop_first().len(),
            |i: int| hex_byte(bs.drop_first()[i], upper),
        ));
        assert(seq![bs[0]] + bs.drop_first() =~= bs);
    } else {
        assert(bs =~= Seq::<u8>::empty());
    }
}

/// A MAC address written as six two-digit hexadecimal bytes separated by
/// `:` (as `{:02x}` or `{:02X}` write them) reads back as the same address.
pub proof fn lemma_parse_mac_text(a: [u8; MAC_ADDR_LENGTH], upper: bool)
    ensures
        spec_parse_mac(mac_text(a@, upper)) == Ok::<Seq<u8>, MacAddrError>(a@),
{
    lemma_split_mac_text(a@, upper);
    lemma_parse_hex_bytes(a@, upper);
}


/// A text has at least as many UTF-8 bytes as characters.
pub proof fn lemma_chars_le_utf8_len(s: Seq<char>)
    ensures
        s.len() <= utf8_len(s),
    decreases s.len(),
{
    if s.len() > 0 {
        lemma_chars_le_utf8_len(s.drop_last());
        lemma_utf8_len_push(s.drop_last(), s.last());
        assert(s.drop_last().push(s.last()) =~= s);
    }
}

proof fn lemma_widest_bounds(a: Seq<Seq<char>>, b: Seq<Seq<char>>, n: nat, i: int)
    requires
        0 <= i < n,
    ensures
        utf8_len(a[i]) <= widest(a, b, n),
        utf8_len(b[i]) <= widest(a, b, n),
    decreases n,
{
    if i < n - 1 {
        lemma_widest_bounds(a, b, (n - 1) as nat, i);
    }
}

proof fn lemma_rows_shape(
    a: Seq<Seq<char>>,
    b: Seq<Seq<char>>,
    width: nat,
    middle: nat,
    k: nat,
)
    requires
        forall|i: int| 0 <= i < k ==> a[i].len() <= width && b[i].len() <= width,
    ensures
        rows(a, b, width, middle, k).len() == k * (2 * width + 7),
        forall|i: int|
            0 <= i < k ==> rows(a, b, width, middle, k).subrange(
                i * (2 * width + 7),
                (i + 1) * (2 * width + 7),
            ) == row(a[i], b[i], width, i == middle),
    decreases k,
{
    let l = 2 * width + 7;
    if k > 0 {
        lemma_rows_shape(a, b, width, middle, (k - 1) as nat);
        let prev = rows(a, b, width, middle, (k - 1) as nat);
        let r = row(a[k - 1], b[k - 1], width, k - 1 == middle);
        assert(pad(a[k - 1], width).len() == width);
        assert(pad(b[k - 1], width).len() == width);
        assert(r.len() == l);
        assert((k - 1) * l + l == k * l) by (nonlinear_arith);
        assert(rows(a, b, width, middle, k) == prev + r);
        assert(prev.len() == (k - 1) * l);
        assert forall|i: int| 0 <= i < k implies rows(a, b, width, middle, k).subrange(
            i * l,
            (i + 1) * l,
        ) == row(a[i], b[i], width, i == middle) by {
            if i < k - 1 {
                assert((i + 1) * l <= (k - 1) * l) by (nonlinear_arith)
                    requires
                        i + 1 <= k - 1,
                        l >= 0,
                ;
                assert(0 <= i * l) by (nonlinear_arith)
                    requires
                        i >= 0,
                        l >= 0,
                ;
                assert((i + 1) * l == i * l + l) by (nonlinear_arith);
                let lo = i * l;
                let hi = (i + 1) * l;
                assert(0 <= lo <= hi <= prev.len());
                assert((prev + r).subrange(lo, hi) =~= prev.subrange(lo, hi));
            } else {
                assert(i * l == (k - 1) * l);
                assert((prev + r).subrange(i * l, (i + 1) * l) =~= r);
            }
        }
    }
}

/// The side-by-side display has one row for each line that both texts
/// have; every row is the request line and the response line, each padded
/// to the widest UTF-8 length `w` among the paired lines, with `  =>  ` on
/// row (larger line count) / 2 and six blanks elsewhere, and a newline: so
/// `2 w + 7` characters a row.
pub proof fn lemma_side_by_side_shape(req: Seq<char>, resp: Seq<char>)
    ensures
        ({
            let a = lines(req);
            let b = lines(resp);
            let n = if a.len() < b.len() {
                a.len()
            } else {
                b.len()
            };
            let m = if a.len() < b.len() {
                b.len()
            } else {
                a.len()
            };
            let w = widest(a, b, n);
            let text = spec_side_by_side(req, resp);
            &&& text.len() == n * (2 * w + 7)
            &&& forall|i: int|
                0 <= i < n ==> text.subrange(i * (2 * w + 7), (i + 1) * (2 * w + 7)) == row(
                    a[i],
                    b[i],
                    w,
                    i == m / 2,
                )
        }),
{
    let a = lines(req);
    let b = lines(resp);
    let n = if a.len() < b.len() {
        a.len()
    } else {
        b.len()
    };
    let w = widest(a, b, n);
    assert forall|i: int| 0 <= i < n implies a[i].len() <= w && b[i].len() <= w by {
        lemma_widest_bounds(a, b, n, i);
        lemma_chars_le_utf8_len(a[i]);
        lemma_chars_le_utf8_len(b[i]);
    }
    let m = if a.len() < b.len() {
        b.len()
    } else {
        a.len()
    };
    lemma_rows_shape(a, b, w, m / 2, n);
}


proof fn lemma_parse_segments_bytes(parts: Seq<Seq<char>>)
    ensures
        parse_segments(parts) is Ok <==> forall|i: int|
            0 <= i < parts.len() ==> (#[trigger] from_str_radix(parts[i], 16, 0, 0xff)) is Some,
        parse_segments(parts) matches Ok(b) ==> b.len() == parts.len() && forall|i: int|
            0 <= i < parts.len() ==> from_str_radix(parts[i], 16, 0, 0xff) == Some(
                #[trigger] b[i] as int,
            ),
    decreases parts.len(),
{
    if parts.len() > 0 {
        let rest = parts.drop_first();
        lemma_parse_segments_bytes(rest);
        assert forall|i: int| 1 <= i < parts.len() implies parts[i] == rest[i - 1] by {}
        if from_str_radix(parts[0], 16, 0, 0xff) is Some && parse_segments(rest) is Ok {
            let b = parse_segments(parts)->Ok_0;
            let rb = parse_segments(rest)->Ok_0;
            assert forall|i: int| 1 <= i < parts.len() implies from_str_radix(parts[i], 16, 0, 0xff)
                == Some(#[trigger] b[i] as int) by {
                assert(b[i] == rb[i - 1]);
                assert(from_str_radix(rest[i - 1], 16, 0, 0xff) == Some(rb[i - 1] as int));
            }
        }
        if parse_segments(rest) is Err {
            let k = choose|i: int|
                0 <= i < rest.len() && !((#[trigger] from_str_radix(rest[i], 16, 0, 0xff)) is Some);
            assert(from_str_radix(parts[k + 1], 16, 0, 0xff) is None);
        }
    }
}

/// `parse_mac_addr` gives the address `a` exactly when the text splits at
/// `:` into six segments and segment `i` reads as the hexadecimal byte
/// `a[i]`.
pub proof fn lemma_parse_mac_ok(s: Seq<char>, a: Seq<u8>)
    ensures
        spec_parse_mac(s) == Ok::<Seq<u8>, MacAddrError>(a) <==> ({
            let parts = split_char(s, ':');
            &&& parts.len() == MAC_ADDR_LENGTH
            &&& a.len() == MAC_ADDR_LENGTH
            &&& forall|i: int|
                0 <= i < MAC_ADDR_LENGTH ==> from_str_radix(parts[i], 16, 0, 0xff) == Some(
                    #[trigger] a[i] as int,
                )
        }),
{
    let parts = split_char(s, ':');
    lemma_parse_segments_bytes(parts);
    lemma_parse_segments_len(parts);
    if parts.len() == MAC_ADDR_LENGTH && a.len() == MAC_ADDR_LENGTH && (forall|i: int|
        0 <= i < MAC_ADDR_LENGTH ==> from_str_radix(parts[i], 16, 0, 0xff) == Some(
            #[trigger] a[i] as int,
        )) {
        assert forall|i: int| 0 <= i < parts.len() implies (#[trigger] from_str_radix(
            parts[i],
            16,
            0,
            0xff,
        )) is Some by {
            assert(from_str_radix(parts[i], 16, 0, 0xff) == Some(a[i] as int));
        }
        let b = parse_segments(parts)->Ok_0;
        assert forall|i: int| 0 <= i < a.len() implies b[i] == a[i] by {
            assert(from_str_radix(parts[i], 16, 0, 0xff) == Some(b[i] as int));
            assert(from_str_radix(parts[i], 16, 0, 0xff) == Some(a[i] as int));
        }
        assert(b =~= a);
    }
}

} // verus!
