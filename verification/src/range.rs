//! The `Range` request header: which bytes of a track to send.
//!
//! The header's value is read as text when every byte of it is visible
//! ASCII or a tab (what `HeaderValue::to_str` accepts), and as `bytes=0-`
//! otherwise. Every leading `bytes=` is stripped; the rest is split at `-`:
//! the first field is the first byte (`0` when it does not parse), the
//! second the last byte (the file's last byte when absent or unparsable).
//! Without the header the range starts at the file's first byte. Either
//! way the range ends no later than the file's last byte, and never more
//! than `MAX_CHUNK_SIZE` bytes past its first byte, so no reply carries a
//! large file whole.

use vstd::prelude::*;
use crate::text::{
    bytes_of_text, decimal, first_index_from, first_index_of, is_digit,
    lemma_decimal_digits, lemma_first_index_of, lemma_parse_u64_of_decimal, matches_at,
    parse_u64, parse_u64_spec, starts_with,
};

verus! {

/// The most bytes past its first byte that one range may reach.
pub const MAX_CHUNK_SIZE: u64 = 512_000;

/// A byte that `HeaderValue::to_str` accepts: visible ASCII or a tab.
pub open spec fn is_visible_ascii(b: u8) -> bool {
    (32 <= b && b < 127) || b == 9
}

pub open spec fn is_header_text(h: Seq<u8>) -> bool {
    forall|i: int| 0 <= i < h.len() ==> #[trigger] is_visible_ascii(h[i])
}

/// `bytes=`, the unit prefix.
pub open spec fn bytes_unit() -> Seq<char> {
    seq!['b', 'y', 't', 'e', 's', '=']
}

/// `bytes=0-`, read in place of a header that is not text.
pub open spec fn default_range_text() -> Seq<char> {
    bytes_unit() + seq!['0', '-']
}

/// The header's value as text.
pub open spec fn header_text(h: Seq<u8>) -> Seq<char> {
    if is_header_text(h) {
        h.map_values(|b: u8| b as char)
    } else {
        default_range_text()
    }
}

/// `s.trim_start_matches(p)`: every leading copy of `p` removed.
pub open spec fn strip_prefixes(s: Seq<char>, p: Seq<char>) -> Seq<char>
    decreases s.len(),
{
    if p.len() > 0 && starts_with(s, p) {
        strip_prefixes(s.skip(p.len() as int), p)
    } else {
        s
    }
}

/// The first `-`-separated field of `s`.
pub open spec fn first_field(s: Seq<char>) -> Seq<char> {
    match first_index_of(s, '-') {
        Some(i) => s.take(i),
        None => s,
    }
}

/// The second `-`-separated field of `s`, when `s` has a `-`.
pub open spec fn second_field(s: Seq<char>) -> Option<Seq<char>> {
    match first_index_of(s, '-') {
        Some(i) => Some(first_field(s.skip(i + 1))),
        None => None,
    }
}

/// The range specification: the header's text without its unit prefixes.
pub open spec fn range_spec_text(h: Seq<u8>) -> Seq<char> {
    strip_prefixes(header_text(h), bytes_unit())
}

pub open spec fn view_header(h: Option<&[u8]>) -> Option<Seq<u8>> {
    match h {
        Some(b) => Some(b@),
        None => None,
    }
}

/// The first byte that a request asks for.
pub open spec fn range_start_spec(h: Option<Seq<u8>>) -> u64 {
    match h {
        None => 0,
        Some(h) => match parse_u64_spec(first_field(range_spec_text(h))) {
            Some(v) => v,
            None => 0,
        },
    }
}

/// The last byte that a request asks for, before the chunk limit.
pub open spec fn requested_end_spec(h: Seq<u8>, file_size: u64) -> u64 {
    match second_field(range_spec_text(h)) {
        Some(f) => match parse_u64_spec(f) {
            Some(e) => e,
            None => (file_size - 1) as u64,
        },
        None => (file_size - 1) as u64,
    }
}

pub open spec fn min_u64(a: u64, b: u64) -> u64 {
    if a <= b {
        a
    } else {
        b
    }
}

/// The last byte to send: the requested end, cut at the file's last byte
/// and at `MAX_CHUNK_SIZE` past the first byte.
pub open spec fn capped_end(requested_end: u64, start: u64, file_size: u64) -> u64 {
    min_u64(min_u64(requested_end, (file_size - 1) as u64), (start + MAX_CHUNK_SIZE) as u64)
}

/// The first and last byte to send.
pub open spec fn byte_range_spec(h: Option<Seq<u8>>, file_size: u64) -> (u64, u64) {
    match h {
        None => (0, capped_end((file_size - 1) as u64, 0, file_size)),
        Some(b) => {
            let start = range_start_spec(h);
            (start, capped_end(requested_end_spec(b, file_size), start, file_size))
        },
    }
}

/// The header's value as text.
fn header_chars(h: &[u8]) -> (r: Vec<char>)
    ensures
        r@ == header_text(h@),
{
    let mut out: Vec<char> = Vec::new();
    let mut i: usize = 0;
    while i < h.len()
        invariant
            0 <= i <= h@.len(),
            forall|j: int| 0 <= j < i ==> #[trigger] is_visible_ascii(h@[j]),
            out@ == h@.take(i as int).map_values(|b: u8| b as char),
        decreases h@.len() - i,
    {
        let b = h[i];
        if !((32 <= b && b < 127) || b == 9) {
            assert(!is_visible_ascii(h@[i as int]));
            let d: Vec<char> = vec!['b', 'y', 't', 'e', 's', '=', '0', '-'];
            assert(d@ =~= default_range_text());
            return d;
        }
        out.push(b as char);
        i = i + 1;
        assert(out@ =~= h@.take(i as int).map_values(|b: u8| b as char));
    }
    assert(h@.take(i as int) =~= h@);
    out
}

/// The offset past every leading `bytes=` of `s`.
fn skip_unit_prefixes(s: &[char]) -> (pos: usize)
    ensures
        pos <= s@.len(),
        s@.skip(pos as int) == strip_prefixes(s@, bytes_unit()),
{
    let unit: Vec<char> = vec!['b', 'y', 't', 'e', 's', '='];
    assert(unit@ =~= bytes_unit());
    let mut pos: usize = 0;
    let n = s.len();
    assert(s@.skip(0) =~= s@);
    while matches_at(s, pos, unit.as_slice())
        invariant
            pos <= s@.len(),
            n == s@.len(),
            unit@ == bytes_unit(),
            strip_prefixes(s@, bytes_unit()) == strip_prefixes(s@.skip(pos as int), bytes_unit()),
        decreases s@.len() - pos,
    {
        assert(s@.skip(pos as int).skip(6) =~= s@.skip(pos + 6));
        pos = pos + 6;
    }
    pos
}

fn copy_span(s: &[char], lo: usize, hi: usize) -> (r: Vec<char>)
    requires
        lo <= hi <= s@.len(),
    ensures
        r@ == s@.subrange(lo as int, hi as int),
{
    let mut r: Vec<char> = Vec::new();
    let mut i: usize = lo;
    while i < hi
        invariant
            lo <= i <= hi <= s@.len(),
            r@ == s@.subrange(lo as int, i as int),
        decreases hi - i,
    {
        r.push(s[i]);
        i = i + 1;
        assert(r@ =~= s@.subrange(lo as int, i as int));
    }
    r
}

/// The field of `s` that starts at `from`: up to the next `-` or the end.
fn field_from(s: &[char], from: usize) -> (r: (Vec<char>, Option<usize>))
    requires
        from <= s@.len(),
    ensures
        r.0@ == first_field(s@.skip(from as int)),
        match r.1 {
            Some(k) => from <= k < s@.len() && first_index_of(s@.skip(from as int), '-') == Some(
                k - from,
            ),
            None => first_index_of(s@.skip(from as int), '-') is None,
        },
{
    let ghost rest = s@.skip(from as int);
    proof {
        lemma_first_index_of(rest, '-');
    }
    match first_index_from(s, '-', from) {
        Some(k) => {
            let f = copy_span(s, from, k);
            assert(f@ =~= rest.take(k - from));
            (f, Some(k))
        },
        None => {
            let f = copy_span(s, from, s.len());
            assert(f@ =~= rest);
            (f, None)
        },
    }
}

/// The first byte that a request with this `Range` header asks for: the
/// first field after the unit prefixes, `0` when it does not parse.
pub fn requested_range_start(range_header: Option<&[u8]>) -> (r: u64)
    ensures
        r == range_start_spec(view_header(range_header)),
{
    match range_header {
        None => 0,
        Some(h) => {
            let text = header_chars(h);
            let pos = skip_unit_prefixes(text.as_slice());
            let (first, _) = field_from(text.as_slice(), pos);
            match parse_u64(first.as_slice()) {
                Some(v) => v,
                None => 0,
            }
        },
    }
}

/// The first and last byte of a file of `file_size` bytes to send for a
/// request with this `Range` header.
pub fn parse_byte_range(range_header: Option<&[u8]>, file_size: u64) -> (r: (u64, u64))
    requires
        file_size >= 1,
        range_start_spec(view_header(range_header)) + MAX_CHUNK_SIZE <= u64::MAX,
    ensures
        r == byte_range_spec(view_header(range_header), file_size),
        range_header is None ==> r == (0u64, min_u64((file_size - 1) as u64, MAX_CHUNK_SIZE)),
        r.1 <= r.0 + MAX_CHUNK_SIZE,
        r.1 <= file_size - 1,
{
    match range_header {
        None => {
            let last = file_size - 1;
            if last <= MAX_CHUNK_SIZE {
                (0, last)
            } else {
                (0, MAX_CHUNK_SIZE)
            }
        },
        Some(h) => {
            let start = requested_range_start(range_header);
            let text = header_chars(h);
            let pos = skip_unit_prefixes(text.as_slice());
            let ghost spec_text = text@.skip(pos as int);
            let (_, dash) = field_from(text.as_slice(), pos);
            let requested_end = match dash {
                Some(k) => {
                    let text_len = text.len();
                    assert(k < text_len);
                    let (second, _) = field_from(text.as_slice(), k + 1);
                    assert(spec_text.skip(k + 1 - pos) =~= text@.skip(k + 1));
                    match parse_u64(second.as_slice()) {
                        Some(e) => e,
                        None => file_size - 1,
                    }
                },
                None => file_size - 1,
            };
            let within_file = if requested_end <= file_size - 1 {
                requested_end
            } else {
                file_size - 1
            };
            let limit = start + MAX_CHUNK_SIZE;
            let end = if within_file <= limit {
                within_file
            } else {
                limit
            };
            (start, end)
        },
    }
}

/// The `Range` header that asks for bytes `first` through `last`:
/// `bytes=<first>-<last>`, as bytes.
pub open spec fn explicit_range_header(first: u64, last: u64) -> Seq<u8> {
    bytes_of_text(bytes_unit() + decimal(first as nat) + seq!['-'] + decimal(last as nat))
}

/// Law: a request for `bytes=a-b` is served from byte `a` through byte `b`,
/// or through the file's last byte, or through `a + MAX_CHUNK_SIZE`,
/// whichever comes first.
pub proof fn lemma_explicit_range_served(first: u64, last: u64, file_size: u64)
    requires
        file_size >= 1,
        first + MAX_CHUNK_SIZE <= u64::MAX,
    ensures
        range_start_spec(Some(explicit_range_header(first, last))) == first,
        byte_range_spec(Some(explicit_range_header(first, last)), file_size) == (
            first,
            min_u64(min_u64(last, (file_size - 1) as u64), (first + MAX_CHUNK_SIZE) as u64),
        ),
{
    let a = decimal(first as nat);
    let b = decimal(last as nat);
    let text = bytes_unit() + a + seq!['-'] + b;
    let h = explicit_range_header(first, last);
    lemma_decimal_digits(first as nat);
    lemma_decimal_digits(last as nat);
    assert forall|i: int| 0 <= i < text.len() implies is_plain_ascii(#[trigger] text[i]) by {
        if i >= 6 && i < 6 + a.len() {
            assert(text[i] == a[i - 6]);
            assert(is_digit(a[i - 6]));
        } else if i >= 7 + a.len() {
            assert(text[i] == b[i - 7 - a.len()]);
            assert(is_digit(b[i - 7 - a.len()]));
        }
    }
    lemma_text_bytes_roundtrip(text);
    assert(header_text(h) == text);
    // One unit prefix comes off; a digit follows it.
    assert(text.skip(6) =~= a + seq!['-'] + b);
    assert(text.take(6) =~= bytes_unit());
    let rest = a + seq!['-'] + b;
    assert(!starts_with(rest, bytes_unit())) by {
        assert(rest[0] == a[0]);
        assert(is_digit(a[0]));
        if rest.len() >= 6 {
            assert(rest.take(6)[0] == rest[0]);
            assert(bytes_unit()[0] == 'b');
        }
    }
    assert(strip_prefixes(rest, bytes_unit()) == rest);
    assert(range_spec_text(h) == rest);
    lemma_first_dash_after_digits(a, b);
    assert(rest.take(a.len() as int) =~= a);
    assert(rest.skip(a.len() as int + 1) =~= b);
    lemma_no_dash_in_digits(b);
    assert(first_field(b) == b);
    lemma_parse_u64_of_decimal(first);
    lemma_parse_u64_of_decimal(last);
}

/// The `Range` header that asks for everything from byte `first` on:
/// `bytes=<first>-`, as bytes (what a browser sends when it seeks).
pub open spec fn open_range_header(first: u64) -> Seq<u8> {
    bytes_of_text(bytes_unit() + decimal(first as nat) + seq!['-'])
}

/// Law: a request for `bytes=a-` (a seek to byte `a`) is served from byte
/// `a` through the file's last byte, or through `a + MAX_CHUNK_SIZE` when
/// the file reaches further.
pub proof fn lemma_open_range_served(first: u64, file_size: u64)
    requires
        file_size >= 1,
        first + MAX_CHUNK_SIZE <= u64::MAX,
    ensures
        range_start_spec(Some(open_range_header(first))) == first,
        byte_range_spec(Some(open_range_header(first)), file_size) == (
            first,
            min_u64((file_size - 1) as u64, (first + MAX_CHUNK_SIZE) as u64),
        ),
{
    let a = decimal(first as nat);
    let text = bytes_unit() + a + seq!['-'];
    let h = open_range_header(first);
    lemma_decimal_digits(first as nat);
    assert forall|i: int| 0 <= i < text.len() implies is_plain_ascii(#[trigger] text[i]) by {
        if i >= 6 && i < 6 + a.len() {
            assert(text[i] == a[i - 6]);
            assert(is_digit(a[i - 6]));
        }
    }
    lemma_text_bytes_roundtrip(text);
    assert(header_text(h) == text);
    assert(text.skip(6) =~= a + seq!['-']);
    assert(text.take(6) =~= bytes_unit());
    let rest = a + seq!['-'];
    assert(!starts_with(rest, bytes_unit())) by {
        assert(rest[0] == a[0]);
        assert(is_digit(a[0]));
        if rest.len() >= 6 {
            assert(rest.take(6)[0] == rest[0]);
            assert(bytes_unit()[0] == 'b');
        }
    }
    assert(strip_prefixes(rest, bytes_unit()) == rest);
    assert(range_spec_text(h) == rest);
    let empty = Seq::<char>::empty();
    lemma_first_dash_after_digits(a, empty);
    assert(a + seq!['-'] + empty =~= rest);
    assert(rest.take(a.len() as int) =~= a);
    assert(rest.skip(a.len() as int + 1) =~= empty);
    assert(first_index_of(empty, '-') is None);
    assert(first_field(empty) == empty);
    assert(parse_u64_spec(empty) is None);
    lemma_parse_u64_of_decimal(first);
}

pub open spec fn is_plain_ascii(c: char) -> bool {
    ' ' <= c && c <= '~'
}

proof fn lemma_text_bytes_roundtrip(text: Seq<char>)
    requires
        forall|i: int| 0 <= i < text.len() ==> is_plain_ascii(#[trigger] text[i]),
    ensures
        is_header_text(bytes_of_text(text)),
        bytes_of_text(text).map_values(|b: u8| b as char) == text,
{
    let h = bytes_of_text(text);
    assert forall|i: int| 0 <= i < h.len() implies #[trigger] is_visible_ascii(h[i]) by {
        let c = text[i];
        assert(is_plain_ascii(c));
        assert(h[i] == c as u8);
        assert((c as u8) as int == c as int);
    }
    assert forall|i: int| 0 <= i < text.len() implies h.map_values(|b: u8| b as char)[i]
        == text[i] by {
        let c = text[i];
        assert(is_plain_ascii(c));
        assert((c as u8) as int == c as int);
        assert(((c as u8) as char) == c);
    }
    assert(h.map_values(|b: u8| b as char) =~= text);
}

proof fn lemma_no_dash_in_digits(d: Seq<char>)
    requires
        forall|i: int| 0 <= i < d.len() ==> is_digit(#[trigger] d[i]),
    ensures
        first_index_of(d, '-') is None,
{
    lemma_first_index_of(d, '-');
    if let Some(k) = first_index_of(d, '-') {
        assert(is_digit(d[k]));
    }
}

proof fn lemma_first_dash_after_digits(a: Seq<char>, b: Seq<char>)
    requires
        forall|i: int| 0 <= i < a.len() ==> is_digit(#[trigger] a[i]),
    ensures
        first_index_of(a + seq!['-'] + b, '-') == Some(a.len() as int),
    decreases a.len(),
{
    if a.len() > 0 {
        assert(is_digit(a[0]));
        lemma_first_dash_after_digits(a.drop_first(), b);
        assert((a + seq!['-'] + b).drop_first() =~= a.drop_first() + seq!['-'] + b);
    }
}

} // verus!
