//! Facts about the text forms of dates and property lines, used by the laws.
use crate::datetime::{
    compact_date_text, compact_date_time_text, decimal, digit_char, two_digits, year_text,
    zero_padded, CalDate, DateTimeParts, MAX_YEAR, MIN_YEAR,
};
use crate::event::{escape_newlines, fold_bytes};
use crate::property::{can_cut_at, cut_at, trimmed_bytes};
use crate::text::{is_white_space, trim_end_ws, trim_start_ws, trim_ws};
use vstd::prelude::*;
use vstd::utf8::{
    encode_utf8, encode_utf8_decode_utf8, encode_utf8_valid_utf8, is_ascii_chars,
    is_ascii_chars_encode_utf8, is_char_boundary_iff_not_is_continuation_byte,
    is_char_boundary_start_end_of_seq,
};

verus! {

/// A visible ASCII character: neither whitespace nor a control character.
pub open spec fn printable(c: char) -> bool {
    0x21 <= (c as u32) <= 0x7e
}

pub open spec fn all_printable(s: Seq<char>) -> bool {
    forall|i: int| 0 <= i < s.len() ==> printable(#[trigger] s[i])
}

/// A visible ASCII character or a space.
pub open spec fn plain_ascii(c: char) -> bool {
    0x20 <= (c as u32) <= 0x7e
}

pub open spec fn all_plain_ascii(s: Seq<char>) -> bool {
    forall|i: int| 0 <= i < s.len() ==> plain_ascii(#[trigger] s[i])
}

pub proof fn lemma_printable_plain(s: Seq<char>)
    requires
        all_printable(s),
    ensures
        all_plain_ascii(s),
{
    assert forall|i: int| 0 <= i < s.len() implies plain_ascii(#[trigger] s[i]) by {
        assert(printable(s[i]));
    }
}

pub proof fn lemma_concat_plain(a: Seq<char>, b: Seq<char>)
    requires
        all_plain_ascii(a),
        all_plain_ascii(b),
    ensures
        all_plain_ascii(a + b),
{
    assert forall|i: int| 0 <= i < (a + b).len() implies plain_ascii(#[trigger] (a + b)[i]) by {
        if i < a.len() {
            assert((a + b)[i] == a[i]);
        } else {
            assert((a + b)[i] == b[i - a.len()]);
        }
    }
}

pub proof fn lemma_digit_char(d: int)
    requires
        0 <= d <= 9,
    ensures
        printable(digit_char(d)),
{
}

pub proof fn lemma_concat_printable(a: Seq<char>, b: Seq<char>)
    requires
        all_printable(a),
        all_printable(b),
    ensures
        all_printable(a + b),
{
    assert forall|i: int| 0 <= i < (a + b).len() implies printable(#[trigger] (a + b)[i]) by {
        if i < a.len() {
            assert((a + b)[i] == a[i]);
        } else {
            assert((a + b)[i] == b[i - a.len()]);
        }
    }
}

pub proof fn lemma_decimal(n: nat)
    ensures
        all_printable(decimal(n)),
        decimal(n).len() >= 1,
        n < 10 ==> decimal(n).len() <= 1,
        n < 100 ==> decimal(n).len() <= 2,
        n < 1000 ==> decimal(n).len() <= 3,
        n < 10000 ==> decimal(n).len() <= 4,
        n < 100000 ==> decimal(n).len() <= 5,
        n < 1_000_000 ==> decimal(n).len() <= 6,
    decreases n,
{
    if n < 10 {
        lemma_digit_char(n as int);
    } else {
        lemma_decimal(n / 10);
        lemma_digit_char((n % 10) as int);
        let d = decimal(n / 10);
        assert forall|i: int| 0 <= i < decimal(n).len() implies printable(#[trigger] decimal(n)[i]) by {
            if i < d.len() {
                assert(decimal(n)[i] == d[i]);
            }
        }
    }
}

pub proof fn lemma_zero_padded(s: Seq<char>, w: nat)
    requires
        all_printable(s),
    ensures
        all_printable(zero_padded(s, w)),
        zero_padded(s, w).len() == if s.len() >= w { s.len() } else { w },
{
    if s.len() < w {
        let z = Seq::new((w - s.len()) as nat, |i: int| '0');
        assert(all_printable(z));
        lemma_concat_printable(z, s);
    }
}

pub proof fn lemma_year_text(y: int)
    requires
        MIN_YEAR <= y <= MAX_YEAR,
    ensures
        all_printable(year_text(y)),
        4 <= year_text(y).len() <= 7,
{
    if 0 <= y <= 9999 {
        lemma_decimal(y as nat);
        lemma_zero_padded(decimal(y as nat), 4);
    } else if y < 0 {
        lemma_decimal((-y) as nat);
        lemma_zero_padded(decimal((-y) as nat), 4);
        lemma_concat_printable(seq!['-'], zero_padded(decimal((-y) as nat), 4));
    } else {
        lemma_decimal(y as nat);
        lemma_zero_padded(decimal(y as nat), 4);
        lemma_concat_printable(seq!['+'], zero_padded(decimal(y as nat), 4));
    }
}

pub proof fn lemma_two_digits(n: int)
    requires
        0 <= n,
    ensures
        all_printable(two_digits(n)),
        two_digits(n).len() == 2,
{
    lemma_digit_char((n / 10) % 10);
    lemma_digit_char(n % 10);
}

pub proof fn lemma_compact_date_text(d: CalDate)
    requires
        d.is_valid(),
    ensures
        all_printable(compact_date_text(d)),
        8 <= compact_date_text(d).len() <= 11,
{
    lemma_year_text(d.year as int);
    lemma_two_digits(d.month as int);
    lemma_two_digits(d.day as int);
    lemma_concat_printable(year_text(d.year as int), two_digits(d.month as int));
    lemma_concat_printable(
        year_text(d.year as int) + two_digits(d.month as int),
        two_digits(d.day as int),
    );
}

pub proof fn lemma_compact_date_time_text(dt: DateTimeParts)
    requires
        dt.is_valid(),
    ensures
        all_printable(compact_date_time_text(dt)),
        15 <= compact_date_time_text(dt).len() <= 18,
{
    let a = compact_date_text(dt.date);
    lemma_compact_date_text(dt.date);
    lemma_two_digits(dt.time.hour as int);
    lemma_two_digits(dt.time.minute as int);
    lemma_two_digits(dt.time.shown_second());
    lemma_concat_printable(a, seq!['T']);
    lemma_concat_printable(a + seq!['T'], two_digits(dt.time.hour as int));
    lemma_concat_printable(
        a + seq!['T'] + two_digits(dt.time.hour as int),
        two_digits(dt.time.minute as int),
    );
    lemma_concat_printable(
        a + seq!['T'] + two_digits(dt.time.hour as int) + two_digits(dt.time.minute as int),
        two_digits(dt.time.shown_second()),
    );
}

/// Text without line feeds is stored unchanged.
pub proof fn lemma_escape_plain(s: Seq<char>)
    requires
        all_plain_ascii(s),
    ensures
        escape_newlines(s) == s,
    decreases s.len(),
{
    if s.len() > 0 {
        assert(all_plain_ascii(s.drop_last()));
        assert(plain_ascii(s[s.len() - 1]));
        lemma_escape_plain(s.drop_last());
        assert(s.drop_last().push(s.last()) =~= s);
    }
}

proof fn lemma_plain_char(c: char)
    requires
        plain_ascii(c),
    ensures
        '\0' <= c <= '\u{7f}',
{
}

pub proof fn lemma_plain_ascii(s: Seq<char>)
    requires
        all_plain_ascii(s),
    ensures
        is_ascii_chars(s),
        encode_utf8(s).len() == s.len(),
        forall|i: int| 0 <= i < s.len() ==> #[trigger] encode_utf8(s)[i] == s[i] as u8,
{
    assert forall|i: int| 0 <= i < s.len() implies '\0' <= #[trigger] s[i] <= '\u{7f}' by {
        lemma_plain_char(s[i]);
    }
    assert(is_ascii_chars(s));
    is_ascii_chars_encode_utf8(s);
}

proof fn lemma_cut_plain(line: Seq<char>, c: Seq<char>, k: int)
    requires
        all_plain_ascii(c),
        trimmed_bytes(line) == encode_utf8(c),
        0 <= k <= c.len(),
    ensures
        can_cut_at(line, k),
        cut_at(line, k) == c.skip(k),
{
    broadcast use encode_utf8_decode_utf8, encode_utf8_valid_utf8;

    lemma_plain_ascii(c);
    let b = encode_utf8(c);
    if k == c.len() {
        is_char_boundary_start_end_of_seq(b);
    } else {
        is_char_boundary_iff_not_is_continuation_byte(b, k);
        assert(plain_ascii(c[k]));
        assert(b[k] == c[k] as u8);
    }
    assert(all_plain_ascii(c.skip(k))) by {
        assert forall|i: int| 0 <= i < c.skip(k).len() implies plain_ascii(#[trigger] c.skip(k)[i]) by {
            assert(c.skip(k)[i] == c[k + i]);
        }
    }
    lemma_plain_ascii(c.skip(k));
    assert(b.subrange(k, b.len() as int) =~= encode_utf8(c.skip(k)));
}

/// A line rendered from a short content line `c` of ASCII characters and spaces, with
/// no space at either end, is `c` and a line break; trimmed it is `c`, and it can be
/// cut anywhere within `c`.
pub proof fn lemma_rendered_plain_line(line: Seq<char>, c: Seq<char>)
    requires
        all_plain_ascii(c),
        c.len() > 0,
        printable(c[0]),
        printable(c.last()),
        c.len() <= 75,
        encode_utf8(line) == fold_bytes(encode_utf8(c)) + seq![13u8, 10u8],
    ensures
        trim_ws(line) == c,
        forall|k: int| 0 <= k <= c.len() ==> #[trigger] can_cut_at(line, k) && cut_at(line, k) == c.skip(k),
{
    lemma_rendered_plain_trim(line, c);
    assert forall|k: int| 0 <= k <= c.len() implies #[trigger] can_cut_at(line, k) && cut_at(line, k)
        == c.skip(k) by {
        lemma_cut_plain(line, c, k);
    }
}

/// The rendered line of a short plain content line `c` trims to `c`.
proof fn lemma_rendered_plain_trim(line: Seq<char>, c: Seq<char>)
    requires
        all_plain_ascii(c),
        c.len() > 0,
        printable(c[0]),
        printable(c.last()),
        c.len() <= 75,
        encode_utf8(line) == fold_bytes(encode_utf8(c)) + seq![13u8, 10u8],
    ensures
        trim_ws(line) == c,
        trimmed_bytes(line) == encode_utf8(c),
{
    broadcast use encode_utf8_decode_utf8, encode_utf8_valid_utf8;

    lemma_plain_ascii(c);
    let c2 = c + seq!['\r', '\n'];
    assert(is_ascii_chars(c2));
    is_ascii_chars_encode_utf8(c2);
    assert(encode_utf8(line) =~= encode_utf8(c2));
    assert(line == c2) by {
        vstd::utf8::encode_utf8_decode_utf8(line);
        vstd::utf8::encode_utf8_decode_utf8(c2);
    }
    assert(!is_white_space(c[0]));
    assert(!is_white_space(c.last()));
    assert(trim_start_ws(c2) == c2);
    assert(c2.drop_last() =~= c.push('\r'));
    assert(c.push('\r').drop_last() =~= c);
    assert(trim_end_ws(c) == c);
    assert(is_white_space('\r') && is_white_space('\n'));
    assert(c.push('\r').last() == '\r');
    assert(trim_end_ws(c.push('\r')) == trim_end_ws(c));
    assert(c2.last() == '\n');
    assert(trim_end_ws(c2) == trim_end_ws(c2.drop_last()));
    assert(trim_end_ws(c2) == c);
    assert(trimmed_bytes(line) == encode_utf8(c));
}

} // verus!
