use vstd::prelude::*;
use vstd::std_specs::iter::IteratorSpec;

verus! {

/// Whether `c` is one of the ten decimal digits.
pub open spec fn is_digit(c: char) -> bool {
    '0' <= c && c <= '9'
}

/// The number that the decimal digit `c` stands for.
pub open spec fn digit_value(c: char) -> nat {
    (c as int - '0' as int) as nat
}

/// Whether every character of `s` is a decimal digit.
pub open spec fn all_digits(s: Seq<char>) -> bool {
    forall|i: int| 0 <= i < s.len() ==> is_digit(#[trigger] s[i])
}

/// The number that a run of decimal digits denotes, most significant digit
/// first. The empty run denotes zero.
pub open spec fn digits_value(s: Seq<char>) -> nat
    decreases s.len(),
{
    if s.len() == 0 {
        0
    } else {
        digits_value(s.drop_last()) * 10 + digit_value(s.last())
    }
}

/// The digits of a signed decimal field: the field without a leading `+` or `-`.
pub open spec fn signed_digits(s: Seq<char>) -> Seq<char> {
    if s.len() > 0 && (s[0] == '+' || s[0] == '-') {
        s.drop_first()
    } else {
        s
    }
}

/// The value of an unsigned decimal field: one or more decimal digits, and
/// nothing else, whose value is at most `max`. Any other text, one with a
/// sign too, has no value.
pub open spec fn parse_unsigned(s: Seq<char>, max: nat) -> Option<nat> {
    if s.len() > 0 && all_digits(s) && digits_value(s) <= max {
        Some(digits_value(s))
    } else {
        None
    }
}

/// The value of a signed decimal field: an optional `+` or `-`, then one or
/// more decimal digits, the signed value lying between `min` and `max`.
pub open spec fn parse_signed(s: Seq<char>, min: int, max: int) -> Option<int> {
    let digits = signed_digits(s);
    let value = if s.len() > 0 && s[0] == '-' {
        -(digits_value(digits) as int)
    } else {
        digits_value(digits) as int
    };
    if digits.len() > 0 && all_digits(digits) && min <= value <= max {
        Some(value)
    } else {
        None
    }
}

/// Appending a digit to a run multiplies its value by ten and adds the digit.
pub proof fn lemma_digits_value_push(s: Seq<char>, c: char)
    ensures
        digits_value(s.push(c)) == digits_value(s) * 10 + digit_value(c),
{
    assert(s.push(c).drop_last() =~= s);
}

/// A run of digits is worth at least as much as each of its prefixes.
pub proof fn lemma_digits_value_prefix(s: Seq<char>, k: int)
    requires
        0 <= k <= s.len(),
    ensures
        digits_value(s.take(k)) <= digits_value(s),
    decreases s.len() - k,
{
    if k < s.len() {
        lemma_digits_value_prefix(s, k + 1);
        assert(s.take(k + 1).drop_last() =~= s.take(k));
    } else {
        assert(s.take(k) =~= s);
    }
}

/// Reads the magnitude of a decimal field whose digits start at character
/// `start` (0, or 1 behind a sign): their value if there is at least one
/// character from `start` on, all of them are digits, and the value is at
/// most `max`.
fn parse_magnitude(s: &str, start: usize, max: u32) -> (r: Option<u32>)
    requires
        start <= 1,
        start <= s@.len(),
    ensures
        r is Some <==> s@.len() > start && all_digits(s@.skip(start as int)) && digits_value(
            s@.skip(start as int),
        ) <= max,
        r matches Some(v) ==> v == digits_value(s@.skip(start as int)),
{
    let ghost digits = s@.skip(start as int);
    let mut acc: u64 = 0;
    let mut pending: usize = start;
    let mut any: bool = false;
    for c in it: s.chars()
        invariant
            it.seq() == s@,
            digits == s@.skip(start as int),
            start <= 1,
            start <= s@.len(),
            it.index() < start ==> pending == start - it.index(),
            it.index() >= start ==> pending == 0,
            any == (it.index() > start),
            it.index() >= start ==> all_digits(digits.take(it.index() - start)),
            it.index() >= start ==> acc == digits_value(digits.take(it.index() - start)),
            it.index() < start ==> acc == 0,
            acc <= max,
    {
        if pending > 0 {
            pending -= 1;
        } else {
            let ghost k = it.index() - start;
            if !(c >= '0' && c <= '9') {
                assert(!is_digit(digits[k]));
                return None;
            }
            let d: u64 = (c as u64) - ('0' as u64);
            acc = acc * 10 + d;
            any = true;
            proof {
                assert(digits.take(k + 1) =~= digits.take(k).push(c));
                lemma_digits_value_push(digits.take(k), c);
                assert forall|i: int| 0 <= i < k + 1 implies is_digit(
                    #[trigger] digits.take(k + 1)[i],
                ) by {
                    if i < k {
                        assert(digits.take(k + 1)[i] == digits.take(k)[i]);
                    }
                }
            }
            if acc > max as u64 {
                proof {
                    lemma_digits_value_prefix(digits, k + 1);
                }
                return None;
            }
        }
    }
    proof {
        if s@.len() > start {
            assert(digits.take(s@.len() - start) =~= digits);
        }
    }
    if any {
        Some(acc as u32)
    } else {
        None
    }
}

/// Whether the text starts with the character `c`.
pub fn first_is(s: &str, c: char) -> (r: bool)
    ensures
        r == (s@.len() > 0 && s@[0] == c),
{
    match first_char(s) {
        Some(first) => first == c,
        None => false,
    }
}

/// Decodes an unsigned decimal field with values up to `max`.
pub fn parse_unsigned_field(s: &str, max: u32) -> (r: Option<u32>)
    ensures
        r is Some <==> parse_unsigned(s@, max as nat) is Some,
        r matches Some(v) ==> parse_unsigned(s@, max as nat) == Some(v as nat),
{
    proof {
        assert(s@.skip(0) =~= s@);
    }
    parse_magnitude(s, 0, max)
}

/// Decodes an unsigned decimal field, of any length, whose value must fit
/// in a byte.
pub fn parse_u8(s: &str) -> (r: Option<u8>)
    ensures
        r is Some <==> parse_unsigned(s@, 255) is Some,
        r matches Some(v) ==> parse_unsigned(s@, 255) == Some(v as nat),
{
    match parse_unsigned_field(s, 255) {
        Some(v) => Some(v as u8),
        None => None,
    }
}

/// Decodes an unsigned decimal field whose value must fit in sixteen bits.
pub fn parse_u16(s: &str) -> (r: Option<u16>)
    ensures
        r is Some <==> parse_unsigned(s@, 65535) is Some,
        r matches Some(v) ==> parse_unsigned(s@, 65535) == Some(v as nat),
{
    match parse_unsigned_field(s, 65535) {
        Some(v) => Some(v as u16),
        None => None,
    }
}

/// Decodes a signed decimal field whose value must fit in sixteen bits.
pub fn parse_i16(s: &str) -> (r: Option<i16>)
    ensures
        r is Some <==> parse_signed(s@, -32768, 32767) is Some,
        r matches Some(v) ==> parse_signed(s@, -32768, 32767) == Some(v as int),
{
    let negative = first_is(s, '-');
    let start: usize = if negative || first_is(s, '+') {
        1
    } else {
        0
    };
    proof {
        if start == 1 {
            assert(s@.skip(1) =~= s@.drop_first());
        } else {
            assert(s@.skip(0) =~= s@);
        }
    }
    if negative {
        match parse_magnitude(s, start, 32768) {
            Some(v) => Some((0 - (v as i32)) as i16),
            None => None,
        }
    } else {
        match parse_magnitude(s, start, 32767) {
            Some(v) => Some(v as i16),
            None => None,
        }
    }
}

/// `String::push` of the standard library: the string afterwards is the
/// string before with the character `c` appended at its end.
pub assume_specification[ String::push ](s: &mut String, c: char)
    ensures
        final(s)@ == old(s)@.push(c),
;

/// The decimal digit that stands for `d`, for `d` below ten.
pub open spec fn digit_char(d: nat) -> char {
    ((48 + d) as u8) as char
}

/// The decimal numeral of `n`, without sign or leading zeros.
pub open spec fn decimal_text(n: nat) -> Seq<char>
    decreases n,
{
    if n < 10 {
        seq![digit_char(n)]
    } else {
        decimal_text(n / 10).push(digit_char(n % 10))
    }
}

/// Appends the decimal numeral of `n` to `text`.
pub fn push_decimal(text: &mut String, n: u32)
    ensures
        final(text)@ == old(text)@ + decimal_text(n as nat),
    decreases n,
{
    if n >= 10 {
        push_decimal(text, n / 10);
    }
    let d: u8 = (n % 10) as u8;
    text.push((48 + d) as char);
    assert(final(text)@ =~= old(text)@ + decimal_text(n as nat));
}

/// A message of three parts: fixed words, the offending text, fixed words.
pub fn message(before: &str, text: &str, after: &str) -> (m: String)
    ensures
        m@ == before@ + text@ + after@,
{
    let mut m = String::from_str(before);
    m.append(text);
    m.append(after);
    m
}

/// The characters of `line` in columns `from` up to, not including, `to`, as
/// an owned string.
pub fn columns(line: &str, from: usize, to: usize) -> (field: String)
    requires
        from <= to <= line@.len(),
    ensures
        field@ == line@.subrange(from as int, to as int),
{
    String::from_str(line.substring_char(from, to))
}

/// Whether `line` begins with the characters of `prefix`.
pub fn starts_with(line: &str, prefix: &str) -> (r: bool)
    ensures
        r == prefix@.is_prefix_of(line@),
{
    let mut rest = line.chars();
    for c in it: prefix.chars()
        invariant
            it.seq() == prefix@,
            it.index() <= line@.len(),
            rest.remaining() == line@.skip(it.index() as int),
            line@.take(it.index() as int) == prefix@.take(it.index() as int),
    {
        let ghost k = it.index() as int;
        match rest.next() {
            Some(d) => {
                if d != c {
                    proof {
                        if prefix@.len() <= line@.len() {
                            assert(line@.subrange(0, prefix@.len() as int)[k] == line@[k]);
                        }
                    }
                    return false;
                }
                assert(line@.skip(k).drop_first() =~= line@.skip(k + 1));
                assert(line@.take(k + 1) =~= line@.take(k).push(d));
                assert(prefix@.take(k + 1) =~= prefix@.take(k).push(c));
            },
            None => {
                return false;
            },
        }
    }
    assert(prefix@.take(prefix@.len() as int) =~= prefix@);
    assert(line@.take(prefix@.len() as int) =~= line@.subrange(0, prefix@.len() as int));
    true
}

/// Whether two texts hold the same characters.
pub fn same_text(a: &str, b: &str) -> (r: bool)
    ensures
        r == (a@ == b@),
{
    let r = starts_with(a, b) && starts_with(b, a);
    proof {
        if r {
            assert(a@ =~= b@);
        }
        if a@ == b@ {
            assert(a@.subrange(0, a@.len() as int) =~= a@);
        }
    }
    r
}

/// The characters of `line` from column `from` to its end, as an owned
/// string.
pub fn columns_from(line: &str, from: usize) -> (field: String)
    requires
        from <= line@.len(),
    ensures
        field@ == line@.skip(from as int),
{
    let n = line.unicode_len();
    columns(line, from, n)
}

/// The first character of a text, if it has one.
pub fn first_char(s: &str) -> (c: Option<char>)
    ensures
        c == (if s@.len() > 0 {
            Some(s@[0])
        } else {
            None
        }),
{
    let mut it = s.chars();
    it.next()
}

/// Whether a text holds decimal digits only.
pub fn is_all_digits(s: &str) -> (r: bool)
    ensures
        r == all_digits(s@),
{
    for c in it: s.chars()
        invariant
            it.seq() == s@,
            all_digits(s@.take(it.index() as int)),
    {
        if !(c >= '0' && c <= '9') {
            assert(!is_digit(s@[it.index() as int]));
            return false;
        }
        assert forall|i: int| 0 <= i < it.index() + 1 implies is_digit(
            #[trigger] s@.take(it.index() + 1)[i],
        ) by {
            if i < it.index() {
                assert(s@.take(it.index() as int)[i] == s@[i]);
            }
        }
    }
    assert(s@.take(s@.len() as int) =~= s@);
    true
}

/// The mathematical value of a sequence of strings.
pub open spec fn texts(strings: Seq<String>) -> Seq<Seq<char>> {
    strings.map_values(|s: String| s@)
}

/// A line without the carriage return that may end it.
pub open spec fn strip_carriage_return(line: Seq<char>) -> Seq<char> {
    if line.len() > 0 && line.last() == '\r' {
        line.drop_last()
    } else {
        line
    }
}

/// Reading `s` from the left: the lines that a line feed has closed so far,
/// each without its line feed and without a carriage return just before it,
/// and the characters read since the last line feed.
pub open spec fn scan_lines(s: Seq<char>) -> (Seq<Seq<char>>, Seq<char>)
    decreases s.len(),
{
    if s.len() == 0 {
        (Seq::empty(), Seq::empty())
    } else {
        let (closed, open) = scan_lines(s.drop_last());
        if s.last() == '\n' {
            (closed.push(strip_carriage_return(open)), Seq::empty())
        } else {
            (closed, open.push(s.last()))
        }
    }
}

/// The lines of a text. A line ends at a line feed, or at a carriage return
/// directly followed by a line feed; neither belongs to the line. Text after
/// the last line feed is a line of its own if it is not empty, and keeps a
/// carriage return at its end.
pub open spec fn lines_of(s: Seq<char>) -> Seq<Seq<char>> {
    let (closed, open) = scan_lines(s);
    if open.len() > 0 {
        closed.push(open)
    } else {
        closed
    }
}

/// Splits a text into its lines.
pub fn split_lines(content: &str) -> (lines: Vec<String>)
    ensures
        texts(lines@) == lines_of(content@),
{
    let mut lines: Vec<String> = Vec::new();
    let mut open = String::new();
    let mut open_empty = true;
    let mut ends_in_cr = false;
    for c in it: content.chars()
        invariant
            it.seq() == content@,
            (texts(lines@), open@) == scan_lines(content@.take(it.index() as int)),
            open_empty == (open@.len() == 0),
            ends_in_cr == (open@.len() > 0 && open@.last() == '\r'),
    {
        let ghost k = it.index() as int;
        let ghost before = texts(lines@);
        assert(content@.take(k + 1).drop_last() =~= content@.take(k));
        if c == '\n' {
            let line = if ends_in_cr {
                let n = open.as_str().unicode_len();
                columns(open.as_str(), 0, n - 1)
            } else {
                open
            };
            assert(line@ =~= strip_carriage_return(open@));
            lines.push(line);
            assert(texts(lines@) =~= before.push(strip_carriage_return(open@)));
            open = String::new();
            open_empty = true;
            ends_in_cr = false;
        } else {
            open.push(c);
            open_empty = false;
            ends_in_cr = c == '\r';
        }
    }
    assert(content@.take(content@.len() as int) =~= content@);
    if !open_empty {
        let ghost before = texts(lines@);
        lines.push(open);
        assert(texts(lines@) =~= before.push(open@));
    }
    lines
}

/// Reading a text without a line feed closes no line.
pub proof fn lemma_scan_lines_of_one_line(line: Seq<char>)
    requires
        !line.contains('\n'),
    ensures
        scan_lines(line) == (Seq::<Seq<char>>::empty(), line),
    decreases line.len(),
{
    if line.len() > 0 {
        assert(line.last() == line[line.len() - 1]);
        assert forall|i: int| 0 <= i < line.drop_last().len() implies line.drop_last()[i]
            != '\n' by {
            assert(line.drop_last()[i] == line[i]);
        }
        lemma_scan_lines_of_one_line(line.drop_last());
        assert(line.drop_last().push(line.last()) =~= line);
    }
}

/// Behind a line feed the reading starts afresh: what follows adds its
/// closed lines to those before it, and its open line is the open line.
pub proof fn lemma_scan_lines_behind_line_feed(before: Seq<char>, after: Seq<char>)
    requires
        before.len() > 0,
        before.last() == '\n',
    ensures
        scan_lines(before + after) == (
            scan_lines(before).0 + scan_lines(after).0,
            scan_lines(after).1,
        ),
    decreases after.len(),
{
    if after.len() == 0 {
        assert(before + after =~= before);
        assert(scan_lines(before).0 + scan_lines(after).0 =~= scan_lines(before).0);
    } else {
        assert((before + after).drop_last() =~= before + after.drop_last());
        assert((before + after).last() == after.last());
        lemma_scan_lines_behind_line_feed(before, after.drop_last());
        let closed = scan_lines(before).0;
        let (closed_after, open_after) = scan_lines(after.drop_last());
        if after.last() == '\n' {
            assert((closed + closed_after).push(strip_carriage_return(open_after)) =~= closed
                + closed_after.push(strip_carriage_return(open_after)));
        }
    }
}

/// A text without a line feed is one line, and no line if it is empty.
pub proof fn lemma_lines_of_one_line(line: Seq<char>)
    requires
        !line.contains('\n'),
    ensures
        lines_of(line) == (if line.len() > 0 {
            seq![line]
        } else {
            Seq::<Seq<char>>::empty()
        }),
{
    lemma_scan_lines_of_one_line(line);
    assert(Seq::<Seq<char>>::empty().push(line) =~= seq![line]);
}

/// The lines of a text that begins with a line and its line feed are that
/// line, without a carriage return at its end, and then the lines of what
/// follows the line feed.
pub proof fn lemma_lines_of_first_line(line: Seq<char>, rest: Seq<char>)
    requires
        !line.contains('\n'),
    ensures
        lines_of(line.push('\n') + rest) == seq![strip_carriage_return(line)] + lines_of(rest),
{
    let first = line.push('\n');
    lemma_scan_lines_of_one_line(line);
    assert(first.drop_last() =~= line);
    assert(scan_lines(first) == (
        Seq::<Seq<char>>::empty().push(strip_carriage_return(line)),
        Seq::<char>::empty(),
    ));
    lemma_scan_lines_behind_line_feed(first, rest);
    let head = seq![strip_carriage_return(line)];
    assert(Seq::<Seq<char>>::empty().push(strip_carriage_return(line)) =~= head);
    let (closed, open) = scan_lines(rest);
    if open.len() > 0 {
        assert((head + closed).push(open) =~= head + closed.push(open));
    }
}

/// No line holds a line feed.
pub proof fn lemma_lines_hold_no_line_feed(s: Seq<char>)
    ensures
        forall|i: int| 0 <= i < lines_of(s).len() ==> !(#[trigger] lines_of(s)[i]).contains('\n'),
{
    lemma_scan_lines_hold_no_line_feed(s);
}

/// Neither the closed lines nor the open line of a reading hold a line feed.
pub proof fn lemma_scan_lines_hold_no_line_feed(s: Seq<char>)
    ensures
        forall|i: int|
            0 <= i < scan_lines(s).0.len() ==> !(#[trigger] scan_lines(s).0[i]).contains('\n'),
        !scan_lines(s).1.contains('\n'),
    decreases s.len(),
{
    if s.len() > 0 {
        lemma_scan_lines_hold_no_line_feed(s.drop_last());
        let (closed, open) = scan_lines(s.drop_last());
        if s.last() == '\n' {
            let line = strip_carriage_return(open);
            assert(!line.contains('\n')) by {
                if line.contains('\n') {
                    let j = choose|j: int| 0 <= j < line.len() && line[j] == '\n';
                    assert(open[j] == '\n');
                }
            }
        } else {
            assert(!open.push(s.last()).contains('\n')) by {
                if open.push(s.last()).contains('\n') {
                    let j = choose|j: int|
                        0 <= j < open.push(s.last()).len() && open.push(s.last())[j] == '\n';
                    if j < open.len() {
                        assert(open[j] == '\n');
                    }
                }
            }
        }
    }
}

} // verus!
