//! Character-level building blocks shared by the translator and the generator:
//! joining and splitting of texts, decimal and hexadecimal numerals, and the
//! escaping of string literals.
use vstd::prelude::*;

verus! {

/// `String::push` of the standard library. Trusted: the string afterwards is
/// the string before with `ch` appended as its last character.
pub assume_specification[ String::push ](s: &mut String, ch: char)
    ensures
        final(s)@ == old(s)@.push(ch),
;

/// The texts held by a sequence of strings.
pub open spec fn texts(v: Seq<String>) -> Seq<Seq<char>> {
    Seq::new(v.len(), |i: int| v[i]@)
}

/// `parts` written one after the other with `sep` between neighbours.
pub open spec fn joined(parts: Seq<Seq<char>>, sep: Seq<char>) -> Seq<char>
    decreases parts.len(),
{
    if parts.len() == 0 {
        Seq::empty()
    } else if parts.len() == 1 {
        parts[0]
    } else {
        joined(parts.drop_last(), sep) + sep + parts.last()
    }
}

/// The characters of `s` as a vector.
pub fn chars_of(s: &str) -> (r: Vec<char>)
    ensures
        r@ == s@,
{
    let mut out: Vec<char> = Vec::new();
    for c in it: s.chars()
        invariant
            it.seq() == s@,
            out@ == it.seq().take(it.index()),
    {
        out.push(c);
    }
    out
}

/// Joins `parts` with `sep` between neighbours.
pub fn join(parts: &Vec<String>, sep: &str) -> (r: String)
    ensures
        r@ == joined(texts(parts@), sep@),
{
    let mut out = String::new();
    let mut i: usize = 0;
    while i < parts.len()
        invariant
            i <= parts.len(),
            out@ == joined(texts(parts@.take(i as int)), sep@),
        decreases parts.len() - i,
    {
        if i > 0 {
            out.append(sep);
        }
        out.append(parts[i].as_str());
        proof {
            let before = texts(parts@.take(i as int));
            let after = texts(parts@.take(i + 1));
            assert(after.drop_last() =~= before);
            assert(after.last() == parts@[i as int]@);
        }
        i += 1;
    }
    proof {
        assert(parts@.take(i as int) =~= parts@);
    }
    out
}

/// Whether the two-character substitution marker `{}` starts at index `i` of `s`.
pub open spec fn marker_at(s: Seq<char>, i: int) -> bool {
    0 <= i && i + 1 < s.len() && s[i] == '{' && s[i + 1] == '}'
}

/// The pieces of `s` from `start` on that lie between markers, given that no
/// marker starts in `start..i`. Markers are found from left to right and do
/// not overlap.
pub open spec fn fragments_from(s: Seq<char>, start: int, i: int) -> Seq<Seq<char>>
    decreases s.len() - i,
{
    if i + 1 >= s.len() {
        seq![s.subrange(start, s.len() as int)]
    } else if marker_at(s, i) {
        seq![s.subrange(start, i)] + fragments_from(s, i + 2, i + 2)
    } else {
        fragments_from(s, start, i + 1)
    }
}

/// The pieces of `s` between the occurrences of the marker `{}`: one more
/// piece than there are markers, empty pieces included.
pub open spec fn fragments(s: Seq<char>) -> Seq<Seq<char>> {
    fragments_from(s, 0, 0)
}

/// Joining a first part and further parts puts the separator behind the
/// first part.
pub proof fn lemma_joined_front(first: Seq<char>, rest: Seq<Seq<char>>, sep: Seq<char>)
    requires
        rest.len() > 0,
    ensures
        joined(seq![first] + rest, sep) == first + sep + joined(rest, sep),
    decreases rest.len(),
{
    let all = seq![first] + rest;
    if rest.len() == 1 {
        assert(all.drop_last() =~= seq![first]);
        assert(all.last() == rest[0]);
        assert(joined(seq![first], sep) == first);
        assert(joined(rest, sep) == rest[0]);
    } else {
        lemma_joined_front(first, rest.drop_last(), sep);
        assert(all.drop_last() =~= seq![first] + rest.drop_last());
        assert(all.last() == rest.last());
        assert(joined(all, sep) =~= first + sep + joined(rest, sep));
    }
}

/// The pieces from `start` on, joined by the marker, are the text from
/// `start` on.
proof fn lemma_fragments_from_rejoin(s: Seq<char>, start: int, i: int)
    requires
        0 <= start <= i <= s.len(),
    ensures
        fragments_from(s, start, i).len() > 0,
        joined(fragments_from(s, start, i), "{}"@) == s.subrange(start, s.len() as int),
    decreases s.len() - i,
{
    reveal_strlit("{}");
    if i + 1 >= s.len() {
    } else if marker_at(s, i) {
        lemma_fragments_from_rejoin(s, i + 2, i + 2);
        let rest = fragments_from(s, i + 2, i + 2);
        lemma_joined_front(s.subrange(start, i), rest, "{}"@);
        assert(s.subrange(start, i) + "{}"@ + s.subrange(i + 2, s.len() as int) =~= s.subrange(
            start,
            s.len() as int,
        ));
    } else {
        lemma_fragments_from_rejoin(s, start, i + 1);
    }
}

/// Splitting loses nothing: there is at least one piece, and the pieces
/// joined by the marker are the text that was split.
pub proof fn lemma_fragments_rejoin(s: Seq<char>)
    ensures
        fragments(s).len() > 0,
        joined(fragments(s), "{}"@) == s,
{
    lemma_fragments_from_rejoin(s, 0, 0);
    assert(s.subrange(0, s.len() as int) =~= s);
}

/// Whether no marker starts anywhere in `s`.
pub open spec fn holds_no_marker(s: Seq<char>) -> bool {
    forall|j: int| !marker_at(s, j)
}

/// No piece from `start` on holds a marker.
proof fn lemma_fragments_from_hold_no_marker(s: Seq<char>, start: int, i: int)
    requires
        0 <= start <= i <= s.len(),
        forall|j: int| start <= j < i ==> !marker_at(s, j),
    ensures
        forall|k: int|
            0 <= k < fragments_from(s, start, i).len() ==> holds_no_marker(
                #[trigger] fragments_from(s, start, i)[k],
            ),
    decreases s.len() - i,
{
    let pieces = fragments_from(s, start, i);
    if i + 1 >= s.len() {
        let piece = s.subrange(start, s.len() as int);
        assert forall|j: int| !marker_at(piece, j) by {
            if marker_at(piece, j) {
                assert(marker_at(s, start + j));
            }
        }
        assert(holds_no_marker(piece));
        assert forall|k: int| 0 <= k < pieces.len() implies holds_no_marker(
            #[trigger] pieces[k],
        ) by {
            assert(pieces[k] == piece);
        }
    } else if marker_at(s, i) {
        lemma_fragments_from_hold_no_marker(s, i + 2, i + 2);
        let piece = s.subrange(start, i);
        let rest = fragments_from(s, i + 2, i + 2);
        assert forall|j: int| !marker_at(piece, j) by {
            if marker_at(piece, j) {
                assert(marker_at(s, start + j));
            }
        }
        assert(holds_no_marker(piece));
        assert forall|k: int| 0 <= k < pieces.len() implies holds_no_marker(
            #[trigger] pieces[k],
        ) by {
            if k > 0 {
                assert(pieces[k] == rest[k - 1]);
            } else {
                assert(pieces[0] == piece);
            }
        }
    } else {
        lemma_fragments_from_hold_no_marker(s, start, i + 1);
        assert(pieces == fragments_from(s, start, i + 1));
    }
}

/// Splitting finds every marker: no piece holds one.
pub proof fn lemma_fragments_hold_no_marker(s: Seq<char>)
    ensures
        forall|k: int|
            0 <= k < fragments(s).len() ==> holds_no_marker(#[trigger] fragments(s)[k]),
{
    lemma_fragments_from_hold_no_marker(s, 0, 0);
}

/// Splits `s` on every occurrence of the marker `{}`.
pub fn split_fragments(s: &str) -> (r: Vec<String>)
    ensures
        texts(r@) == fragments(s@),
        r@.len() > 0,
{
    let chars = chars_of(s);
    let n = chars.len();
    let mut out: Vec<String> = Vec::new();
    let mut cur = String::new();
    let mut i: usize = 0;
    let ghost mut start: int = 0;
    while i < n
        invariant
            n == chars@.len(),
            chars@ == s@,
            0 <= start <= i <= n,
            cur@ == s@.subrange(start, i as int),
            fragments(s@) == texts(out@) + fragments_from(s@, start, i as int),
        decreases n - i,
    {
        if i + 1 < n && chars[i] == '{' && chars[i + 1] == '}' {
            proof {
                assert(texts(out@.push(cur)) =~= texts(out@) + seq![cur@]);
                assert(texts(out@) + (seq![cur@] + fragments_from(s@, i + 2, i + 2)) =~= texts(
                    out@.push(cur),
                ) + fragments_from(s@, i + 2, i + 2));
            }
            out.push(cur);
            cur = String::new();
            i += 2;
            proof {
                start = i as int;
                assert(cur@ =~= s@.subrange(start, i as int));
            }
        } else {
            cur.push(chars[i]);
            proof {
                assert(cur@ =~= s@.subrange(start, i + 1));
                if i + 1 >= n {
                    assert(fragments_from(s@, start, i as int) == fragments_from(s@, start, i + 1));
                }
            }
            i += 1;
        }
    }
    proof {
        assert(texts(out@.push(cur)) =~= texts(out@) + seq![cur@]);
    }
    out.push(cur);
    out
}

/// The slot numbers `1, 2, .. count` of a format template, each reduced to 16 bits.
pub open spec fn slot_numbers(count: nat) -> Seq<u16> {
    Seq::new(count, |i: int| ((i + 1) % 0x10000) as u16)
}

/// Whether `c` is one of the ten decimal digits.
pub open spec fn is_digit(c: char) -> bool {
    '0' <= c <= '9'
}

/// The number a decimal digit stands for.
pub open spec fn digit_value(c: char) -> int {
    c as int - '0' as int
}

/// The character of the decimal digit `d`.
pub open spec fn digit_char(d: int) -> char {
    ('0' as int + d) as char
}

/// Whether `s` is a non-empty run of decimal digits.
pub open spec fn is_digits(s: Seq<char>) -> bool {
    s.len() > 0 && forall|i: int| 0 <= i < s.len() ==> is_digit(#[trigger] s[i])
}

/// The number that a run of decimal digits denotes.
pub open spec fn digits_value(s: Seq<char>) -> int
    decreases s.len(),
{
    if s.len() == 0 {
        0
    } else {
        digits_value(s.drop_last()) * 10 + digit_value(s.last())
    }
}

/// The integer that `s` denotes: an optional sign `+` or `-` and then at
/// least one decimal digit. `None` for any other text.
pub open spec fn integer_value(s: Seq<char>) -> Option<int> {
    if s.len() > 0 && s[0] == '-' {
        if is_digits(s.skip(1)) {
            Some(-digits_value(s.skip(1)))
        } else {
            None
        }
    } else if s.len() > 0 && s[0] == '+' {
        if is_digits(s.skip(1)) {
            Some(digits_value(s.skip(1)))
        } else {
            None
        }
    } else if is_digits(s) {
        Some(digits_value(s))
    } else {
        None
    }
}

/// The signed 64-bit integer that `s` denotes, if it denotes an integer and
/// that integer fits.
pub open spec fn parsed_i64(s: Seq<char>) -> Option<i64> {
    match integer_value(s) {
        Some(v) => if i64::MIN <= v <= i64::MAX {
            Some(v as i64)
        } else {
            None
        },
        None => None,
    }
}

/// A run of digits denotes at least as much as any of its prefixes.
proof fn lemma_digits_value_grows(s: Seq<char>, k: int)
    requires
        0 <= k <= s.len(),
        forall|i: int| 0 <= i < s.len() ==> is_digit(#[trigger] s[i]),
    ensures
        0 <= digits_value(s.take(k)) <= digits_value(s),
    decreases s.len(),
{
    if k == s.len() {
        assert(s.take(k) =~= s);
        if s.len() > 0 {
            lemma_digits_value_grows(s.drop_last(), s.len() - 1);
            assert(s.drop_last().take(s.len() - 1) =~= s.drop_last());
            assert(is_digit(s[s.len() - 1]));
        }
    } else {
        lemma_digits_value_grows(s.drop_last(), k);
        assert(s.drop_last().take(k) =~= s.take(k));
        assert(is_digit(s[s.len() - 1]));
    }
}

/// Reads a signed 64-bit integer from its decimal text.
pub fn parse_i64(s: &str) -> (r: Option<i64>)
    ensures
        r == parsed_i64(s@),
{
    let chars = chars_of(s);
    let n = chars.len();
    if n == 0 {
        return None;
    }
    let negative = chars[0] == '-';
    let first: usize = if chars[0] == '-' || chars[0] == '+' {
        1
    } else {
        0
    };
    if first == n {
        return None;
    }
    let limit: u64 = if negative {
        9223372036854775808
    } else {
        9223372036854775807
    };
    let ghost body = s@.skip(first as int);
    proof {
        assert(first == 0 ==> body =~= s@);
    }
    let mut acc: u64 = 0;
    let mut i: usize = first;
    while i < n
        invariant
            n == chars@.len(),
            chars@ == s@,
            first <= i <= n,
            body == s@.skip(first as int),
            forall|j: int| 0 <= j < i - first ==> is_digit(#[trigger] body[j]),
            acc == digits_value(body.take(i - first)),
            acc <= limit,
            9223372036854775807 <= limit <= 9223372036854775808,
            s@.len() > 0,
            negative == (s@[0] == '-'),
            first == (if s@[0] == '-' || s@[0] == '+' { 1int } else { 0int }),
            first == 0 ==> body == s@,
            limit == (if negative { 9223372036854775808int } else { 9223372036854775807int }),
        decreases n - i,
    {
        let c = chars[i];
        if !(c >= '0' && c <= '9') {
            proof {
                assert(body[i - first] == c);
                assert(!is_digit(body[i - first]));
            }
            return None;
        }
        let d: u64 = ((c as u32) - ('0' as u32)) as u64;
        proof {
            let next = body.take(i + 1 - first);
            assert(next.drop_last() =~= body.take(i - first));
            assert(next.last() == c);
            assert(digits_value(next) == acc * 10 + d);
        }
        if acc > (limit - d) / 10 {
            proof {
                if is_digits(body) {
                    lemma_digits_value_grows(body, i + 1 - first);
                }
            }
            return None;
        }
        acc = acc * 10 + d;
        i += 1;
    }
    proof {
        assert(body.take(i - first) =~= body);
    }
    if negative {
        if acc == 9223372036854775808 {
            Some(i64::MIN)
        } else {
            Some(-(acc as i64))
        }
    } else {
        Some(acc as i64)
    }
}

/// The decimal digits of `n`, most significant first, without leading zeros.
pub open spec fn digits_of(n: nat) -> Seq<char>
    decreases n,
{
    if n < 10 {
        seq![digit_char(n as int)]
    } else {
        digits_of(n / 10).push(digit_char((n % 10) as int))
    }
}

/// The decimal text of an integer: a minus sign for a negative one, then the
/// digits of its magnitude.
pub open spec fn decimal_text(v: int) -> Seq<char> {
    if v < 0 {
        seq!['-'] + digits_of((-v) as nat)
    } else {
        digits_of(v as nat)
    }
}

/// The decimal digits of a number are digits, and they denote that number.
pub proof fn lemma_digits_of_denote(n: nat)
    ensures
        is_digits(digits_of(n)),
        digits_value(digits_of(n)) == n,
    decreases n,
{
    if n < 10 {
        let s = digits_of(n);
        assert(s.drop_last() =~= Seq::<char>::empty());
        assert(digits_value(s.drop_last()) == 0);
    } else {
        lemma_digits_of_denote(n / 10);
        let s = digits_of(n);
        assert(s.drop_last() =~= digits_of(n / 10));
    }
}

/// The decimal text of a signed 64-bit integer reads back as that integer:
/// nothing is lost between a literal and its text.
pub proof fn lemma_decimal_text_reads_back(v: i64)
    ensures
        parsed_i64(decimal_text(v as int)) == Some(v),
{
    let text = decimal_text(v as int);
    if v < 0 {
        lemma_digits_of_denote((-v) as nat);
        assert(text.skip(1) =~= digits_of((-v) as nat));
    } else {
        lemma_digits_of_denote(v as nat);
        assert(is_digit(text[0]));
    }
}

/// Appends the decimal digits of `n` to `buf`.
pub fn push_digits(buf: &mut String, n: u64)
    ensures
        final(buf)@ == old(buf)@ + digits_of(n as nat),
    decreases n,
{
    if n >= 10 {
        push_digits(buf, n / 10);
    }
    let d: u8 = (n % 10) as u8;
    buf.push((48u8 + d) as char);
    proof {
        assert(buf@ =~= old(buf)@ + digits_of(n as nat));
    }
}

/// Appends the decimal text of `v` to `buf`.
pub fn push_integer(buf: &mut String, v: i64)
    ensures
        final(buf)@ == old(buf)@ + decimal_text(v as int),
{
    if v < 0 {
        buf.push('-');
        let magnitude: u64 = if v == i64::MIN {
            9223372036854775808
        } else {
            (-v) as u64
        };
        push_digits(buf, magnitude);
        proof {
            assert(buf@ =~= old(buf)@ + decimal_text(v as int));
        }
    } else {
        push_digits(buf, v as u64);
    }
}

/// The index of the first character at or after `from` that is no decimal
/// digit, or the length of `s` if only digits follow.
pub open spec fn digits_end(s: Seq<char>, from: int) -> int
    decreases s.len() - from,
{
    if 0 <= from < s.len() && is_digit(s[from]) {
        digits_end(s, from + 1)
    } else {
        from
    }
}

/// Whether an exponent starts at index `at` of `s` and runs to its end: `e`
/// or `E`, an optional sign, and at least one digit.
pub open spec fn is_exponent(s: Seq<char>, at: int) -> bool {
    let digits = if at + 1 < s.len() && (s[at + 1] == '+' || s[at + 1] == '-') {
        at + 2
    } else {
        at + 1
    };
    &&& 0 <= at < s.len()
    &&& (s[at] == 'e' || s[at] == 'E')
    &&& digits < s.len()
    &&& digits_end(s, digits) == s.len()
}

/// Whether `s` is a decimal literal: an optional minus sign, digits with at
/// most one point among them and at least one digit before or after it, and
/// an optional exponent.
pub open spec fn is_decimal_literal(s: Seq<char>) -> bool {
    let begin = if s.len() > 0 && s[0] == '-' {
        1int
    } else {
        0int
    };
    let whole_end = digits_end(s, begin);
    let has_point = whole_end < s.len() && s[whole_end] == '.';
    let mantissa_end = if has_point {
        digits_end(s, whole_end + 1)
    } else {
        whole_end
    };
    let digit_count = if has_point {
        mantissa_end - begin - 1
    } else {
        mantissa_end - begin
    };
    &&& digit_count > 0
    &&& (mantissa_end == s.len() || is_exponent(s, mantissa_end))
}

/// Skips the decimal digits of `chars` from index `from` on.
fn skip_digits(chars: &Vec<char>, from: usize) -> (r: usize)
    requires
        from <= chars@.len(),
    ensures
        r == digits_end(chars@, from as int),
        from <= r <= chars@.len(),
{
    let mut i: usize = from;
    while i < chars.len() && chars[i] >= '0' && chars[i] <= '9'
        invariant
            from <= i <= chars@.len(),
            digits_end(chars@, from as int) == digits_end(chars@, i as int),
        decreases chars@.len() - i,
    {
        i += 1;
    }
    i
}

/// Tells whether `s` is a decimal literal.
pub fn check_decimal_literal(s: &str) -> (r: bool)
    ensures
        r == is_decimal_literal(s@),
{
    let chars = chars_of(s);
    let n = chars.len();
    let begin: usize = if n > 0 && chars[0] == '-' {
        1
    } else {
        0
    };
    let whole_end = skip_digits(&chars, begin);
    let has_point = whole_end < n && chars[whole_end] == '.';
    let mantissa_end = if has_point {
        skip_digits(&chars, whole_end + 1)
    } else {
        whole_end
    };
    let digit_count = if has_point {
        mantissa_end - begin - 1
    } else {
        mantissa_end - begin
    };
    if digit_count == 0 {
        return false;
    }
    if mantissa_end == n {
        return true;
    }
    if !(chars[mantissa_end] == 'e' || chars[mantissa_end] == 'E') {
        return false;
    }
    let digits: usize = if mantissa_end + 1 < n && (chars[mantissa_end + 1] == '+'
        || chars[mantissa_end + 1] == '-') {
        mantissa_end + 2
    } else {
        mantissa_end + 1
    };
    if digits >= n {
        return false;
    }
    skip_digits(&chars, digits) == n
}

/// The character of the hexadecimal digit `d`, in lower case.
pub open spec fn hex_char(d: int) -> char {
    if d < 10 {
        ('0' as int + d) as char
    } else {
        ('a' as int + d - 10) as char
    }
}

/// The hexadecimal digits of `n`, most significant first, without leading zeros.
pub open spec fn hex_digits(n: nat) -> Seq<char>
    decreases n,
{
    if n < 16 {
        seq![hex_char(n as int)]
    } else {
        hex_digits(n / 16).push(hex_char((n % 16) as int))
    }
}

/// How one character of a string literal is written: tab, carriage return,
/// line feed, the two quotes and the backslash behind a backslash; the other
/// printable ASCII characters as they are; every other character as its code
/// point in hexadecimal, between `\u{` and `}`.
pub open spec fn escaped_char(c: char) -> Seq<char> {
    if c == '\t' {
        seq!['\\', 't']
    } else if c == '\r' {
        seq!['\\', 'r']
    } else if c == '\n' {
        seq!['\\', 'n']
    } else if c == '\\' || c == '\'' || c == '"' {
        seq!['\\', c]
    } else if ' ' <= c <= '~' {
        seq![c]
    } else {
        seq!['\\', 'u', '{'] + hex_digits(c as nat) + seq!['}']
    }
}

/// The characters of `s`, each written as `escaped_char` says.
pub open spec fn escaped(s: Seq<char>) -> Seq<char>
    decreases s.len(),
{
    if s.len() == 0 {
        Seq::empty()
    } else {
        escaped(s.drop_last()) + escaped_char(s.last())
    }
}

/// Whether `c` is a printable ASCII character.
pub open spec fn is_printable(c: char) -> bool {
    ' ' <= c <= '~'
}

/// The hexadecimal digits of a number are printable.
proof fn lemma_hex_digits_printable(n: nat)
    ensures
        forall|i: int| 0 <= i < hex_digits(n).len() ==> is_printable(#[trigger] hex_digits(n)[i]),
    decreases n,
{
    let digits = hex_digits(n);
    if n < 16 {
        assert(is_printable(hex_char(n as int)));
    } else {
        lemma_hex_digits_printable(n / 16);
        assert(is_printable(hex_char((n % 16) as int)));
        assert forall|i: int| 0 <= i < digits.len() implies is_printable(#[trigger] digits[i]) by {
            if i < digits.len() - 1 {
                assert(digits[i] == hex_digits(n / 16)[i]);
            }
        }
    }
}

/// One escaped character is written in printable characters.
proof fn lemma_escaped_char_printable(c: char)
    ensures
        forall|i: int|
            0 <= i < escaped_char(c).len() ==> is_printable(#[trigger] escaped_char(c)[i]),
{
    if c == '\t' || c == '\r' || c == '\n' || c == '\\' || c == '\'' || c == '"' {
    } else if ' ' <= c <= '~' {
    } else {
        lemma_hex_digits_printable(c as nat);
        let head = seq!['\\', 'u', '{'];
        let digits = hex_digits(c as nat);
        let all = escaped_char(c);
        assert forall|i: int| 0 <= i < all.len() implies is_printable(#[trigger] all[i]) by {
            if i < 3 {
                assert(all[i] == head[i]);
            } else if i < 3 + digits.len() {
                assert(all[i] == digits[i - 3]);
            } else {
                assert(all[i] == '}');
            }
        }
    }
}

/// An escaped text holds printable ASCII characters only: no line break and
/// no control character ends up inside a string literal.
pub proof fn lemma_escaped_is_printable(s: Seq<char>)
    ensures
        forall|i: int| 0 <= i < escaped(s).len() ==> is_printable(#[trigger] escaped(s)[i]),
    decreases s.len(),
{
    if s.len() > 0 {
        lemma_escaped_is_printable(s.drop_last());
        lemma_escaped_char_printable(s.last());
        let front = escaped(s.drop_last());
        let back = escaped_char(s.last());
        let all = escaped(s);
        assert forall|i: int| 0 <= i < all.len() implies is_printable(#[trigger] all[i]) by {
            if i < front.len() {
                assert(all[i] == front[i]);
            } else {
                assert(all[i] == back[i - front.len()]);
            }
        }
    }
}

/// Appends the hexadecimal digits of `n` to `buf`.
pub fn push_hex(buf: &mut String, n: u32)
    ensures
        final(buf)@ == old(buf)@ + hex_digits(n as nat),
    decreases n,
{
    if n >= 16 {
        push_hex(buf, n / 16);
    }
    let d: u8 = (n % 16) as u8;
    let c: char = if d < 10 {
        (48u8 + d) as char
    } else {
        (87u8 + d) as char
    };
    buf.push(c);
    proof {
        assert(buf@ =~= old(buf)@ + hex_digits(n as nat));
    }
}

/// Appends one character of a string literal to `buf`, escaped.
pub fn push_escaped_char(buf: &mut String, c: char)
    ensures
        final(buf)@ == old(buf)@ + escaped_char(c),
{
    if c == '\t' {
        buf.push('\\');
        buf.push('t');
    } else if c == '\r' {
        buf.push('\\');
        buf.push('r');
    } else if c == '\n' {
        buf.push('\\');
        buf.push('n');
    } else if c == '\\' || c == '\'' || c == '"' {
        buf.push('\\');
        buf.push(c);
    } else if c >= ' ' && c <= '~' {
        buf.push(c);
    } else {
        buf.push('\\');
        buf.push('u');
        buf.push('{');
        push_hex(buf, c as u32);
        buf.push('}');
    }
    proof {
        assert(buf@ =~= old(buf)@ + escaped_char(c));
    }
}

/// Appends the characters of `s` to `buf`, each of them escaped.
pub fn push_escaped(buf: &mut String, s: &str)
    ensures
        final(buf)@ == old(buf)@ + escaped(s@),
{
    for c in it: s.chars()
        invariant
            it.seq() == s@,
            buf@ == old(buf)@ + escaped(it.seq().take(it.index())),
    {
        proof {
            let next = it.seq().take(it.index() + 1);
            assert(next.drop_last() =~= it.seq().take(it.index()));
            assert(next.last() == c);
        }
        push_escaped_char(buf, c);
    }
    proof {
        assert(s@.take(s@.len() as int) =~= s@);
    }
}

} // verus!
