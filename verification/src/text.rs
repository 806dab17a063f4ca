//! Reading and writing plain text: decimal numbers, trimmed slices, lines.
//!
//! Text is modelled as the sequence of its characters. The reading half works
//! on a range `from..to` of a vector of characters, so that nothing is copied
//! while a record is taken apart.

use vstd::prelude::*;

verus! {

/// Whether `c` has the Unicode property `White_Space`.
pub open spec fn white_space(c: char) -> bool {
    let code = c as int;
    ||| 0x9 <= code <= 0xd
    ||| code == 0x20
    ||| code == 0x85
    ||| code == 0xa0
    ||| code == 0x1680
    ||| 0x2000 <= code <= 0x200a
    ||| code == 0x2028
    ||| code == 0x2029
    ||| code == 0x202f
    ||| code == 0x205f
    ||| code == 0x3000
}

/// `s` without the white space it starts with.
pub open spec fn trim_start(s: Seq<char>) -> Seq<char>
    decreases s.len(),
{
    if s.len() > 0 && white_space(s[0]) {
        trim_start(s.drop_first())
    } else {
        s
    }
}

/// `s` without the white space it ends with.
pub open spec fn trim_end(s: Seq<char>) -> Seq<char>
    decreases s.len(),
{
    if s.len() > 0 && white_space(s.last()) {
        trim_end(s.drop_last())
    } else {
        s
    }
}

/// `s` without the white space around it.
pub open spec fn trim(s: Seq<char>) -> Seq<char> {
    trim_end(trim_start(s))
}

/// Where `c` first occurs in `s`, or the length of `s` where it does not.
pub open spec fn position(s: Seq<char>, c: char) -> nat
    decreases s.len(),
{
    if s.len() == 0 || s[0] == c {
        0
    } else {
        1 + position(s.drop_first(), c)
    }
}

/// The pieces of `s` between its newlines. There is always at least one.
pub open spec fn lines(s: Seq<char>) -> Seq<Seq<char>>
    decreases s.len(),
{
    let end = position(s, '\n') as int;
    if 0 <= end < s.len() {
        seq![s.take(end)] + lines(s.skip(end + 1))
    } else {
        seq![s]
    }
}

/// The decimal digit of value `d`, for a `d` below ten.
pub open spec fn digit(d: nat) -> char {
    (48 + d) as char
}

/// Whether `c` is one of the ten decimal digits.
pub open spec fn is_digit(c: char) -> bool {
    '0' <= c <= '9'
}

/// `n` in decimal, without leading zeros.
pub open spec fn decimal(n: nat) -> Seq<char>
    decreases n,
{
    if n < 10 {
        seq![digit(n)]
    } else {
        decimal(n / 10).push(digit(n % 10))
    }
}

/// What a string of decimal digits is worth.
pub open spec fn digits_value(s: Seq<char>) -> nat
    decreases s.len(),
{
    if s.len() == 0 {
        0
    } else {
        (digits_value(s.drop_last()) * 10 + (s.last() as int - 48)) as nat
    }
}

/// Whether `s` is one decimal digit or more, and nothing else.
pub open spec fn all_digits(s: Seq<char>) -> bool {
    &&& s.len() > 0
    &&& forall|i: int| 0 <= i < s.len() ==> is_digit(#[trigger] s[i])
}

/// `s` without the plus sign it may start with. A plus sign with nothing
/// behind it is left where it is.
pub open spec fn unsigned(s: Seq<char>) -> Seq<char> {
    if s.len() > 1 && s[0] == '+' {
        s.drop_first()
    } else {
        s
    }
}

/// The number that `s` spells: an optional plus sign, then decimal digits,
/// worth no more than a `u64` holds.
pub open spec fn number_spelled(s: Seq<char>) -> Option<u64> {
    let digits = unsigned(s);
    if all_digits(digits) && digits_value(digits) <= u64::MAX {
        Some(digits_value(digits) as u64)
    } else {
        None
    }
}

proof fn lemma_digits_value_grows(s: Seq<char>, k: int)
    requires
        0 <= k <= s.len(),
        forall|i: int| 0 <= i < s.len() ==> is_digit(#[trigger] s[i]),
    ensures
        digits_value(s.take(k)) <= digits_value(s),
    decreases s.len(),
{
    if k < s.len() {
        lemma_digits_value_grows(s.drop_last(), k);
        assert(s.drop_last().take(k) == s.take(k));
    } else {
        assert(s.take(k) == s);
    }
}

/// The decimal form of a number is made of digits and is worth that number.
pub(crate) proof fn lemma_decimal_is_read_back(n: nat)
    ensures
        all_digits(decimal(n)),
        digits_value(decimal(n)) == n,
    decreases n,
{
    reveal_with_fuel(digits_value, 2);
    if n >= 10 {
        lemma_decimal_is_read_back(n / 10);
        assert(decimal(n).drop_last() == decimal(n / 10));
    } else {
        assert(decimal(n).drop_last() == Seq::<char>::empty());
    }
}

/// A number written in decimal reads back as itself.
pub(crate) proof fn lemma_number_round_trip(n: u64)
    ensures
        number_spelled(decimal(n as nat)) == Some(n),
{
    lemma_decimal_is_read_back(n as nat);
}

/// [`position`] is the index of the first occurrence.
pub(crate) proof fn lemma_position_is(s: Seq<char>, c: char, at: int)
    requires
        0 <= at <= s.len(),
        forall|i: int| 0 <= i < at ==> #[trigger] s[i] != c,
        at < s.len() ==> s[at] == c,
    ensures
        position(s, c) == at,
    decreases s.len(),
{
    if at > 0 {
        assert(s[0] != c);
        assert forall|i: int| 0 <= i < at - 1 implies #[trigger] s.drop_first()[i] != c by {
            assert(s[i + 1] != c);
        }
        lemma_position_is(s.drop_first(), c, at - 1);
    }
}

/// Nothing before [`position`] is the character looked for.
pub(crate) proof fn lemma_position_bounds(s: Seq<char>, c: char)
    ensures
        position(s, c) <= s.len(),
        position(s, c) < s.len() ==> s[position(s, c) as int] == c,
        forall|i: int| 0 <= i < position(s, c) ==> #[trigger] s[i] != c,
    decreases s.len(),
{
    if s.len() > 0 && s[0] != c {
        lemma_position_bounds(s.drop_first(), c);
        assert forall|i: int| 0 <= i < position(s, c) implies #[trigger] s[i] != c by {
            if i > 0 {
                assert(s.drop_first()[i - 1] != c);
            }
        }
    }
}

/// A newline parts the lines before it from the lines behind it.
pub(crate) proof fn lemma_lines_part(before: Seq<char>, behind: Seq<char>)
    ensures
        lines(before + seq!['\n'] + behind) == lines(before) + lines(behind),
    decreases before.len(),
{
    let whole = before + seq!['\n'] + behind;
    let end = position(before, '\n') as int;
    lemma_position_bounds(before, '\n');
    assert forall|i: int| 0 <= i < end implies #[trigger] whole[i] != '\n' by {
        assert(before[i] != '\n');
    }
    lemma_position_is(whole, '\n', end);
    if end < before.len() {
        let rest = before.skip(end + 1);
        lemma_lines_part(rest, behind);
        assert(whole.take(end) == before.take(end));
        assert(whole.skip(end + 1) == rest + seq!['\n'] + behind);
        assert(lines(whole) =~= lines(before) + lines(behind));
    } else {
        assert(whole.take(end) == before);
        assert(whole.skip(end + 1) == behind);
    }
}

/// Text without a newline is one line.
pub(crate) proof fn lemma_one_line(s: Seq<char>)
    requires
        !s.contains('\n'),
    ensures
        lines(s) == seq![s],
{
    lemma_position_bounds(s, '\n');
}

proof fn lemma_trim_shortens(s: Seq<char>)
    ensures
        trim_start(s).len() <= s.len(),
        trim_end(s).len() <= s.len(),
    decreases s.len(),
{
    if s.len() > 0 {
        lemma_trim_shortens(s.drop_first());
        lemma_trim_shortens(s.drop_last());
    }
}

/// Trimming leaves alone exactly the text that has no white space around it.
pub(crate) proof fn lemma_trimmed(s: Seq<char>)
    ensures
        trim(s) == s <==> s.len() == 0 || (!white_space(s[0]) && !white_space(s.last())),
{
    if s.len() > 0 {
        lemma_trim_shortens(trim_start(s));
        lemma_trim_shortens(s.drop_first());
        lemma_trim_shortens(s.drop_last());
    }
}

/// Trimming the end leaves a beginning of the text, and what that begins with.
pub(crate) proof fn lemma_trim_end_is_a_start(s: Seq<char>)
    ensures
        trim_end(s).len() <= s.len(),
        trim_end(s) == s.take(trim_end(s).len() as int),
        s.len() > 0 && !white_space(s[0]) ==> trim_end(s).len() > 0,
    decreases s.len(),
{
    if s.len() > 0 && white_space(s.last()) {
        lemma_trim_end_is_a_start(s.drop_last());
        assert(trim_end(s) =~= s.take(trim_end(s).len() as int));
    } else {
        assert(s.take(s.len() as int) == s);
    }
}

/// Trimming the start leaves an end of the text.
pub(crate) proof fn lemma_trim_start_is_an_end(s: Seq<char>)
    ensures
        trim_start(s).len() <= s.len(),
        trim_start(s) == s.skip(s.len() - trim_start(s).len()),
    decreases s.len(),
{
    if s.len() > 0 && white_space(s[0]) {
        lemma_trim_start_is_an_end(s.drop_first());
        assert(trim_start(s) =~= s.skip(s.len() - trim_start(s).len()));
    } else {
        assert(s.skip(0) == s);
    }
}

/// The characters of `text`.
pub(crate) fn characters(text: &str) -> (chars: Vec<char>)
    ensures
        chars@ == text@,
{
    let mut chars: Vec<char> = Vec::new();
    for c in iter: text.chars()
        invariant
            chars@ == text@.take(iter.index()),
            iter.seq() == text@,
    {
        chars.push(c);
    }
    chars
}

/// Whether `c` is white space.
pub(crate) fn is_white_space(c: char) -> (is: bool)
    ensures
        is == white_space(c),
{
    let code: u32 = c as u32;
    (0x9 <= code && code <= 0xd) || code == 0x20 || code == 0x85 || code == 0xa0 || code == 0x1680
        || (0x2000 <= code && code <= 0x200a) || code == 0x2028 || code == 0x2029 || code == 0x202f
        || code == 0x205f || code == 0x3000
}

/// The range of `from..to` that is left once it is trimmed.
pub(crate) fn trimmed(chars: &Vec<char>, from: usize, to: usize) -> (range: (usize, usize))
    requires
        from <= to <= chars.len(),
    ensures
        from <= range.0 <= range.1 <= to,
        chars@.subrange(range.0 as int, range.1 as int) == trim(
            chars@.subrange(from as int, to as int),
        ),
{
    let mut first: usize = from;
    while first < to && is_white_space(chars[first])
        invariant
            from <= first <= to <= chars.len(),
            trim_start(chars@.subrange(from as int, to as int)) == trim_start(
                chars@.subrange(first as int, to as int),
            ),
        decreases to - first,
    {
        assert(chars@.subrange(first as int, to as int).drop_first() == chars@.subrange(
            first + 1,
            to as int,
        ));
        first = first + 1;
    }
    let mut last: usize = to;
    while last > first && is_white_space(chars[last - 1])
        invariant
            from <= first <= last <= to <= chars.len(),
            trim(chars@.subrange(from as int, to as int)) == trim_end(
                chars@.subrange(first as int, last as int),
            ),
        decreases last,
    {
        assert(chars@.subrange(first as int, last as int).drop_last() == chars@.subrange(
            first as int,
            last - 1,
        ));
        last = last - 1;
    }
    (first, last)
}

/// Where `c` first occurs in `from..to`, or `to` where it does not.
pub(crate) fn find(chars: &Vec<char>, from: usize, to: usize, c: char) -> (at: usize)
    requires
        from <= to <= chars.len(),
    ensures
        from <= at <= to,
        at - from == position(chars@.subrange(from as int, to as int), c),
        at < to ==> chars@[at as int] == c,
{
    let mut at: usize = from;
    while at < to && chars[at] != c
        invariant
            from <= at <= to <= chars.len(),
            position(chars@.subrange(from as int, to as int), c) == at - from + position(
                chars@.subrange(at as int, to as int),
                c,
            ),
        decreases to - at,
    {
        assert(chars@.subrange(at as int, to as int).drop_first() == chars@.subrange(
            at + 1,
            to as int,
        ));
        at = at + 1;
    }
    at
}

/// Whether `from..to` spells `word`.
pub(crate) fn spells(chars: &Vec<char>, from: usize, to: usize, word: &str) -> (same: bool)
    requires
        from <= to <= chars.len(),
    ensures
        same == (chars@.subrange(from as int, to as int) == word@),
{
    let word_chars: Vec<char> = characters(word);
    if word_chars.len() != to - from {
        return false;
    }
    let mut i: usize = 0;
    while i < word_chars.len()
        invariant
            i <= word_chars.len() == to - from,
            from <= to <= chars.len(),
            word_chars@ == word@,
            forall|j: int| 0 <= j < i ==> chars@[from + j] == #[trigger] word@[j],
        decreases word_chars.len() - i,
    {
        if chars[from + i] != word_chars[i] {
            assert(chars@.subrange(from as int, to as int)[i as int] != word@[i as int]);
            return false;
        }
        i = i + 1;
    }
    assert(chars@.subrange(from as int, to as int) =~= word@);
    true
}

/// The number that `from..to` spells, if it spells one.
pub(crate) fn parse_number(chars: &Vec<char>, from: usize, to: usize) -> (parsed: Option<u64>)
    requires
        from <= to <= chars.len(),
    ensures
        parsed == number_spelled(chars@.subrange(from as int, to as int)),
{
    let ghost whole = chars@.subrange(from as int, to as int);
    let signed: bool = to - from > 1 && chars[from] == '+';
    let start: usize = if signed {
        from + 1
    } else {
        from
    };
    let ghost digits = chars@.subrange(start as int, to as int);
    assert(unsigned(whole) == digits);
    if start == to {
        return None;
    }
    let mut value: u64 = 0;
    let mut i: usize = start;
    assert(digits.take(0) == Seq::<char>::empty());
    while i < to
        invariant
            start <= i <= to <= chars.len(),
            start < to,
            digits == chars@.subrange(start as int, to as int),
            number_spelled(whole) == (if all_digits(digits) && digits_value(digits) <= u64::MAX {
                Some(digits_value(digits) as u64)
            } else {
                None::<u64>
            }),
            whole == chars@.subrange(from as int, to as int),
            forall|j: int| 0 <= j < i - start ==> is_digit(#[trigger] digits[j]),
            value == digits_value(digits.take(i - start)),
        decreases to - i,
    {
        let c: char = chars[i];
        assert(digits[i - start] == c);
        if !('0' <= c && c <= '9') {
            return None;
        }
        let d: u64 = (c as u32 - '0' as u32) as u64;
        let ghost next = digits.take(i - start + 1);
        assert(next.drop_last() == digits.take(i - start));
        assert(digits_value(next) == value * 10 + d);
        if value > (u64::MAX - d) / 10 {
            proof {
                if all_digits(digits) {
                    lemma_digits_value_grows(digits, i - start + 1);
                }
            }
            return None;
        }
        value = value * 10 + d;
        i = i + 1;
    }
    assert(digits.take(i - start) == digits);
    Some(value)
}

fn push_digit(text: &mut String, d: u64)
    requires
        d < 10,
    ensures
        final(text)@ == old(text)@.push(digit(d as nat)),
{
    proof {
        reveal_strlit("0");
        reveal_strlit("1");
        reveal_strlit("2");
        reveal_strlit("3");
        reveal_strlit("4");
        reveal_strlit("5");
        reveal_strlit("6");
        reveal_strlit("7");
        reveal_strlit("8");
        reveal_strlit("9");
    }
    if d == 0 {
        text.append("0");
    } else if d == 1 {
        text.append("1");
    } else if d == 2 {
        text.append("2");
    } else if d == 3 {
        text.append("3");
    } else if d == 4 {
        text.append("4");
    } else if d == 5 {
        text.append("5");
    } else if d == 6 {
        text.append("6");
    } else if d == 7 {
        text.append("7");
    } else if d == 8 {
        text.append("8");
    } else {
        text.append("9");
    }
    assert(text@ =~= old(text)@.push(digit(d as nat)));
}

/// Append `n` in decimal.
pub(crate) fn push_decimal(text: &mut String, n: u64)
    ensures
        final(text)@ == old(text)@ + decimal(n as nat),
    decreases n,
{
    if n >= 10 {
        push_decimal(text, n / 10);
    }
    push_digit(text, n % 10);
    assert(text@ =~= old(text)@ + decimal(n as nat));
}

/// A number is written digit behind digit, the highest first and without a
/// leading zero: one digit is itself, and one more digit behind a number that is
/// not zero stands for ten times as much and that digit.
pub proof fn law_decimal_is_positional(n: nat, d: nat)
    requires
        d < 10,
    ensures
        decimal(d) == seq![(48 + d) as char],
        n > 0 ==> decimal(10 * n + d) == decimal(n).push((48 + d) as char),
{
}

/// A number is read digit by digit. A digit spells its value; one more digit
/// behind a number makes it ten times as much and that digit, as long as a `u64`
/// holds that; one plus sign may come first; and nothing else spells a number.
pub proof fn law_a_number_is_read_digit_by_digit(s: Seq<char>, c: char)
    ensures
        number_spelled(Seq::empty()) is None,
        number_spelled(seq![c]) == (if '0' <= c <= '9' {
            Some((c as int - 48) as u64)
        } else {
            None
        }),
        s.len() > 0 && s != seq!['+'] ==> number_spelled(s.push(c)) == (match number_spelled(s) {
            Some(n) if '0' <= c <= '9' && n * 10 + (c as int - 48) <= u64::MAX => Some(
                (n * 10 + (c as int - 48)) as u64,
            ),
            _ => None,
        }),
        s.len() > 0 && s[0] != '+' ==> number_spelled(seq!['+'] + s) == number_spelled(s),
        s.len() > 0 && s[0] == '+' ==> number_spelled(seq!['+'] + s) is None,
{
    reveal_with_fuel(digits_value, 2);
    let one = seq![c];
    assert(one.drop_last() == Seq::<char>::empty());
    assert(one[0] == c);
    let signed = seq!['+'] + s;
    assert(signed.drop_first() == s);
    if s.len() > 0 {
        if s[0] == '+' {
            assert(!is_digit(s[0]));
        }
        let more = s.push(c);
        let digits = unsigned(s);
        if s != seq!['+'] {
            if s.len() == 1 && s[0] == '+' {
                assert(s =~= seq!['+']);
            }
            assert(unsigned(more) =~= digits.push(c));
            let longer = digits.push(c);
            assert(longer.drop_last() == digits);
            assert(longer[longer.len() - 1] == c);
            if all_digits(longer) {
                assert forall|i: int| 0 <= i < digits.len() implies is_digit(
                    #[trigger] digits[i],
                ) by {
                    assert(longer[i] == digits[i]);
                }
                assert(is_digit(c));
            }
            if all_digits(digits) && is_digit(c) {
                assert forall|i: int| 0 <= i < longer.len() implies is_digit(
                    #[trigger] longer[i],
                ) by {
                    if i < digits.len() {
                        assert(longer[i] == digits[i]);
                    }
                }
            }
        }
    }
}

/// Text without a newline is one line, and a newline parts the lines before it
/// from the lines behind it.
pub proof fn law_newlines_part_lines(before: Seq<char>, behind: Seq<char>)
    ensures
        !before.contains('\n') ==> lines(before) == seq![before],
        lines(before + seq!['\n'] + behind) == lines(before) + lines(behind),
{
    lemma_lines_part(before, behind);
    if !before.contains('\n') {
        lemma_one_line(before);
    }
}

/// Whether `s` is white space and nothing else.
pub open spec fn blank(s: Seq<char>) -> bool {
    forall|i: int| 0 <= i < s.len() ==> white_space(#[trigger] s[i])
}

/// Whether `s` neither begins nor ends with white space.
pub open spec fn is_trimmed(s: Seq<char>) -> bool {
    s.len() == 0 || (!white_space(s[0]) && !white_space(s.last()))
}

pub(crate) proof fn lemma_trim_start_padded(before: Seq<char>, s: Seq<char>)
    requires
        blank(before),
    ensures
        trim_start(before + s) == trim_start(s),
    decreases before.len(),
{
    if before.len() == 0 {
        assert(before + s == s);
    } else {
        assert(white_space(before[0]));
        assert forall|i: int| 0 <= i < before.drop_first().len() implies white_space(
            #[trigger] before.drop_first()[i],
        ) by {
            assert(white_space(before[i + 1]));
        }
        lemma_trim_start_padded(before.drop_first(), s);
        assert((before + s).drop_first() == before.drop_first() + s);
    }
}

proof fn lemma_trim_end_padded(s: Seq<char>, behind: Seq<char>)
    requires
        blank(behind),
    ensures
        trim_end(s + behind) == trim_end(s),
    decreases behind.len(),
{
    if behind.len() == 0 {
        assert(s + behind == s);
    } else {
        assert(white_space(behind[behind.len() - 1]));
        assert forall|i: int| 0 <= i < behind.drop_last().len() implies white_space(
            #[trigger] behind.drop_last()[i],
        ) by {
            assert(white_space(behind[i]));
        }
        lemma_trim_end_padded(s, behind.drop_last());
        assert((s + behind).drop_last() == s + behind.drop_last());
        assert((s + behind).last() == behind.last());
    }
}

/// Trimming takes away the white space around a text, all of it and nothing else.
pub proof fn law_trimming_takes_the_white_space_around(
    before: Seq<char>,
    s: Seq<char>,
    behind: Seq<char>,
)
    requires
        blank(before),
        blank(behind),
        is_trimmed(s),
    ensures
        trim(before + s + behind) == s,
{
    assert(before + s + behind == before + (s + behind));
    lemma_trim_start_padded(before, s + behind);
    if s.len() == 0 {
        assert(s + behind == behind + s);
        lemma_trim_start_padded(behind, s);
        assert(trim(before + s + behind) =~= s);
    } else {
        assert((s + behind)[0] == s[0]);
        lemma_trim_end_padded(s, behind);
    }
}

/// White space is what separates words and lines: the space, the tab, the newline
/// and the carriage return are white space; letters, digits and the characters of
/// the record format are not, nor is anything above the ideographic space.
pub proof fn law_what_is_white_space(c: char)
    ensures
        c == ' ' || c == '\t' || c == '\n' || c == '\r' ==> white_space(c),
        '!' <= c <= '~' ==> !white_space(c),
        c as int > 0x3000 ==> !white_space(c),
{
}

} // verus!
