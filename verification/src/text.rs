//! Text: trimming, splitting and decimal numbers, stated over sequences of characters.
use vstd::prelude::*;
use vstd::string::StrSliceExecFns;
use vstd::string::StringExecFns;

verus! {

/// The characters that count as white space (the Unicode property `White_Space`).
pub open spec fn is_white_space(c: char) -> bool {
    let n = c as u32;
    ||| 0x9 <= n <= 0xd
    ||| n == 0x20
    ||| n == 0x85
    ||| n == 0xa0
    ||| n == 0x1680
    ||| 0x2000 <= n <= 0x200a
    ||| n == 0x2028
    ||| n == 0x2029
    ||| n == 0x202f
    ||| n == 0x205f
    ||| n == 0x3000
}

/// `s` without its leading white space.
pub open spec fn trimmed_start(s: Seq<char>) -> Seq<char>
    decreases s.len(),
{
    if s.len() > 0 && is_white_space(s[0]) {
        trimmed_start(s.skip(1))
    } else {
        s
    }
}

/// `s` without its trailing white space.
pub open spec fn trimmed_end(s: Seq<char>) -> Seq<char>
    decreases s.len(),
{
    if s.len() > 0 && is_white_space(s.last()) {
        trimmed_end(s.drop_last())
    } else {
        s
    }
}

/// `s` without leading and trailing white space.
pub open spec fn trimmed(s: Seq<char>) -> Seq<char> {
    trimmed_end(trimmed_start(s))
}

/// The position of the first `c` in `s`, or the length of `s` if there is none.
pub open spec fn position(s: Seq<char>, c: char) -> int
    decreases s.len(),
{
    if s.len() == 0 || s[0] == c {
        0
    } else {
        1 + position(s.skip(1), c)
    }
}

/// The pieces of `s` between the occurrences of `separator`; always at least one.
pub open spec fn fields(s: Seq<char>, separator: char) -> Seq<Seq<char>>
    decreases s.len(),
{
    let i = position(s, separator);
    if 0 <= i < s.len() {
        seq![s.take(i)] + fields(s.skip(i + 1), separator)
    } else {
        seq![s]
    }
}

/// A line that ended in a line feed, without the carriage return that may stand before it.
pub open spec fn without_carriage_return(s: Seq<char>) -> Seq<char> {
    if s.len() > 0 && s.last() == '\r' {
        s.drop_last()
    } else {
        s
    }
}

/// The lines of `s`. A line feed ends a line, alone or after a carriage return; the last line
/// need not be ended.
pub open spec fn lines_of(s: Seq<char>) -> Seq<Seq<char>>
    decreases s.len(),
{
    if s.len() == 0 {
        Seq::empty()
    } else {
        let i = position(s, '\n');
        if 0 <= i < s.len() {
            seq![without_carriage_return(s.take(i))] + lines_of(s.skip(i + 1))
        } else {
            seq![s]
        }
    }
}

/// Whether `s` begins with `prefix`.
pub open spec fn begins_with(s: Seq<char>, prefix: Seq<char>) -> bool {
    prefix.len() <= s.len() && s.take(prefix.len() as int) == prefix
}

/// The texts that string slices hold.
pub open spec fn views(v: Seq<&str>) -> Seq<Seq<char>> {
    Seq::new(v.len(), |i: int| v[i]@)
}

/// The texts that strings hold.
pub open spec fn string_views(v: Seq<String>) -> Seq<Seq<char>> {
    Seq::new(v.len(), |i: int| v[i]@)
}

pub proof fn lemma_position(s: Seq<char>, c: char)
    ensures
        0 <= position(s, c) <= s.len(),
        position(s, c) < s.len() ==> s[position(s, c)] == c,
        forall|j: int| 0 <= j < position(s, c) ==> s[j] != c,
    decreases s.len(),
{
    if s.len() == 0 || s[0] == c {
    } else {
        lemma_position(s.skip(1), c);
        let k = position(s.skip(1), c);
        assert forall|j: int| 0 <= j < position(s, c) implies s[j] != c by {
            if j > 0 {
                assert(s[j] == s.skip(1)[j - 1]);
            }
        }
    }
}

/// The position is where the first `c` stands: nothing else has that property.
pub proof fn lemma_position_is(s: Seq<char>, c: char, i: int)
    requires
        0 <= i <= s.len(),
        i < s.len() ==> s[i] == c,
        forall|j: int| 0 <= j < i ==> s[j] != c,
    ensures
        position(s, c) == i,
{
    lemma_position(s, c);
}

proof fn lemma_trimmed_start_is(s: Seq<char>, i: int)
    requires
        0 <= i <= s.len(),
        forall|j: int| 0 <= j < i ==> is_white_space(s[j]),
        i < s.len() ==> !is_white_space(s[i]),
    ensures
        trimmed_start(s) == s.skip(i),
    decreases i,
{
    if i == 0 {
        assert(s.skip(0) =~= s);
    } else {
        lemma_trimmed_start_is(s.skip(1), i - 1);
        assert(s.skip(1).skip(i - 1) =~= s.skip(i));
    }
}

proof fn lemma_trimmed_end_is(s: Seq<char>, i: int)
    requires
        0 <= i <= s.len(),
        forall|j: int| i <= j < s.len() ==> is_white_space(s[j]),
        i > 0 ==> !is_white_space(s[i - 1]),
    ensures
        trimmed_end(s) == s.take(i),
    decreases s.len() - i,
{
    if i == s.len() {
        assert(s.take(i) =~= s);
    } else {
        lemma_trimmed_end_is(s.drop_last(), i);
        assert(s.drop_last().take(i) =~= s.take(i));
    }
}

/// The characters of `s`, one by one.
pub fn characters(s: &str) -> (chars: Vec<char>)
    ensures
        chars@ == s@,
{
    let mut chars: Vec<char> = Vec::new();
    for c in iter: s.chars()
        invariant
            iter.seq() == s@,
            chars@ == s@.take(iter.index() as int),
    {
        chars.push(c);
        assert(s@.take(iter.index() as int).push(c) =~= s@.take(iter.index() + 1));
    }
    assert(s@.take(s@.len() as int) =~= s@);
    chars
}

/// Whether two texts are the same.
pub fn same_text(a: &str, b: &str) -> (same: bool)
    ensures
        same == (a@ == b@),
{
    let x = characters(a);
    let y = characters(b);
    if x.len() != y.len() {
        return false;
    }
    let mut i: usize = 0;
    while i < x.len()
        invariant
            x@ == a@,
            y@ == b@,
            x.len() == y.len(),
            i <= x.len(),
            forall|j: int| 0 <= j < i ==> x@[j] == y@[j],
        decreases x.len() - i,
    {
        if x[i] != y[i] {
            assert(a@[i as int] != b@[i as int]);
            return false;
        }
        i = i + 1;
    }
    assert(a@ =~= b@);
    true
}

/// Whether `s` begins with `prefix`.
pub fn starts_with(s: &str, prefix: &str) -> (yes: bool)
    ensures
        yes == begins_with(s@, prefix@),
{
    let x = characters(s);
    let y = characters(prefix);
    if y.len() > x.len() {
        return false;
    }
    let mut i: usize = 0;
    while i < y.len()
        invariant
            x@ == s@,
            y@ == prefix@,
            y.len() <= x.len(),
            i <= y.len(),
            forall|j: int| 0 <= j < i ==> x@[j] == y@[j],
        decreases y.len() - i,
    {
        if x[i] != y[i] {
            assert(s@.take(y@.len() as int)[i as int] != prefix@[i as int]);
            return false;
        }
        i = i + 1;
    }
    assert(s@.take(y@.len() as int) =~= prefix@);
    true
}

fn white_space(c: char) -> (yes: bool)
    ensures
        yes == is_white_space(c),
{
    let n: u32 = c as u32;
    (0x9 <= n && n <= 0xd) || n == 0x20 || n == 0x85 || n == 0xa0 || n == 0x1680 || (0x2000 <= n
        && n <= 0x200a) || n == 0x2028 || n == 0x2029 || n == 0x202f || n == 0x205f || n == 0x3000
}

/// `s` without leading and trailing white space.
pub fn trim<'a>(s: &'a str) -> (r: &'a str)
    ensures
        r@ == trimmed(s@),
{
    let chars = characters(s);
    let mut from: usize = 0;
    while from < chars.len() && white_space(chars[from])
        invariant
            chars@ == s@,
            from <= chars.len(),
            forall|j: int| 0 <= j < from ==> is_white_space(s@[j]),
        decreases chars.len() - from,
    {
        from = from + 1;
    }
    let mut to: usize = chars.len();
    while to > from && white_space(chars[to - 1])
        invariant
            chars@ == s@,
            from <= to <= chars.len(),
            forall|j: int| to <= j < chars.len() ==> is_white_space(s@[j]),
        decreases to,
    {
        to = to - 1;
    }
    proof {
        lemma_trimmed_start_is(s@, from as int);
        lemma_trimmed_end_is(s@.skip(from as int), to - from);
        assert(s@.skip(from as int).take(to - from) =~= s@.subrange(from as int, to as int));
    }
    s.substring_char(from, to)
}

/// The first position of `c` at or after `from`, or the length.
fn find(chars: &Vec<char>, from: usize, c: char) -> (at: usize)
    requires
        from <= chars.len(),
    ensures
        from <= at <= chars.len(),
        at - from == position(chars@.skip(from as int), c),
{
    let mut at: usize = from;
    while at < chars.len() && chars[at] != c
        invariant
            from <= at <= chars.len(),
            forall|j: int| from <= j < at ==> chars@[j] != c,
        decreases chars.len() - at,
    {
        at = at + 1;
    }
    proof {
        lemma_position_is(chars@.skip(from as int), c, at - from);
    }
    at
}

/// The text before the first `separator` and the text after it, if there is one.
pub fn split_once<'a>(s: &'a str, separator: char) -> (r: Option<(&'a str, &'a str)>)
    ensures
        r is Some <==> s@.contains(separator),
        r matches Some(parts) ==> {
            &&& parts.0@ == s@.take(position(s@, separator))
            &&& parts.1@ == s@.skip(position(s@, separator) + 1)
        },
{
    let chars = characters(s);
    let at = find(&chars, 0, separator);
    proof {
        assert(s@.skip(0) =~= s@);
        lemma_position(s@, separator);
    }
    if at == chars.len() {
        return None;
    }
    assert(s@[at as int] == separator);
    let head = s.substring_char(0, at);
    let tail = s.substring_char(at + 1, chars.len());
    assert(s@.subrange(0, at as int) =~= s@.take(at as int));
    assert(s@.subrange(at + 1, s@.len() as int) =~= s@.skip(at + 1));
    Some((head, tail))
}

/// The pieces of `s` between the occurrences of `separator`.
pub fn split<'a>(s: &'a str, separator: char) -> (parts: Vec<&'a str>)
    ensures
        views(parts@) == fields(s@, separator),
{
    let chars = characters(s);
    let mut parts: Vec<&'a str> = Vec::new();
    let mut from: usize = 0;
    assert(s@.skip(0) =~= s@);
    assert(views(parts@) + fields(s@, separator) =~= fields(s@, separator));
    loop
        invariant
            chars@ == s@,
            from <= chars.len(),
            views(parts@) + fields(s@.skip(from as int), separator) == fields(s@, separator),
        decreases chars.len() - from,
    {
        let ghost rest = s@.skip(from as int);
        let ghost before = parts@;
        let at = find(&chars, from, separator);
        parts.push(s.substring_char(from, at));
        assert(s@.subrange(from as int, at as int) =~= rest.take(at - from));
        assert(views(parts@) =~= views(before).push(rest.take(at - from)));
        if at == chars.len() {
            assert(rest.take(at - from) =~= rest);
            assert(views(parts@) =~= views(before) + seq![rest]);
            return parts;
        }
        assert(rest.skip(at - from + 1) =~= s@.skip(at + 1));
        assert(views(before) + (seq![rest.take(at - from)] + fields(s@.skip(at + 1), separator))
            =~= views(parts@) + fields(s@.skip(at + 1), separator));
        from = at + 1;
    }
}

/// The lines of `s`.
pub fn lines<'a>(s: &'a str) -> (parts: Vec<&'a str>)
    ensures
        views(parts@) == lines_of(s@),
{
    let chars = characters(s);
    let mut parts: Vec<&'a str> = Vec::new();
    let mut from: usize = 0;
    assert(s@.skip(0) =~= s@);
    assert(views(parts@) + lines_of(s@) =~= lines_of(s@));
    while from < chars.len()
        invariant
            chars@ == s@,
            from <= chars.len(),
            views(parts@) + lines_of(s@.skip(from as int)) == lines_of(s@),
        decreases chars.len() - from,
    {
        let ghost rest = s@.skip(from as int);
        let ghost before = parts@;
        let at = find(&chars, from, '\n');
        if at == chars.len() {
            parts.push(s.substring_char(from, at));
            assert(s@.subrange(from as int, at as int) =~= rest);
            assert(views(parts@) =~= views(before) + seq![rest]);
            return parts;
        }
        let to: usize = if at > from && chars[at - 1] == '\r' {
            at - 1
        } else {
            at
        };
        parts.push(s.substring_char(from, to));
        let ghost line = without_carriage_return(rest.take(at - from));
        assert(s@.subrange(from as int, to as int) =~= line);
        assert(views(parts@) =~= views(before).push(line));
        assert(rest.skip(at - from + 1) =~= s@.skip(at + 1));
        assert(views(before) + (seq![line] + lines_of(s@.skip(at + 1))) =~= views(parts@)
            + lines_of(s@.skip(at + 1)));
        from = at + 1;
    }
    assert(views(parts@) + lines_of(s@.skip(from as int)) =~= views(parts@));
    parts
}

/// The decimal digit `d`.
pub open spec fn digit(d: int) -> char {
    (('0' as u32) + d) as char
}

/// The decimal notation of `n`, without leading zeros.
pub open spec fn decimal(n: nat) -> Seq<char>
    decreases n,
{
    if n < 10 {
        seq![digit(n as int)]
    } else {
        decimal(n / 10).push(digit((n % 10) as int))
    }
}

/// The magnitude of `n`.
pub open spec fn magnitude(n: int) -> nat {
    if n < 0 {
        (-n) as nat
    } else {
        n as nat
    }
}

/// The sign that stands before a number: a minus if it is negative.
pub open spec fn sign(n: int) -> Seq<char> {
    if n < 0 {
        seq!['-']
    } else {
        Seq::empty()
    }
}

/// The decimal notation of `n` with its sign.
pub open spec fn signed_decimal(n: int) -> Seq<char> {
    sign(n) + decimal(magnitude(n))
}

/// `n` zeros.
pub open spec fn zeros(n: nat) -> Seq<char> {
    Seq::new(n, |i: int| '0')
}

/// The decimal notation of `n`, filled with zeros between sign and digits up to `width`
/// characters in all.
pub open spec fn zero_padded(n: int, width: nat) -> Seq<char> {
    let plain = signed_decimal(n);
    let missing = if plain.len() < width {
        (width - plain.len()) as nat
    } else {
        0
    };
    sign(n) + zeros(missing) + decimal(magnitude(n))
}

/// The value that a sequence of decimal digits denotes.
pub open spec fn decimal_value(s: Seq<char>) -> int
    decreases s.len(),
{
    if s.len() == 0 {
        0
    } else {
        decimal_value(s.drop_last()) * 10 + (s.last() as u32 - '0' as u32)
    }
}

/// Reading a decimal notation back gives the number: no two numbers look alike.
pub proof fn law_decimal_reads_back(n: nat)
    ensures
        decimal_value(decimal(n)) == n,
    decreases n,
{
    if n < 10 {
        let s = seq![digit(n as int)];
        assert(s.drop_last() =~= Seq::empty());
        assert(decimal_value(s.drop_last()) == 0);
        assert(s.last() as u32 == 48 + n);
    } else {
        law_decimal_reads_back(n / 10);
        let s = decimal(n);
        assert(s.drop_last() =~= decimal(n / 10));
        assert(s.last() as u32 == 48 + n % 10);
    }
}

/// A decimal notation consists of digits.
pub proof fn lemma_decimal_digits(n: nat)
    ensures
        decimal(n).len() >= 1,
        forall|i: int| 0 <= i < decimal(n).len() ==> '0' <= #[trigger] decimal(n)[i] <= '9',
    decreases n,
{
    if n >= 10 {
        lemma_decimal_digits(n / 10);
    }
}

/// A number below ten has one digit, and each further power of ten adds one.
pub proof fn lemma_decimal_len(n: nat)
    ensures
        n < 10 ==> decimal(n).len() == 1,
        10 <= n < 100 ==> decimal(n).len() == 2,
        100 <= n < 1_000 ==> decimal(n).len() == 3,
        1_000 <= n < 10_000 ==> decimal(n).len() == 4,
        10_000 <= n < 100_000 ==> decimal(n).len() == 5,
        n <= u32::MAX ==> decimal(n).len() <= 10,
{
    reveal_with_fuel(decimal, 10);
}

/// Without a width to fill, a padded number is the plain number.
pub proof fn lemma_width_zero(n: int)
    ensures
        zero_padded(n, 0) == signed_decimal(n),
{
    assert(zero_padded(n, 0) =~= signed_decimal(n));
}

/// Appends the decimal notation of `n`.
pub fn append_decimal(out: &mut String, n: u32)
    ensures
        final(out)@ == old(out)@ + decimal(n as nat),
    decreases n,
{
    if n >= 10 {
        append_decimal(out, n / 10);
    }
    let d: u32 = n % 10;
    let ghost before = out@;
    proof {
        reveal_strlit("0");
        reveal_strlit("1");
        reveal_strlit("2");
        reveal_strlit("3");
        reveal_strlit("4");
        reveal_strlit("5");
        reveal_strlit("6");
        reveal_strlit("7");
        reveal_strlit("8");
        reveal_strlit("9");
    }
    let glyph: &str = match d {
        0 => "0",
        1 => "1",
        2 => "2",
        3 => "3",
        4 => "4",
        5 => "5",
        6 => "6",
        7 => "7",
        8 => "8",
        _ => "9",
    };
    assert(glyph@ =~= seq![digit(d as int)]);
    out.append(glyph);
    proof {
        if n < 10 {
            assert(out@ =~= old(out)@ + decimal(n as nat));
        } else {
            assert(out@ =~= old(out)@ + decimal(n as nat / 10).push(digit(d as int)));
        }
    }
}

/// Appends the decimal notation of `n` with its sign, filled with zeros up to `width` characters.
pub fn append_zero_padded(out: &mut String, n: i16, width: usize)
    ensures
        final(out)@ == old(out)@ + zero_padded(n as int, width as nat),
{
    let size: u32 = if n < 0 {
        (-(n as i32)) as u32
    } else {
        n as u32
    };
    let mut digits = String::new();
    append_decimal(&mut digits, size);
    assert(digits@ =~= decimal(size as nat));
    let ghost start = out@;
    let mut used: usize = digits.as_str().unicode_len();
    proof {
        lemma_decimal_len(size as nat);
        reveal_strlit("-");
        reveal_strlit("0");
        assert(start =~= start + Seq::<char>::empty());
    }
    if n < 0 {
        out.append("-");
        used = used + 1;
        assert("-"@ =~= sign(n as int));
    }
    let ghost headed = start + sign(n as int);
    assert(out@ =~= headed);
    let mut filled: usize = 0;
    assert(headed + zeros(0) =~= headed);
    while used + filled < width
        invariant
            1 <= used <= 6,
            used + filled <= width || filled == 0,
            out@ == headed + zeros(filled as nat),
            "0"@ == seq!['0'],
        decreases width - filled,
    {
        out.append("0");
        assert(zeros(filled as nat) + seq!['0'] =~= zeros((filled + 1) as nat));
        assert(out@ =~= headed + zeros((filled + 1) as nat));
        filled = filled + 1;
    }
    out.append(digits.as_str());
    assert(out@ =~= start + zero_padded(n as int, width as nat));
}

/// Whether `s` consists of white space.
pub open spec fn is_blank(s: Seq<char>) -> bool {
    forall|i: int| 0 <= i < s.len() ==> is_white_space(#[trigger] s[i])
}

/// Whether `s` neither begins nor ends with white space.
pub open spec fn has_no_margin(s: Seq<char>) -> bool {
    s.len() > 0 ==> !is_white_space(s[0]) && !is_white_space(s[s.len() - 1])
}

/// White space around a text is all that trimming takes away.
pub proof fn lemma_trimmed_margins(before: Seq<char>, kept: Seq<char>, after: Seq<char>)
    requires
        is_blank(before),
        has_no_margin(kept),
        is_blank(after),
    ensures
        trimmed(before + kept + after) == kept,
{
    let s = before + kept + after;
    if kept.len() == 0 {
        assert forall|j: int| 0 <= j < s.len() implies is_white_space(s[j]) by {
            if j < before.len() {
                assert(s[j] == before[j]);
            } else {
                assert(s[j] == after[j - before.len()]);
            }
        }
        lemma_trimmed_start_is(s, s.len() as int);
        assert(trimmed(s) =~= kept);
    } else {
        let rest = s.skip(before.len() as int);
        assert(rest =~= kept + after);
        assert forall|j: int| 0 <= j < before.len() implies is_white_space(s[j]) by {
            assert(s[j] == before[j]);
        }
        assert(s[before.len() as int] == kept[0]);
        lemma_trimmed_start_is(s, before.len() as int);
        assert forall|j: int| kept.len() <= j < rest.len() implies is_white_space(rest[j]) by {
            assert(rest[j] == after[j - kept.len()]);
        }
        assert(rest[kept.len() - 1] == kept[kept.len() - 1]);
        lemma_trimmed_end_is(rest, kept.len() as int);
        assert(rest.take(kept.len() as int) =~= kept);
    }
}

/// Trimming takes white space away at both ends, all of it, and nothing else.
pub proof fn law_trim_takes_margins(
    s: &str,
    r: &str,
    before: Seq<char>,
    kept: Seq<char>,
    after: Seq<char>,
)
    requires
        call_ensures(trim, (s,), r),
        s@ == before + kept + after,
        is_blank(before),
        has_no_margin(kept),
        is_blank(after),
    ensures
        r@ == kept,
{
    lemma_trimmed_margins(before, kept, after);
}

/// The first of several fields ends at the first separator.
pub proof fn lemma_fields_cut(first: Seq<char>, separator: char, rest: Seq<char>)
    requires
        !first.contains(separator),
    ensures
        fields(first, separator) == seq![first],
        fields(first + seq![separator] + rest, separator) == seq![first] + fields(rest, separator),
{
    assert forall|j: int| 0 <= j < first.len() implies first[j] != separator by {
        assert(first.contains(first[j]));
    }
    lemma_position_is(first, separator, first.len() as int);
    let s = first + seq![separator] + rest;
    assert forall|j: int| 0 <= j < first.len() implies s[j] != separator by {
        assert(s[j] == first[j]);
    }
    lemma_position_is(s, separator, first.len() as int);
    assert(s.take(first.len() as int) =~= first);
    assert(s.skip(first.len() as int + 1) =~= rest);
}

/// A text without separators is one field. A text with one is cut there: what stands before its
/// first separator is the first field, and the others are those of what follows.
pub proof fn law_split_cuts_at_separators(
    s: &str,
    parts: Vec<&str>,
    separator: char,
    first: Seq<char>,
    rest: &str,
    others: Vec<&str>,
)
    requires
        call_ensures(split, (s, separator), parts),
        call_ensures(split, (rest, separator), others),
        !first.contains(separator),
    ensures
        s@ == first ==> parts@.len() == 1 && parts@[0]@ == first,
        s@ == first + seq![separator] + rest@ ==> {
            &&& parts@.len() == 1 + others@.len()
            &&& parts@[0]@ == first
            &&& forall|i: int| 0 <= i < others@.len() ==> parts@[i + 1]@ == (#[trigger] others@[i])@
        },
{
    lemma_fields_cut(first, separator, rest@);
    assert(views(parts@).len() == parts@.len());
    assert(views(others@).len() == others@.len());
    if s@ == first {
        assert(views(parts@)[0] == parts@[0]@);
    }
    if s@ == first + seq![separator] + rest@ {
        assert(views(parts@)[0] == parts@[0]@);
        assert forall|i: int| 0 <= i < others@.len() implies parts@[i + 1]@ == (
        #[trigger] others@[i])@ by {
            assert(views(parts@)[i + 1] == parts@[i + 1]@);
            assert(views(others@)[i] == others@[i]@);
        }
    }
}

/// Cutting a text once gives what stands before its first separator and all that stands behind it;
/// a text without one is not cut.
pub proof fn law_split_once_keeps_all(
    s: &str,
    separator: char,
    r: Option<(&str, &str)>,
    first: Seq<char>,
    rest: Seq<char>,
)
    requires
        call_ensures(split_once, (s, separator), r),
        !first.contains(separator),
    ensures
        s@ == first ==> r is None,
        s@ == first + seq![separator] + rest ==> (r matches Some(parts) && parts.0@ == first
            && parts.1@ == rest),
{
    let s2 = first + seq![separator] + rest;
    if s@ == s2 {
        assert forall|j: int| 0 <= j < first.len() implies s2[j] != separator by {
            assert(first.contains(first[j]));
            assert(s2[j] == first[j]);
        }
        assert(s2[first.len() as int] == separator);
        lemma_position_is(s2, separator, first.len() as int);
        assert(s2.take(first.len() as int) =~= first);
        assert(s2.skip(first.len() as int + 1) =~= rest);
    }
}

/// The first of several lines ends at the first line feed.
pub proof fn lemma_lines_cut(first: Seq<char>, rest: Seq<char>)
    requires
        !first.contains('\n'),
    ensures
        first.len() > 0 ==> lines_of(first) == seq![first],
        lines_of(first + seq!['\n'] + rest) == seq![without_carriage_return(first)] + lines_of(rest),
{
    assert forall|j: int| 0 <= j < first.len() implies first[j] != '\n' by {
        assert(first.contains(first[j]));
    }
    lemma_position_is(first, '\n', first.len() as int);
    let s = first + seq!['\n'] + rest;
    assert forall|j: int| 0 <= j < first.len() implies s[j] != '\n' by {
        assert(s[j] == first[j]);
    }
    lemma_position_is(s, '\n', first.len() as int);
    assert(s.take(first.len() as int) =~= first);
    assert(s.skip(first.len() as int + 1) =~= rest);
}

/// The lines of two texts, of which the first ends with a line feed, are the lines of both.
pub proof fn lemma_lines_join(a: Seq<char>, b: Seq<char>)
    requires
        a.len() > 0 ==> a.last() == '\n',
    ensures
        lines_of(a + b) == lines_of(a) + lines_of(b),
    decreases a.len(),
{
    if a.len() == 0 {
        assert(a + b =~= b);
        assert(lines_of(a) + lines_of(b) =~= lines_of(b));
    } else {
        lemma_position(a, '\n');
        let i = position(a, '\n');
        if i == a.len() {
            assert(a[a.len() - 1] != '\n');
        }
        let first = a.take(i);
        let rest = a.skip(i + 1);
        assert(!first.contains('\n'));
        assert(a =~= first + seq!['\n'] + rest);
        assert(a + b =~= first + seq!['\n'] + (rest + b));
        lemma_lines_cut(first, rest);
        lemma_lines_cut(first, rest + b);
        lemma_lines_join(rest, b);
        assert(seq![without_carriage_return(first)] + (lines_of(rest) + lines_of(b)) =~= seq![
            without_carriage_return(first),
        ] + lines_of(rest) + lines_of(b));
    }
}

/// A line feed, alone or behind a carriage return, ends a line: what stands before the first one is
/// the first line, and the others are those of what follows. A text without line feeds is one
/// line, and an empty one is none.
pub proof fn law_lines_end_at_line_feeds(
    s: &str,
    parts: Vec<&str>,
    first: Seq<char>,
    rest: &str,
    others: Vec<&str>,
)
    requires
        call_ensures(lines, (s,), parts),
        call_ensures(lines, (rest,), others),
        !first.contains('\n'),
    ensures
        s@.len() == 0 ==> parts@.len() == 0,
        s@ == first && first.len() > 0 ==> parts@.len() == 1 && parts@[0]@ == first,
        s@ == first + seq!['\r', '\n'] + rest@ || (s@ == first + seq!['\n'] + rest@ && (first.len()
            > 0 ==> first.last() != '\r')) ==> {
            &&& parts@.len() == 1 + others@.len()
            &&& parts@[0]@ == first
            &&& forall|i: int| 0 <= i < others@.len() ==> parts@[i + 1]@ == (#[trigger] others@[i])@
        },
{
    lemma_lines_cut(first, rest@);
    let ended = first.push('\r');
    assert(!ended.contains('\n')) by {
        assert forall|j: int| 0 <= j < ended.len() implies ended[j] != '\n' by {
            if j < first.len() {
                assert(first.contains(first[j]));
            }
        }
    }
    lemma_lines_cut(ended, rest@);
    assert(ended.drop_last() =~= first);
    assert(first + seq!['\r', '\n'] + rest@ =~= ended + seq!['\n'] + rest@);
    assert(views(parts@).len() == parts@.len());
    assert(views(others@).len() == others@.len());
    if s@.len() > 0 {
        assert(parts@.len() > 0 ==> views(parts@)[0] == parts@[0]@);
        assert forall|i: int|
            0 <= i < others@.len() && parts@.len() == 1 + others@.len() implies views(parts@)[i + 1]
            == parts@[i + 1]@ && views(others@)[i] == (#[trigger] others@[i])@ by {}
    }
}

/// A text begins with a prefix exactly if it is the prefix with something behind it.
pub proof fn law_starts_with_means_prefix(s: &str, prefix: &str, yes: bool, rest: Seq<char>)
    requires
        call_ensures(starts_with, (s, prefix), yes),
    ensures
        s@ == prefix@ + rest ==> yes,
        yes ==> s@ == prefix@ + s@.skip(prefix@.len() as int),
{
    if s@ == prefix@ + rest {
        assert(s@.take(prefix@.len() as int) =~= prefix@);
    }
    if yes {
        assert(s@ =~= s@.take(prefix@.len() as int) + s@.skip(prefix@.len() as int));
    }
}

/// A number below ten is written as its digit, and the notation of a larger one is that of its
/// tens with the last digit behind it.
pub proof fn law_decimal_digit_by_digit(tens: nat, last: nat)
    requires
        last < 10,
    ensures
        decimal(last) == seq![(48 + last) as char],
        tens > 0 ==> decimal(10 * tens + last) == decimal(tens).push((48 + last) as char),
{
    assert((10 * tens + last) / 10 == tens);
    assert((10 * tens + last) % 10 == last);
}

/// A padded number is as wide as asked for, or as wide as it must be; before its digits stand
/// zeros only, and a minus before all of it stands for a negative number.
pub proof fn law_padding_is_zeros(n: nat, width: nat)
    ensures
        zero_padded(n as int, width).len() == if decimal(n).len() < width {
            width
        } else {
            decimal(n).len()
        },
        zero_padded(n as int, width).skip(zero_padded(n as int, width).len() - decimal(n).len())
            == decimal(n),
        forall|i: int|
            0 <= i < zero_padded(n as int, width).len() - decimal(n).len()
                ==> #[trigger] zero_padded(n as int, width)[i] == '0',
        n > 0 && width > 0 ==> zero_padded(-n, width) == seq!['-'] + zero_padded(
            n as int,
            (width - 1) as nat,
        ),
        signed_decimal(n as int) == decimal(n),
        n > 0 ==> signed_decimal(-n) == seq!['-'] + decimal(n),
        zero_padded(n as int, 0) == decimal(n),
        n > 0 ==> zero_padded(-n, 0) == seq!['-'] + decimal(n),
{
    let s = zero_padded(n as int, width);
    assert(signed_decimal(n as int) =~= decimal(n));
    assert(s.skip(s.len() - decimal(n).len()) =~= decimal(n));
    if n > 0 {
        assert(magnitude(-n) == n);
        if width > 0 {
            assert(zero_padded(-n, width) =~= seq!['-'] + zero_padded(
                n as int,
                (width - 1) as nat,
            ));
        }
        assert(zero_padded(-n, 0) =~= seq!['-'] + decimal(n));
    }
    assert(zero_padded(n as int, 0) =~= decimal(n));
}

/// Every text is white space, then what trimming keeps of it, then white space.
pub proof fn lemma_trimmed_parts(s: Seq<char>) -> (parts: (Seq<char>, Seq<char>, Seq<char>))
    ensures
        s == parts.0 + parts.1 + parts.2,
        is_blank(parts.0),
        has_no_margin(parts.1),
        is_blank(parts.2),
        trimmed(s) == parts.1,
    decreases s.len(),
{
    let none = Seq::<char>::empty();
    if s.len() > 0 && is_white_space(s[0]) {
        let inner = lemma_trimmed_parts(s.skip(1));
        let before = seq![s[0]] + inner.0;
        assert forall|i: int| 0 <= i < before.len() implies is_white_space(#[trigger] before[i]) by {
            if i > 0 {
                assert(before[i] == inner.0[i - 1]);
            }
        }
        assert(s =~= seq![s[0]] + s.skip(1));
        assert(seq![s[0]] + (inner.0 + inner.1 + inner.2) =~= before + inner.1 + inner.2);
        lemma_trimmed_margins(before, inner.1, inner.2);
        (before, inner.1, inner.2)
    } else if s.len() > 0 && is_white_space(s.last()) {
        let inner = lemma_trimmed_parts(s.drop_last());
        let after = inner.2.push(s.last());
        assert forall|i: int| 0 <= i < after.len() implies is_white_space(#[trigger] after[i]) by {
            if i < inner.2.len() {
                assert(after[i] == inner.2[i]);
            }
        }
        assert(s =~= s.drop_last().push(s.last()));
        assert((inner.0 + inner.1 + inner.2).push(s.last()) =~= inner.0 + inner.1 + after);
        lemma_trimmed_margins(inner.0, inner.1, after);
        (inner.0, inner.1, after)
    } else {
        assert(s =~= none + s + none);
        lemma_trimmed_margins(none, s, none);
        (none, s, none)
    }
}

/// A carriage return at the end of a line makes no difference once the line is trimmed.
pub proof fn lemma_trimmed_carriage_return(s: Seq<char>)
    ensures
        trimmed(without_carriage_return(s)) == trimmed(s),
{
    if s.len() > 0 && s.last() == '\r' {
        let parts = lemma_trimmed_parts(s.drop_last());
        let after = parts.2.push('\r');
        assert forall|i: int| 0 <= i < after.len() implies is_white_space(#[trigger] after[i]) by {
            if i < parts.2.len() {
                assert(after[i] == parts.2[i]);
            }
        }
        assert(s =~= s.drop_last().push('\r'));
        assert((parts.0 + parts.1 + parts.2).push('\r') =~= parts.0 + parts.1 + after);
        lemma_trimmed_margins(parts.0, parts.1, after);
    }
}

/// A text has one field more than separators.
pub proof fn lemma_count_fields(s: Seq<char>, separator: char)
    ensures
        fields(s, separator).len() == s.to_multiset().count(separator) + 1,
    decreases s.len(),
{
    broadcast use vstd::seq_lib::group_to_multiset_ensures;

    lemma_position(s, separator);
    let i = position(s, separator);
    if i < s.len() {
        let first = s.take(i);
        let rest = s.skip(i + 1);
        assert(s =~= first + (seq![separator] + rest));
        vstd::seq_lib::lemma_multiset_commutative(first, seq![separator] + rest);
        vstd::seq_lib::lemma_multiset_commutative(seq![separator], rest);
        assert(seq![separator] =~= Seq::<char>::empty().push(separator));
        assert(!first.contains(separator));
        lemma_count_fields(rest, separator);
        lemma_fields_cut(first, separator, rest);
        assert(s =~= first + seq![separator] + rest);
    } else {
        assert(!s.contains(separator));
    }
}

/// Zeros before a number do not change it.
pub proof fn lemma_leading_zeros(n: nat, digits: Seq<char>)
    ensures
        decimal_value(zeros(n) + digits) == decimal_value(digits),
    decreases n + digits.len(),
{
    let s = zeros(n) + digits;
    if digits.len() > 0 {
        assert(s.drop_last() =~= zeros(n) + digits.drop_last());
        lemma_leading_zeros(n, digits.drop_last());
    } else if n > 0 {
        assert(s.drop_last() =~= zeros((n - 1) as nat) + digits);
        lemma_leading_zeros((n - 1) as nat, digits);
        assert(s.last() == '0');
    } else {
        assert(s =~= digits);
    }
}

/// The characters that trimming takes away: tab to carriage return, the blank, and the wider and
/// narrower blanks and line ends of Unicode. No other character is ever taken.
pub proof fn law_trim_takes_blanks(s: &str, r: &str)
    requires
        call_ensures(trim, (s,), r),
        s@.len() == 1,
    ensures
        ({
            let n = s@[0] as u32;
            r@.len() == 0 <==> {
                ||| 9 <= n <= 13
                ||| n == 32
                ||| n == 0x85
                ||| n == 0xa0
                ||| n == 0x1680
                ||| 0x2000 <= n <= 0x200a
                ||| n == 0x2028 || n == 0x2029 || n == 0x202f || n == 0x205f || n == 0x3000
            }
        }),
        r@.len() > 0 ==> r@ == s@,
{
    let none = Seq::<char>::empty();
    if is_white_space(s@[0]) {
        assert(s@ =~= s@ + none + none);
        lemma_trimmed_margins(s@, none, none);
    } else {
        assert(s@ =~= none + s@ + none);
        lemma_trimmed_margins(none, s@, none);
    }
}

} // verus!
