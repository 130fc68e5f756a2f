//! Text built from plain values.

use vstd::prelude::*;
use vstd::string::StringExecFns;

verus! {

/// `String::push` of the standard library: the character is appended.
pub assume_specification[ String::push ](s: &mut String, c: char)
    ensures
        final(s)@ == old(s)@.push(c),
;

/// The character of a decimal digit.
pub open spec fn digit_char(d: nat) -> char {
    (48 + d) as char
}

/// The decimal digits of a number, most significant first, without leading zeros.
pub open spec fn decimal(n: nat) -> Seq<char>
    decreases n,
{
    if n < 10 {
        seq![digit_char(n)]
    } else {
        decimal(n / 10).push(digit_char(n % 10))
    }
}

/// The decimal digits of an integer, after a minus sign where it is negative.
pub open spec fn signed_decimal(n: int) -> Seq<char> {
    if n < 0 {
        seq!['-'] + decimal((-n) as nat)
    } else {
        decimal(n as nat)
    }
}

/// The binary digits of a number, most significant first, with leading zeros up to `width` digits.
pub open spec fn padded_binary(n: nat, width: nat) -> Seq<char>
    decreases n + width,
{
    if n < 2 && width <= 1 {
        seq![digit_char(n)]
    } else {
        padded_binary(
            n / 2,
            if width > 0 {
                (width - 1) as nat
            } else {
                0
            },
        ).push(digit_char(n % 2))
    }
}

/// `true` or `false`.
pub open spec fn bool_text(b: bool) -> Seq<char> {
    if b {
        seq!['t', 'r', 'u', 'e']
    } else {
        seq!['f', 'a', 'l', 's', 'e']
    }
}

/// The parts in order, with `sep` between neighbours.
pub open spec fn join(parts: Seq<Seq<char>>, sep: Seq<char>) -> Seq<char>
    decreases parts.len(),
{
    if parts.len() == 0 {
        seq![]
    } else if parts.len() == 1 {
        parts[0]
    } else {
        join(parts.drop_last(), sep) + sep + parts.last()
    }
}

/// The contents of the strings of a list.
pub open spec fn texts(parts: Seq<String>) -> Seq<Seq<char>> {
    parts.map_values(|s: String| s@)
}

/// Appends the decimal digits of `n`.
pub fn push_decimal(s: &mut String, n: u64)
    ensures
        final(s)@ == old(s)@ + decimal(n as nat),
    decreases n,
{
    if n >= 10 {
        push_decimal(s, n / 10);
    }
    let d: u8 = (n % 10) as u8;
    s.push((48u8 + d) as char);
    assert(s@ =~= old(s)@ + decimal(n as nat));
}

/// The decimal digits of `n`.
pub fn decimal_string(n: u64) -> (r: String)
    ensures
        r@ == decimal(n as nat),
{
    let mut s = String::new();
    push_decimal(&mut s, n);
    assert(s@ =~= decimal(n as nat));
    s
}

/// The decimal digits of `n`, after a minus sign where it is negative.
pub fn signed_decimal_string(n: i32) -> (r: String)
    ensures
        r@ == signed_decimal(n as int),
{
    let mut s = String::new();
    if n < 0 {
        s.push('-');
        push_decimal(&mut s, (-(n as i64)) as u64);
    } else {
        push_decimal(&mut s, n as u64);
    }
    assert(s@ =~= signed_decimal(n as int));
    s
}

/// Appends at least `width` binary digits of `n`.
pub fn push_padded_binary(s: &mut String, n: u32, width: u32)
    ensures
        final(s)@ == old(s)@ + padded_binary(n as nat, width as nat),
    decreases n + width,
{
    if n >= 2 || width > 1 {
        push_padded_binary(s, n / 2, width.saturating_sub(1));
    }
    let d: u8 = (n % 2) as u8;
    s.push((48u8 + d) as char);
    assert(s@ =~= old(s)@ + padded_binary(n as nat, width as nat));
}

/// Appends `true` or `false`.
pub fn push_bool(s: &mut String, b: bool)
    ensures
        final(s)@ == old(s)@ + bool_text(b),
{
    if b {
        proof {
            reveal_strlit("true");
        }
        s.append("true");
    } else {
        proof {
            reveal_strlit("false");
        }
        s.append("false");
    }
    assert(s@ =~= old(s)@ + bool_text(b));
}

/// `true` or `false`.
pub fn bool_string(b: bool) -> (r: String)
    ensures
        r@ == bool_text(b),
{
    let mut s = String::new();
    push_bool(&mut s, b);
    assert(s@ =~= bool_text(b));
    s
}

/// Concatenates the parts with `sep` between neighbours.
pub fn join_strings(parts: &Vec<String>, sep: &str) -> (r: String)
    ensures
        r@ == join(texts(parts@), sep@),
{
    let mut s = String::new();
    let mut i: usize = 0;
    while i < parts.len()
        invariant
            i <= parts.len(),
            s@ == join(texts(parts@).take(i as int), sep@),
        decreases parts.len() - i,
    {
        if i > 0 {
            s.append(sep);
        }
        s.append(parts[i].as_str());
        assert(texts(parts@).take(i + 1).drop_last() =~= texts(parts@).take(i as int));
        assert(s@ =~= join(texts(parts@).take(i + 1), sep@));
        i += 1;
    }
    assert(texts(parts@).take(i as int) =~= texts(parts@));
    s
}

/// The contents of the literals of a list.
pub open spec fn literal_texts(names: Seq<&'static str>) -> Seq<Seq<char>> {
    names.map_values(|s: &'static str| s@)
}

/// Strings with the contents of the literals.
pub fn owned_strings(names: &[&'static str]) -> (r: Vec<String>)
    ensures
        texts(r@) == literal_texts(names@),
{
    let mut r: Vec<String> = Vec::new();
    let mut i: usize = 0;
    while i < names.len()
        invariant
            i <= names@.len(),
            texts(r@) == literal_texts(names@.take(i as int)),
        decreases names@.len() - i,
    {
        let ghost before = texts(r@);
        r.push(names[i].to_owned());
        proof {
            assert(texts(r@) =~= before.push(names@[i as int]@));
            assert(literal_texts(names@.take(i + 1)) =~= before.push(names@[i as int]@));
        }
        i += 1;
    }
    assert(names@.take(i as int) =~= names@);
    r
}

/// The characters with the Unicode property `White_Space`.
pub open spec fn white_space(c: char) -> bool {
    let n = c as int;
    ||| 0x9 <= n <= 0xd
    ||| n == 0x20
    ||| n == 0x85
    ||| n == 0xa0
    ||| n == 0x1680
    ||| 0x2000 <= n <= 0x200a
    ||| n == 0x2028
    ||| n == 0x2029
    ||| n == 0x202f
    ||| n == 0x205f
    ||| n == 0x3000
}

/// A text without the white space at its start.
pub open spec fn trim_start(s: Seq<char>) -> Seq<char>
    decreases s.len(),
{
    if s.len() > 0 && white_space(s[0]) {
        trim_start(s.skip(1))
    } else {
        s
    }
}

/// A text without the white space at its end.
pub open spec fn trim_end(s: Seq<char>) -> Seq<char>
    decreases s.len(),
{
    if s.len() > 0 && white_space(s.last()) {
        trim_end(s.drop_last())
    } else {
        s
    }
}

/// A text without the white space at its start and its end.
pub open spec fn trimmed(s: Seq<char>) -> Seq<char> {
    trim_end(trim_start(s))
}

/// Whether a character has the Unicode property `White_Space`.
fn is_white_space(c: char) -> (r: bool)
    ensures
        r == white_space(c),
{
    let n: u32 = c as u32;
    (0x9 <= n && n <= 0xd) || n == 0x20 || n == 0x85 || n == 0xa0 || n == 0x1680 || (0x2000 <= n
        && n <= 0x200a) || n == 0x2028 || n == 0x2029 || n == 0x202f || n == 0x205f || n == 0x3000
}

/// The text without the white space at its start and its end.
pub fn trim_string(s: &str) -> (r: String)
    ensures
        r@ == trimmed(s@),
{
    let mut chars: Vec<char> = Vec::new();
    for c in rest: s.chars()
        invariant
            rest.seq() == s@,
            chars@ == s@.take(rest.index()),
    {
        chars.push(c);
        assert(chars@ =~= s@.take(rest.index() + 1));
    }
    assert(s@.take(s@.len() as int) =~= s@);
    let mut start: usize = 0;
    assert(s@.skip(0) =~= s@);
    while start < chars.len() && is_white_space(chars[start])
        invariant
            chars@ == s@,
            start <= chars.len(),
            trim_start(s@.skip(start as int)) == trim_start(s@),
        decreases chars.len() - start,
    {
        assert(s@.skip(start as int).skip(1) =~= s@.skip(start + 1));
        start += 1;
    }
    let ghost left = s@.skip(start as int);
    assert(trim_start(s@) == left);
    let mut end: usize = chars.len();
    assert(s@.subrange(start as int, end as int) =~= left);
    while end > start && is_white_space(chars[end - 1])
        invariant
            chars@ == s@,
            start <= end <= chars.len(),
            trim_end(s@.subrange(start as int, end as int)) == trim_end(left),
        decreases end,
    {
        assert(s@.subrange(start as int, end as int).drop_last() =~= s@.subrange(
            start as int,
            end - 1,
        ));
        end -= 1;
    }
    let mut text = String::new();
    let mut i: usize = start;
    while i < end
        invariant
            chars@ == s@,
            start <= i <= end <= chars.len(),
            text@ == s@.subrange(start as int, i as int),
        decreases end - i,
    {
        text.push(chars[i]);
        i += 1;
        assert(text@ =~= s@.subrange(start as int, i as int));
    }
    text
}

/// A trimmed text neither starts nor ends with white space, and trimming it again changes nothing.
pub proof fn law_trimmed(s: Seq<char>)
    ensures
        trimmed(s).len() > 0 ==> !white_space(trimmed(s)[0]) && !white_space(trimmed(s).last()),
        trimmed(trimmed(s)) == trimmed(s),
{
    lemma_trim_start(s);
    lemma_trim_end(trim_start(s));
}

proof fn lemma_trim_start(s: Seq<char>)
    ensures
        trim_start(s).len() > 0 ==> !white_space(trim_start(s)[0]),
    decreases s.len(),
{
    if s.len() > 0 && white_space(s[0]) {
        lemma_trim_start(s.skip(1));
    }
}

proof fn lemma_trim_end(s: Seq<char>)
    ensures
        trim_end(s).len() > 0 ==> !white_space(trim_end(s).last()) && trim_end(s)[0] == s[0],
        trim_end(s).len() <= s.len(),
    decreases s.len(),
{
    if s.len() > 0 && white_space(s.last()) {
        lemma_trim_end(s.drop_last());
    }
}

/// Two numbers with the same decimal digits are equal.
pub proof fn lemma_decimal_injective(a: nat, b: nat)
    requires
        decimal(a) == decimal(b),
    ensures
        a == b,
    decreases a + b,
{
    let da = decimal(a);
    let db = decimal(b);
    assert(da.last() == digit_char(a % 10));
    assert(db.last() == digit_char(b % 10));
    lemma_decimal_len(a);
    lemma_decimal_len(b);
    if a >= 10 && b >= 10 {
        assert(da.drop_last() =~= decimal(a / 10));
        assert(db.drop_last() =~= decimal(b / 10));
        lemma_decimal_injective(a / 10, b / 10);
    } else if a >= 10 {
        lemma_decimal_len(a / 10);
    } else if b >= 10 {
        lemma_decimal_len(b / 10);
    }
}

/// A number has at least one decimal digit, and only a number below ten has just one.
proof fn lemma_decimal_len(n: nat)
    ensures
        decimal(n).len() >= 1,
        decimal(n).len() == 1 <==> n < 10,
    decreases n,
{
    if n >= 10 {
        lemma_decimal_len(n / 10);
    }
}

/// The number that decimal digits denote.
pub open spec fn decimal_value(s: Seq<char>) -> int
    decreases s.len(),
{
    if s.len() == 0 {
        0
    } else {
        10 * decimal_value(s.drop_last()) + (s.last() as int - '0' as int)
    }
}

/// The decimal digits of a number denote it. They are all digits, at least one, and the first is no
/// zero where there is another.
pub proof fn law_decimal_denotes(n: nat)
    ensures
        decimal_value(decimal(n)) == n,
        decimal(n).len() > 0,
        forall|i: int| 0 <= i < decimal(n).len() ==> '0' <= #[trigger] decimal(n)[i] <= '9',
        decimal(n).len() > 1 ==> decimal(n)[0] != '0',
    decreases n,
{
    let s = decimal(n);
    assert(s.last() as int == 48 + n % 10);
    if n >= 10 {
        law_decimal_denotes(n / 10);
        let head = decimal(n / 10);
        assert(s.drop_last() =~= head);
        assert forall|i: int| 0 <= i < s.len() implies '0' <= #[trigger] s[i] <= '9' by {
            if i < head.len() {
                assert(s[i] == head[i]);
            }
        }
        assert(s[0] == head[0]);
        if n / 10 < 10 {
            assert(head[0] as int == 48 + n / 10);
        } else {
            lemma_decimal_len(n / 10);
        }
    } else {
        assert(s.drop_last() =~= Seq::empty());
        assert(decimal_value(s.drop_last()) == 0);
    }
}

/// An integer is written as its magnitude, behind a minus sign just where it is negative.
pub proof fn law_signed_decimal_denotes(n: int)
    ensures
        n >= 0 ==> decimal_value(signed_decimal(n)) == n && signed_decimal(n)[0] != '-',
        n < 0 ==> signed_decimal(n)[0] == '-' && decimal_value(signed_decimal(n).skip(1)) == -n,
        n < 0 ==> signed_decimal(n).skip(1) == signed_decimal(-n),
{
    if n >= 0 {
        law_decimal_denotes(n as nat);
        assert('0' <= decimal(n as nat)[0]);
    } else {
        law_decimal_denotes((-n) as nat);
        assert(signed_decimal(n).skip(1) =~= decimal((-n) as nat));
    }
}

/// The number that binary digits denote.
pub open spec fn binary_value(s: Seq<char>) -> int
    decreases s.len(),
{
    if s.len() == 0 {
        0
    } else {
        2 * binary_value(s.drop_last()) + (s.last() as int - '0' as int)
    }
}

/// The binary digits of a number denote it, there are at least `width` of them, and more only as far
/// as the number needs them.
pub proof fn law_padded_binary_denotes(n: nat, width: nat)
    ensures
        binary_value(padded_binary(n, width)) == n,
        padded_binary(n, width).len() >= 1,
        padded_binary(n, width).len() >= width,
        padded_binary(n, width).len() > width && padded_binary(n, width).len() > 1
            ==> padded_binary(n, width)[0] == '1',
        forall|i: int|
            0 <= i < padded_binary(n, width).len() ==> (#[trigger] padded_binary(n, width)[i] == '0'
                || padded_binary(n, width)[i] == '1'),
    decreases n + width,
{
    let s = padded_binary(n, width);
    assert(s.last() as int == 48 + n % 2);
    if n < 2 && width <= 1 {
        assert(s.drop_last() =~= Seq::empty());
        assert(binary_value(s.drop_last()) == 0);
    } else {
        let less = if width > 0 {
            (width - 1) as nat
        } else {
            0
        };
        law_padded_binary_denotes(n / 2, less);
        let head = padded_binary(n / 2, less);
        assert(s.drop_last() =~= head);
        assert(s[0] == head[0]);
        assert forall|i: int| 0 <= i < s.len() implies (#[trigger] s[i] == '0' || s[i]
            == '1') by {
            if i < head.len() {
                assert(s[i] == head[i]);
            }
        }
        if s.len() > width && s.len() > 1 && head.len() <= 1 {
            assert(width <= 1);
            assert(head.drop_last() =~= Seq::empty());
            assert(binary_value(head.drop_last()) == 0);
            assert(binary_value(head) == head[0] as int - 48);
            assert(n / 2 >= 1);
        }
    }
}

/// The two truth values are written as words.
pub proof fn law_truth_words()
    ensures
        bool_text(true) == "true"@,
        bool_text(false) == "false"@,
{
    reveal_strlit("true");
    reveal_strlit("false");
    assert(bool_text(true) =~= "true"@);
    assert(bool_text(false) =~= "false"@);
}

/// Joining two lists is joining each and putting the separator between the results. One part joined
/// is that part, and no parts are the empty text.
pub proof fn law_joining_lists(left: Seq<Seq<char>>, right: Seq<Seq<char>>, sep: Seq<char>)
    ensures
        left.len() > 0 && right.len() > 0 ==> join(left + right, sep) == join(left, sep) + sep
            + join(right, sep),
        left.len() == 1 ==> join(left, sep) == left[0],
        left.len() == 0 ==> join(left, sep).len() == 0,
    decreases right.len(),
{
    if left.len() > 0 && right.len() > 0 {
        let all = left + right;
        assert(all.drop_last() =~= left + right.drop_last());
        if right.len() == 1 {
            assert(left + right.drop_last() =~= left);
            assert(join(all, sep) =~= join(left, sep) + sep + join(right, sep));
        } else {
            law_joining_lists(left, right.drop_last(), sep);
            assert(join(all, sep) =~= join(left, sep) + sep + join(right, sep));
        }
    }
}

/// The contents of a list of strings are those of its strings, in their order.
pub proof fn law_texts_are_contents(parts: Seq<String>, names: Seq<&'static str>)
    ensures
        texts(parts).len() == parts.len(),
        forall|i: int| 0 <= i < parts.len() ==> #[trigger] texts(parts)[i] == parts[i]@,
        literal_texts(names).len() == names.len(),
        forall|i: int| 0 <= i < names.len() ==> #[trigger] literal_texts(names)[i] == names[i]@,
{
}

/// The white space characters, one by one.
pub proof fn law_white_space(c: char)
    ensures
        white_space(c) <==> seq![
            0x9int, 0xa, 0xb, 0xc, 0xd, 0x20, 0x85, 0xa0, 0x1680, 0x2000, 0x2001, 0x2002, 0x2003,
            0x2004, 0x2005, 0x2006, 0x2007, 0x2008, 0x2009, 0x200a, 0x2028, 0x2029, 0x202f, 0x205f,
            0x3000,
        ].contains(c as int),
{
    let all = seq![
        0x9int, 0xa, 0xb, 0xc, 0xd, 0x20, 0x85, 0xa0, 0x1680, 0x2000, 0x2001, 0x2002, 0x2003,
        0x2004, 0x2005, 0x2006, 0x2007, 0x2008, 0x2009, 0x200a, 0x2028, 0x2029, 0x202f, 0x205f,
        0x3000,
    ];
    let n = c as int;
    if 0x9 <= n <= 0xd {
        assert(all[n - 9] == n);
    } else if 0x2000 <= n <= 0x200a {
        assert(all[n - 0x2000 + 9] == n);
    } else {
        assert(all[5] == 0x20 && all[6] == 0x85 && all[7] == 0xa0 && all[8] == 0x1680 && all[20]
            == 0x2028 && all[21] == 0x2029 && all[22] == 0x202f && all[23] == 0x205f && all[24]
            == 0x3000);
    }
}

/// What is before and behind a trimmed text is white space.
proof fn lemma_trim_start_takes_white_space(s: Seq<char>) -> (i: int)
    ensures
        0 <= i <= s.len(),
        trim_start(s) == s.skip(i),
        forall|j: int| 0 <= j < i ==> white_space(#[trigger] s[j]),
    decreases s.len(),
{
    if s.len() > 0 && white_space(s[0]) {
        let rest = s.skip(1);
        let i = lemma_trim_start_takes_white_space(rest);
        assert(s.skip(i + 1) =~= rest.skip(i));
        assert forall|j: int| 0 <= j < i + 1 implies white_space(#[trigger] s[j]) by {
            if j > 0 {
                assert(rest[j - 1] == s[j]);
            }
        }
        i + 1
    } else {
        assert(s.skip(0) =~= s);
        0
    }
}

proof fn lemma_trim_end_takes_white_space(s: Seq<char>) -> (i: int)
    ensures
        0 <= i <= s.len(),
        trim_end(s) == s.take(i),
        forall|j: int| i <= j < s.len() ==> white_space(#[trigger] s[j]),
    decreases s.len(),
{
    if s.len() > 0 && white_space(s.last()) {
        let rest = s.drop_last();
        let i = lemma_trim_end_takes_white_space(rest);
        assert(s.take(i) =~= rest.take(i));
        assert forall|j: int| i <= j < s.len() implies white_space(#[trigger] s[j]) by {
            if j < rest.len() {
                assert(rest[j] == s[j]);
            }
        }
        i
    } else {
        assert(s.take(s.len() as int) =~= s);
        s.len() as int
    }
}

/// A trimmed text is a stretch of the text, with nothing but white space before and behind it and
/// none at either of its ends.
pub proof fn law_trimming_takes_white_space_only(s: Seq<char>)
    ensures
        exists|i: int, k: int|
            0 <= i <= k <= s.len() && trimmed(s) == #[trigger] s.subrange(i, k) && (forall|j: int|
                (0 <= j < i || k <= j < s.len()) ==> white_space(#[trigger] s[j])) && (i < k
                ==> !white_space(s[i]) && !white_space(s[k - 1])),
{
    let i = lemma_trim_start_takes_white_space(s);
    let rest = s.skip(i);
    let n = lemma_trim_end_takes_white_space(rest);
    law_trimmed(s);
    assert(trimmed(s) =~= s.subrange(i, i + n));
    assert forall|j: int| (0 <= j < i || i + n <= j < s.len()) implies white_space(
        #[trigger] s[j],
    ) by {
        if j >= i {
            assert(rest[j - i] == s[j]);
        }
    }
    assert(i < i + n ==> trimmed(s)[0] == s[i] && trimmed(s).last() == s[i + n - 1]);
}

} // verus!
