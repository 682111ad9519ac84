//! Text helpers: decimal and hexadecimal rendering, searching and trimming,
//! all specified over sequences of characters.

use vstd::prelude::*;
use vstd::string::*;

verus! {

/// The character that stands for one decimal digit.
pub open spec fn digit(d: int) -> char {
    if d == 0 {
        '0'
    } else if d == 1 {
        '1'
    } else if d == 2 {
        '2'
    } else if d == 3 {
        '3'
    } else if d == 4 {
        '4'
    } else if d == 5 {
        '5'
    } else if d == 6 {
        '6'
    } else if d == 7 {
        '7'
    } else if d == 8 {
        '8'
    } else {
        '9'
    }
}

/// The character that stands for one hexadecimal digit, in upper case.
pub open spec fn hex_digit(d: int) -> char {
    if d < 10 {
        digit(d)
    } else if d == 10 {
        'A'
    } else if d == 11 {
        'B'
    } else if d == 12 {
        'C'
    } else if d == 13 {
        'D'
    } else if d == 14 {
        'E'
    } else {
        'F'
    }
}

/// A natural number in decimal, without leading zeros.
pub open spec fn decimal(n: nat) -> Seq<char>
    decreases n,
{
    if n < 10 {
        seq![digit(n as int)]
    } else {
        decimal(n / 10).push(digit((n % 10) as int))
    }
}

/// An integer in decimal, with a leading minus sign when it is negative.
pub open spec fn signed_decimal(i: int) -> Seq<char> {
    if i < 0 {
        seq!['-'] + decimal((-i) as nat)
    } else {
        decimal(i as nat)
    }
}

/// A natural number in upper-case hexadecimal, without leading zeros or prefix.
pub open spec fn upper_hex(n: nat) -> Seq<char>
    decreases n,
{
    if n < 16 {
        seq![hex_digit(n as int)]
    } else {
        upper_hex(n / 16).push(hex_digit((n % 16) as int))
    }
}

/// The position of the first occurrence of `c` in `s`.
pub open spec fn first_index_of(s: Seq<char>, c: char) -> Option<int> {
    if exists|i: int| 0 <= i < s.len() && s[i] == c {
        Some(choose|i: int| is_first_index_of(s, c, i))
    } else {
        None
    }
}

/// `i` is the position of the first occurrence of `c` in `s`.
pub open spec fn is_first_index_of(s: Seq<char>, c: char, i: int) -> bool {
    &&& 0 <= i < s.len()
    &&& s[i] == c
    &&& forall|j: int| 0 <= j < i ==> s[j] != c
}

/// Splits `s` at its first space into what stands before and what stands
/// after it. Without a space there is only one piece, and no split.
pub open spec fn split_at_space(s: Seq<char>) -> Option<(Seq<char>, Seq<char>)> {
    match first_index_of(s, ' ') {
        Some(i) => Some((s.take(i), s.skip(i + 1))),
        None => None,
    }
}

/// White space as Unicode defines it.
pub open spec fn is_whitespace(c: char) -> bool {
    let u = c as u32;
    ||| 0x09 <= u <= 0x0D
    ||| u == 0x20
    ||| u == 0x85
    ||| u == 0xA0
    ||| u == 0x1680
    ||| 0x2000 <= u <= 0x200A
    ||| u == 0x2028
    ||| u == 0x2029
    ||| u == 0x202F
    ||| u == 0x205F
    ||| u == 0x3000
}

/// `s` without the white space at its end.
pub open spec fn trim_end(s: Seq<char>) -> Seq<char>
    decreases s.len(),
{
    if s.len() > 0 && is_whitespace(s.last()) {
        trim_end(s.drop_last())
    } else {
        s
    }
}

/// `block` repeated `times` times.
pub open spec fn repeated(block: Seq<char>, times: nat) -> Seq<char>
    decreases times,
{
    if times == 0 {
        Seq::empty()
    } else {
        repeated(block, (times - 1) as nat) + block
    }
}

/// Any two first positions of `c` in `s` are the same position.
pub proof fn lemma_first_index_unique(s: Seq<char>, c: char, i: int, j: int)
    requires
        is_first_index_of(s, c, i),
        is_first_index_of(s, c, j),
    ensures
        i == j,
{
}

/// A position that is known to be the first one is what `first_index_of` names.
pub proof fn lemma_first_index_found(s: Seq<char>, c: char, i: int)
    requires
        is_first_index_of(s, c, i),
    ensures
        first_index_of(s, c) == Some(i),
{
    let k = choose|k: int| is_first_index_of(s, c, k);
    lemma_first_index_unique(s, c, i, k);
}

/// A text without a space has no split.
pub proof fn lemma_no_space_no_split(s: Seq<char>)
    requires
        !s.contains(' '),
    ensures
        split_at_space(s) is None,
{
}

/// Two texts joined by a space split into the two again, if the first holds
/// no space of its own.
pub proof fn lemma_split_joined(head: Seq<char>, tail: Seq<char>)
    requires
        !head.contains(' '),
    ensures
        split_at_space(head + " "@ + tail) == Some((head, tail)),
{
    reveal_strlit(" ");
    let whole = head + " "@ + tail;
    let at = head.len() as int;
    assert forall|j: int| 0 <= j < at implies whole[j] != ' ' by {
        assert(whole[j] == head[j]);
    }
    lemma_first_index_found(whole, ' ', at);
}

/// The digit that a character stands for, with zero for any other character.
pub open spec fn digit_value(c: char) -> nat {
    if c == '1' {
        1
    } else if c == '2' {
        2
    } else if c == '3' {
        3
    } else if c == '4' {
        4
    } else if c == '5' {
        5
    } else if c == '6' {
        6
    } else if c == '7' {
        7
    } else if c == '8' {
        8
    } else if c == '9' {
        9
    } else {
        0
    }
}

/// The number that a text of decimal digits stands for.
pub open spec fn decimal_value(s: Seq<char>) -> nat
    decreases s.len(),
{
    if s.len() == 0 {
        0
    } else {
        decimal_value(s.drop_last()) * 10 + digit_value(s.last())
    }
}

/// Reading a number back from its decimal text gives the number.
pub proof fn lemma_decimal_value(n: nat)
    ensures
        decimal_value(decimal(n)) == n,
    decreases n,
{
    if n < 10 {
        assert(decimal_value(decimal(n).drop_last()) == 0);
    } else {
        lemma_decimal_value(n / 10);
        assert(decimal(n).drop_last() =~= decimal(n / 10));
    }
}

/// Different numbers have different decimal texts.
pub proof fn lemma_decimal_injective(a: nat, b: nat)
    requires
        decimal(a) == decimal(b),
    ensures
        a == b,
{
    lemma_decimal_value(a);
    lemma_decimal_value(b);
}

/// A text between a prefix and a suffix is known once the whole is known.
pub proof fn lemma_framed_text(prefix: Seq<char>, a: Seq<char>, b: Seq<char>, suffix: Seq<char>)
    requires
        prefix + a + suffix == prefix + b + suffix,
    ensures
        a == b,
{
    let whole = prefix + a + suffix;
    assert(a.len() == b.len()) by {
        assert(whole.len() == (prefix + b + suffix).len());
    }
    assert(a =~= whole.subrange(prefix.len() as int, (prefix.len() + a.len()) as int));
    assert(b =~= whole.subrange(prefix.len() as int, (prefix.len() + a.len()) as int));
}

fn digit_text(d: u8) -> (r: &'static str)
    requires
        d < 16,
    ensures
        r@ == seq![hex_digit(d as int)],
{
    proof {
        reveal_strlit("0");
        reveal_strlit("1");
        reveal_strlit("2");
        reveal_strlit("3");
        reveal_strlit("4");
        reveal_strlit("5");
        reveal_strlit("6");
        reveal_strlit("7");
        reveal_strlit("8");
        reveal_strlit("9");
        reveal_strlit("A");
        reveal_strlit("B");
        reveal_strlit("C");
        reveal_strlit("D");
        reveal_strlit("E");
        reveal_strlit("F");
    }
    let r = match d {
        0 => "0",
        1 => "1",
        2 => "2",
        3 => "3",
        4 => "4",
        5 => "5",
        6 => "6",
        7 => "7",
        8 => "8",
        9 => "9",
        10 => "A",
        11 => "B",
        12 => "C",
        13 => "D",
        14 => "E",
        _ => "F",
    };
    r
}

/// Appends `n` in decimal to `out`.
pub fn push_decimal(out: &mut String, n: u64)
    ensures
        final(out)@ == old(out)@ + decimal(n as nat),
    decreases n,
{
    if n >= 10 {
        push_decimal(out, n / 10);
    }
    out.append(digit_text((n % 10) as u8));
}

/// Appends `i` in decimal to `out`, with a minus sign when it is negative.
pub fn push_signed(out: &mut String, i: i32)
    ensures
        final(out)@ == old(out)@ + signed_decimal(i as int),
{
    if i < 0 {
        out.append("-");
        proof {
            reveal_strlit("-");
        }
        let magnitude: u64 = (-(i as i64)) as u64;
        push_decimal(out, magnitude);
    } else {
        push_decimal(out, i as u64);
    }
}

/// Appends `n` in upper-case hexadecimal to `out`.
pub fn push_upper_hex(out: &mut String, n: u64)
    ensures
        final(out)@ == old(out)@ + upper_hex(n as nat),
    decreases n,
{
    if n >= 16 {
        push_upper_hex(out, n / 16);
    }
    out.append(digit_text((n % 16) as u8));
}

/// Whether two pieces of text hold the same characters.
pub fn same_text(a: &str, b: &str) -> (r: bool)
    ensures
        r == (a@ == b@),
{
    let left = a.to_owned();
    let right = b.to_owned();
    left == right
}

/// The position of the first `c` in `s`, counted in characters.
pub fn find_char(s: &str, c: char) -> (r: Option<usize>)
    ensures
        match r {
            Some(i) => is_first_index_of(s@, c, i as int) && first_index_of(s@, c) == Some(
                i as int,
            ),
            None => first_index_of(s@, c) is None,
        },
{
    let total = s.unicode_len();
    let mut pos: usize = 0;
    let mut found: Option<usize> = None;
    for x in it: s.chars()
        invariant
            it.seq() == s@,
            total == s@.len(),
            pos == it.index(),
            match found {
                Some(i) => is_first_index_of(s@, c, i as int),
                None => forall|j: int| 0 <= j < it.index() ==> s@[j] != c,
            },
    {
        if found.is_none() && x == c {
            found = Some(pos);
        }
        pos = pos + 1;
    }
    proof {
        if let Some(i) = found {
            lemma_first_index_found(s@, c, i as int);
        }
    }
    found
}

/// Takes `s` apart at its first space into what stands before and what
/// stands after it.
pub fn split_message(s: &str) -> (r: Option<(&str, &str)>)
    ensures
        match r {
            Some((head, tail)) => split_at_space(s@) == Some((head@, tail@)),
            None => split_at_space(s@) is None,
        },
{
    match find_char(s, ' ') {
        Some(at) => {
            let total = s.unicode_len();
            let head = s.substring_char(0, at);
            let tail = s.substring_char(at + 1, total);
            Some((head, tail))
        },
        None => None,
    }
}

/// Whether `c` is white space.
pub fn char_is_whitespace(c: char) -> (r: bool)
    ensures
        r == is_whitespace(c),
{
    let u = c as u32;
    (0x09 <= u && u <= 0x0D) || u == 0x20 || u == 0x85 || u == 0xA0 || u == 0x1680 || (0x2000 <= u
        && u <= 0x200A) || u == 0x2028 || u == 0x2029 || u == 0x202F || u == 0x205F || u == 0x3000
}

/// The number of characters of `s` that are left once the white space at its
/// end is taken away.
pub fn trimmed_len(s: &str) -> (r: usize)
    ensures
        r <= s@.len(),
        s@.take(r as int) == trim_end(s@),
{
    let mut end = s.unicode_len();
    assert(s@.take(end as int) =~= s@);
    while end > 0 && char_is_whitespace(s.get_char(end - 1))
        invariant
            end <= s@.len(),
            trim_end(s@.take(end as int)) == trim_end(s@),
        decreases end,
    {
        assert(s@.take(end as int).drop_last() =~= s@.take(end - 1));
        end = end - 1;
    }
    end
}

} // verus!
