//! Text building blocks with exact specifications: decimal and lower-case
//! hexadecimal rendering, left-aligned padding, repetition and joining.

use vstd::prelude::*;

verus! {

/// The sixteen digit characters, lower case.
pub open spec fn digit_chars() -> Seq<char> {
    seq!['0', '1', '2', '3', '4', '5', '6', '7', '8', '9', 'a', 'b', 'c', 'd', 'e', 'f']
}

/// The character of the digit `d` (`0 <= d < 16`).
pub open spec fn digit_char(d: int) -> char {
    digit_chars()[d]
}

/// The decimal rendering of `n`, without leading zeros.
pub open spec fn decimal(n: nat) -> Seq<char>
    decreases n,
{
    if n < 10 {
        seq![digit_char(n as int)]
    } else {
        decimal(n / 10).push(digit_char((n % 10) as int))
    }
}

/// The number a text of decimal digits reads as.
pub open spec fn digits_value(s: Seq<char>) -> int
    decreases s.len(),
{
    if s.len() == 0 {
        0
    } else {
        digits_value(s.drop_last()) * 10 + (s.last() as int - '0' as int)
    }
}

proof fn lemma_digit_value(d: int)
    requires
        0 <= d < 10,
    ensures
        digit_char(d) as int - '0' as int == d,
        '0' <= digit_char(d) <= '9',
{
    if d == 0 { assert(digit_char(d) == '0'); }
    else if d == 1 { assert(digit_char(d) == '1'); }
    else if d == 2 { assert(digit_char(d) == '2'); }
    else if d == 3 { assert(digit_char(d) == '3'); }
    else if d == 4 { assert(digit_char(d) == '4'); }
    else if d == 5 { assert(digit_char(d) == '5'); }
    else if d == 6 { assert(digit_char(d) == '6'); }
    else if d == 7 { assert(digit_char(d) == '7'); }
    else if d == 8 { assert(digit_char(d) == '8'); }
    else { assert(digit_char(d) == '9'); }
}

/// The decimal text of `n` is made of digits only, starts with a nonzero digit
/// unless `n` is zero, and reads back as `n`.
pub proof fn lemma_decimal_reads_back(n: nat)
    ensures
        digits_value(decimal(n)) == n,
        decimal(n).len() > 0,
        forall|i: int| 0 <= i < decimal(n).len() ==> '0' <= #[trigger] decimal(n)[i] <= '9',
        n > 0 ==> decimal(n)[0] != '0',
    decreases n,
{
    if n < 10 {
        lemma_digit_value(n as int);
        let s = decimal(n);
        assert(s.drop_last() =~= Seq::<char>::empty());
        assert(digits_value(s.drop_last()) == 0);
        assert(digits_value(s) == digits_value(s.drop_last()) * 10 + (s.last() as int - '0' as int));
    } else {
        lemma_decimal_reads_back(n / 10);
        lemma_digit_value((n % 10) as int);
        let s = decimal(n);
        assert(s.drop_last() =~= decimal(n / 10));
        assert(s.last() == digit_char((n % 10) as int));
        assert(digits_value(s) == digits_value(s.drop_last()) * 10 + (s.last() as int - '0' as int));
        assert(digits_value(s) == (n / 10) * 10 + n % 10);
        assert((n / 10) * 10 + n % 10 == n);
    }
}

/// Appends the character of digit `d` to `s`.
fn push_digit(s: &mut String, d: usize)
    requires
        d < 16,
    ensures
        final(s)@ == old(s)@.push(digit_char(d as int)),
{
    let digits: &str = "0123456789abcdef";
    proof {
        reveal_strlit("0123456789abcdef");
        assert(digits@ =~= digit_chars());
    }
    let piece = digits.substring_char(d, d + 1);
    s.append(piece);
    proof {
        assert(piece@ =~= seq![digit_char(d as int)]);
    }
}

/// Appends the decimal rendering of `n` to `s`.
pub fn push_decimal(s: &mut String, n: u64)
    ensures
        final(s)@ == old(s)@ + decimal(n as nat),
    decreases n,
{
    if n >= 10 {
        push_decimal(s, n / 10);
    }
    push_digit(s, (n % 10) as usize);
    proof {
        assert(s@ =~= old(s)@ + decimal(n as nat));
    }
}

/// The lower-case hexadecimal rendering of `bytes`, two digits per byte,
/// most significant digit first.
pub open spec fn hex_lower(bytes: Seq<u8>) -> Seq<char>
    decreases bytes.len(),
{
    if bytes.len() == 0 {
        Seq::empty()
    } else {
        hex_lower(bytes.drop_last()) + seq![
            digit_char((bytes.last() / 16) as int),
            digit_char((bytes.last() % 16) as int),
        ]
    }
}

/// Renders `bytes` in lower-case hexadecimal.
pub fn hex_string(bytes: &[u8]) -> (s: String)
    ensures
        s@ == hex_lower(bytes@),
{
    let mut s = String::new();
    let n = bytes.len();
    for i in 0..n
        invariant
            n == bytes@.len(),
            s@ == hex_lower(bytes@.take(i as int)),
    {
        let b = bytes[i];
        push_digit(&mut s, (b / 16) as usize);
        push_digit(&mut s, (b % 16) as usize);
        proof {
            assert(bytes@.take(i + 1).drop_last() =~= bytes@.take(i as int));
        }
    }
    proof {
        assert(bytes@.take(n as int) =~= bytes@);
    }
    s
}

/// `n` copies of the character `c`.
pub open spec fn repeated(c: char, n: nat) -> Seq<char> {
    Seq::new(n, |i: int| c)
}

/// `s` followed by spaces up to `width` characters; `s` itself when it is
/// already that wide (left alignment in a column).
pub open spec fn padded(s: Seq<char>, width: nat) -> Seq<char> {
    if s.len() >= width {
        s
    } else {
        s + repeated(' ', (width - s.len()) as nat)
    }
}

/// Appends `n` copies of the one-character text `unit` to `s`.
fn push_repeated(s: &mut String, unit: &str, n: usize)
    requires
        unit@.len() == 1,
    ensures
        final(s)@ == old(s)@ + repeated(unit@[0], n as nat),
{
    let ghost start = s@;
    for i in 0..n
        invariant
            unit@.len() == 1,
            s@ == start + repeated(unit@[0], i as nat),
    {
        s.append(unit);
        proof {
            assert(s@ =~= start + repeated(unit@[0], (i + 1) as nat));
        }
    }
}

/// Appends `text` to `s`, left-aligned in a column of `width` characters.
pub fn push_padded(s: &mut String, text: &str, width: usize)
    ensures
        final(s)@ == old(s)@ + padded(text@, width as nat),
{
    s.append(text);
    let len = text.unicode_len();
    if len < width {
        let space: &str = " ";
        proof {
            reveal_strlit(" ");
        }
        push_repeated(s, space, width - len);
    }
    proof {
        assert(s@ =~= old(s)@ + padded(text@, width as nat));
    }
}

/// A line of `n` dashes.
pub fn dashes(n: usize) -> (s: String)
    ensures
        s@ == repeated('-', n as nat),
{
    let mut s = String::new();
    let dash: &str = "-";
    proof {
        reveal_strlit("-");
    }
    push_repeated(&mut s, dash, n);
    proof {
        assert(s@ =~= repeated('-', n as nat));
    }
    s
}

/// The texts of `parts` joined by `sep`.
pub open spec fn joined(parts: Seq<Seq<char>>, sep: Seq<char>) -> Seq<char>
    decreases parts.len(),
{
    if parts.len() == 0 {
        Seq::empty()
    } else if parts.len() == 1 {
        parts[0]
    } else {
        joined(parts.drop_last(), sep) + sep + parts.last()
    }
}

/// The views of a vector of strings.
pub open spec fn string_views(v: Seq<String>) -> Seq<Seq<char>> {
    v.map_values(|s: String| s@)
}

/// Joins `parts` with single spaces.
pub fn join_with_spaces(parts: &Vec<String>) -> (s: String)
    ensures
        s@ == joined(string_views(parts@), " "@),
{
    let mut s = String::new();
    let n = parts.len();
    let space: &str = " ";
    for i in 0..n
        invariant
            n == parts@.len(),
            space@ == " "@,
            s@ == joined(string_views(parts@.take(i as int)), " "@),
    {
        if i > 0 {
            s.append(space);
        }
        s.append(parts[i].as_str());
        proof {
            let pre = string_views(parts@.take(i as int));
            let post = string_views(parts@.take(i + 1));
            assert(post.drop_last() =~= pre);
            assert(post.last() == parts@[i as int]@);
            if i == 0 {
                assert(s@ =~= joined(post, " "@));
            }
        }
    }
    proof {
        assert(parts@.take(n as int) =~= parts@);
    }
    s
}

} // verus!
