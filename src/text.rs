use vstd::prelude::*;
use vstd::string::*;

verus! {

/// The decimal digit character for `d`, which is below ten.
pub open spec fn digit_char(d: nat) -> char {
    if d == 0 {
        '0'
    } else if d == 1 {
        '1'
    } else if d == 2 {
        '2'
    } else if d == 3 {
        '3'
    } else if d == 4 {
        '4'
    } else if d == 5 {
        '5'
    } else if d == 6 {
        '6'
    } else if d == 7 {
        '7'
    } else if d == 8 {
        '8'
    } else {
        '9'
    }
}

/// `n` written in decimal, without leading zeros.
pub open spec fn nat_text(n: nat) -> Seq<char>
    decreases n,
{
    if n < 10 {
        seq![digit_char(n)]
    } else {
        nat_text(n / 10) + seq![digit_char(n % 10)]
    }
}

/// `v` written in decimal, with a leading minus sign when negative.
pub open spec fn int_text(v: int) -> Seq<char> {
    if v < 0 {
        seq!['-'] + nat_text((-v) as nat)
    } else {
        nat_text(v as nat)
    }
}

/// A grid position written as `(x, y)`.
pub open spec fn position_text(p: (i32, i32)) -> Seq<char> {
    "("@ + int_text(p.0 as int) + ", "@ + int_text(p.1 as int) + ")"@
}

fn digit_str(d: u32) -> (r: &'static str)
    requires
        d < 10,
    ensures
        r@ == seq![digit_char(d as nat)],
{
    proof {
        reveal_strlit("0");
        reveal_strlit("1");
        reveal_strlit("2");
        reveal_strlit("3");
        reveal_strlit("4");
        reveal_strlit("5");
        reveal_strlit("6");
        reveal_strlit("7");
        reveal_strlit("8");
        reveal_strlit("9");
    }
    if d == 0 {
        "0"
    } else if d == 1 {
        "1"
    } else if d == 2 {
        "2"
    } else if d == 3 {
        "3"
    } else if d == 4 {
        "4"
    } else if d == 5 {
        "5"
    } else if d == 6 {
        "6"
    } else if d == 7 {
        "7"
    } else if d == 8 {
        "8"
    } else {
        "9"
    }
}

fn append_nat(s: &mut String, n: u32)
    ensures
        final(s)@ == old(s)@ + nat_text(n as nat),
    decreases n,
{
    if n >= 10 {
        append_nat(s, n / 10);
    }
    s.append(digit_str(n % 10));
    proof {
        if n >= 10 {
            assert(final(s)@ =~= old(s)@ + nat_text(n as nat));
        }
    }
}

/// Appends `v` in decimal to `s`.
pub fn append_int(s: &mut String, v: i32)
    ensures
        final(s)@ == old(s)@ + int_text(v as int),
{
    if v < 0 {
        s.append("-");
        let n: u32 = (-(v as i64)) as u32;
        append_nat(s, n);
        proof {
            reveal_strlit("-");
            assert(final(s)@ =~= old(s)@ + int_text(v as int));
        }
    } else {
        append_nat(s, v as u32);
    }
}

/// Appends `p` to `s` as `(x, y)`.
pub fn append_position(s: &mut String, p: (i32, i32))
    ensures
        final(s)@ == old(s)@ + position_text(p),
{
    s.append("(");
    append_int(s, p.0);
    s.append(", ");
    append_int(s, p.1);
    s.append(")");
    proof {
        assert(final(s)@ =~= old(s)@ + position_text(p));
    }
}

} // verus!

verus! {

/// The lowercase hexadecimal digit character for `d`, which is below sixteen.
pub open spec fn hex_digit_char(d: nat) -> char {
    if d < 10 {
        digit_char(d)
    } else if d == 10 {
        'a'
    } else if d == 11 {
        'b'
    } else if d == 12 {
        'c'
    } else if d == 13 {
        'd'
    } else if d == 14 {
        'e'
    } else {
        'f'
    }
}

/// `n`, below 256, in lowercase hexadecimal without leading zeros.
pub open spec fn small_hex_text(n: nat) -> Seq<char> {
    if n < 16 {
        seq![hex_digit_char(n)]
    } else {
        seq![hex_digit_char(n / 16), hex_digit_char(n % 16)]
    }
}

/// Whether `c` is an ASCII control character.
pub open spec fn is_ascii_control(c: char) -> bool {
    (c as u32) < 32 || (c as u32) == 127
}

/// `c` as it appears inside a quoted string literal: quotes, backslashes and
/// control characters are escaped, other characters stand for themselves.
pub open spec fn escaped_char(c: char) -> Seq<char> {
    if c == '"' {
        seq!['\\', '"']
    } else if c == '\\' {
        seq!['\\', '\\']
    } else if c == '\n' {
        seq!['\\', 'n']
    } else if c == '\r' {
        seq!['\\', 'r']
    } else if c == '\t' {
        seq!['\\', 't']
    } else if c == '\0' {
        seq!['\\', '0']
    } else if is_ascii_control(c) {
        seq!['\\', 'u', '{'] + small_hex_text(c as u32 as nat) + seq!['}']
    } else {
        seq![c]
    }
}

/// Every character of `s` escaped.
pub open spec fn escaped(s: Seq<char>) -> Seq<char>
    decreases s.len(),
{
    if s.len() == 0 {
        Seq::empty()
    } else {
        escaped(s.drop_last()) + escaped_char(s.last())
    }
}

/// `s` as a double-quoted, escaped string literal.
pub open spec fn quoted(s: Seq<char>) -> Seq<char> {
    seq!['"'] + escaped(s) + seq!['"']
}

fn hex_digit_str(d: u32) -> (r: &'static str)
    requires
        d < 16,
    ensures
        r@ == seq![hex_digit_char(d as nat)],
{
    if d < 10 {
        return digit_str(d);
    }
    proof {
        reveal_strlit("a");
        reveal_strlit("b");
        reveal_strlit("c");
        reveal_strlit("d");
        reveal_strlit("e");
        reveal_strlit("f");
    }
    if d == 10 {
        "a"
    } else if d == 11 {
        "b"
    } else if d == 12 {
        "c"
    } else if d == 13 {
        "d"
    } else if d == 14 {
        "e"
    } else {
        "f"
    }
}

fn append_escaped_char(s: &mut String, c: char, whole: &str)
    requires
        whole@ == seq![c],
    ensures
        final(s)@ == old(s)@ + escaped_char(c),
{
    proof {
        reveal_strlit("\\\"");
        reveal_strlit("\\\\");
        reveal_strlit("\\n");
        reveal_strlit("\\r");
        reveal_strlit("\\t");
        reveal_strlit("\\0");
        reveal_strlit("\\u{");
        reveal_strlit("}");
    }
    if c == '"' {
        s.append("\\\"");
    } else if c == '\\' {
        s.append("\\\\");
    } else if c == '\n' {
        s.append("\\n");
    } else if c == '\r' {
        s.append("\\r");
    } else if c == '\t' {
        s.append("\\t");
    } else if c == '\0' {
        s.append("\\0");
    } else if (c as u32) < 32 || (c as u32) == 127 {
        let n = c as u32;
        s.append("\\u{");
        if n >= 16 {
            s.append(hex_digit_str(n / 16));
        }
        s.append(hex_digit_str(n % 16));
        s.append("}");
        proof {
            assert(final(s)@ =~= old(s)@ + escaped_char(c));
        }
    } else {
        s.append(whole);
    }
}

/// Appends `text` to `s` as a double-quoted, escaped string literal.
pub fn append_quoted(s: &mut String, text: &str)
    ensures
        final(s)@ == old(s)@ + quoted(text@),
{
    proof {
        reveal_strlit("\"");
    }
    s.append("\"");
    let ghost start = s@;
    let n = text.unicode_len();
    let mut i: usize = 0;
    while i < n
        invariant
            n == text@.len(),
            i <= n,
            s@ == start + escaped(text@.subrange(0, i as int)),
        decreases n - i,
    {
        let c = text.get_char(i);
        let whole = text.substring_char(i, i + 1);
        proof {
            assert(whole@ =~= seq![c]);
            assert(text@.subrange(0, i + 1).drop_last() =~= text@.subrange(0, i as int));
        }
        append_escaped_char(s, c, whole);
        i = i + 1;
    }
    s.append("\"");
    proof {
        assert(text@.subrange(0, n as int) =~= text@);
        assert(s@ =~= old(s)@ + quoted(text@));
    }
}

} // verus!
