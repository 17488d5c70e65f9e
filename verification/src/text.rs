//! Text fragments that the printer assembles: runs of spaces and numbers in
//! decimal and hexadecimal notation.

use vstd::prelude::*;
use vstd::string::*;

verus! {

/// The character that stands for the digit `d` in bases up to sixteen,
/// letters in lower case.
pub open spec fn digit_char(d: nat) -> char {
    if d == 0 {
        '0'
    } else if d == 1 {
        '1'
    } else if d == 2 {
        '2'
    } else if d == 3 {
        '3'
    } else if d == 4 {
        '4'
    } else if d == 5 {
        '5'
    } else if d == 6 {
        '6'
    } else if d == 7 {
        '7'
    } else if d == 8 {
        '8'
    } else if d == 9 {
        '9'
    } else if d == 10 {
        'a'
    } else if d == 11 {
        'b'
    } else if d == 12 {
        'c'
    } else if d == 13 {
        'd'
    } else if d == 14 {
        'e'
    } else {
        'f'
    }
}

/// `n` in decimal notation, without leading zeros; zero is `0`.
pub open spec fn decimal(n: nat) -> Seq<char>
    decreases n,
{
    if n < 10 {
        seq![digit_char(n)]
    } else {
        decimal(n / 10).push(digit_char(n % 10))
    }
}

/// `n` in lower-case hexadecimal notation, without leading zeros; zero is
/// `0`.
pub open spec fn hexadecimal(n: nat) -> Seq<char>
    decreases n,
{
    if n < 16 {
        seq![digit_char(n)]
    } else {
        hexadecimal(n / 16).push(digit_char(n % 16))
    }
}

/// `addr` as a pointer is printed: `0x` and the address in hexadecimal
/// notation.
pub open spec fn pointer_text(addr: nat) -> Seq<char> {
    "0x"@ + hexadecimal(addr)
}

/// A run of `n` spaces.
pub open spec fn spaces(n: nat) -> Seq<char> {
    Seq::new(n, |i: int| ' ')
}

/// The indentation of `levels` nesting levels of `size` spaces each.
pub open spec fn indentation(levels: nat, size: nat) -> Seq<char> {
    spaces(levels * size)
}

/// The one-character string of a digit.
fn digit_str(d: usize) -> (s: &'static str)
    requires
        d < 16,
    ensures
        s@ == seq![digit_char(d as nat)],
{
    let s: &'static str = if d == 0 {
        proof { reveal_strlit("0"); }
        "0"
    } else if d == 1 {
        proof { reveal_strlit("1"); }
        "1"
    } else if d == 2 {
        proof { reveal_strlit("2"); }
        "2"
    } else if d == 3 {
        proof { reveal_strlit("3"); }
        "3"
    } else if d == 4 {
        proof { reveal_strlit("4"); }
        "4"
    } else if d == 5 {
        proof { reveal_strlit("5"); }
        "5"
    } else if d == 6 {
        proof { reveal_strlit("6"); }
        "6"
    } else if d == 7 {
        proof { reveal_strlit("7"); }
        "7"
    } else if d == 8 {
        proof { reveal_strlit("8"); }
        "8"
    } else if d == 9 {
        proof { reveal_strlit("9"); }
        "9"
    } else if d == 10 {
        proof { reveal_strlit("a"); }
        "a"
    } else if d == 11 {
        proof { reveal_strlit("b"); }
        "b"
    } else if d == 12 {
        proof { reveal_strlit("c"); }
        "c"
    } else if d == 13 {
        proof { reveal_strlit("d"); }
        "d"
    } else if d == 14 {
        proof { reveal_strlit("e"); }
        "e"
    } else {
        proof { reveal_strlit("f"); }
        "f"
    };
    assert(s@ =~= seq![digit_char(d as nat)]);
    s
}

/// Appends `n` in decimal notation.
pub fn write_decimal(out: &mut String, n: usize)
    ensures
        final(out)@ == old(out)@ + decimal(n as nat),
    decreases n,
{
    if n >= 10 {
        write_decimal(out, n / 10);
    }
    out.append(digit_str(n % 10));
    proof {
        if n >= 10 {
            assert(out@ =~= old(out)@ + decimal((n / 10) as nat).push(
                digit_char((n % 10) as nat),
            ));
        } else {
            assert(out@ =~= old(out)@ + seq![digit_char(n as nat)]);
        }
    }
}

/// Appends `n` in hexadecimal notation.
fn write_hexadecimal(out: &mut String, n: usize)
    ensures
        final(out)@ == old(out)@ + hexadecimal(n as nat),
    decreases n,
{
    if n >= 16 {
        write_hexadecimal(out, n / 16);
    }
    out.append(digit_str(n % 16));
    proof {
        if n >= 16 {
            assert(out@ =~= old(out)@ + hexadecimal((n / 16) as nat).push(
                digit_char((n % 16) as nat),
            ));
        } else {
            assert(out@ =~= old(out)@ + seq![digit_char(n as nat)]);
        }
    }
}

/// Appends `addr` as a pointer is printed.
pub fn write_pointer(out: &mut String, addr: usize)
    ensures
        final(out)@ == old(out)@ + pointer_text(addr as nat),
{
    out.append("0x");
    write_hexadecimal(out, addr);
    assert(out@ =~= old(out)@ + pointer_text(addr as nat));
}

/// Appends the indentation of `levels` nesting levels of `size` spaces each.
pub fn write_indentation(out: &mut String, levels: usize, size: usize)
    ensures
        final(out)@ == old(out)@ + indentation(levels as nat, size as nat),
{
    proof {
        reveal_strlit(" ");
        assert(out@ =~= old(out)@ + spaces(0));
    }
    let mut level: usize = 0;
    while level < levels
        invariant
            level <= levels,
            " "@ == seq![' '],
            out@ == old(out)@ + spaces((level * size) as nat),
        decreases levels - level,
    {
        let ghost row = out@;
        let mut column: usize = 0;
        proof {
            assert(level * size >= 0) by (nonlinear_arith)
                requires
                    level >= 0,
                    size >= 0,
            ;
        }
        while column < size
            invariant
                column <= size,
                level * size >= 0,
                " "@ == seq![' '],
                out@ == old(out)@ + spaces((level * size + column) as nat),
            decreases size - column,
        {
            out.append(" ");
            column = column + 1;
            assert(out@ =~= old(out)@ + spaces((level * size + column) as nat));
        }
        proof {
            assert(level * size + size == (level + 1) * size) by (nonlinear_arith);
        }
        level = level + 1;
    }
}

/// Whether no character of `text` is `c`.
pub open spec fn lacks(text: Seq<char>, c: char) -> bool {
    forall|i: int| 0 <= i < text.len() ==> text[i] != c
}

/// How often the character `c` stands in `text`.
pub open spec fn count_of(text: Seq<char>, c: char) -> nat
    decreases text.len(),
{
    if text.len() == 0 {
        0
    } else if text[0] == c {
        1 + count_of(text.drop_first(), c)
    } else {
        count_of(text.drop_first(), c)
    }
}

/// Two texts that lack a character lack it together.
pub proof fn lemma_lacks_concat(a: Seq<char>, b: Seq<char>, c: char)
    requires
        lacks(a, c),
        lacks(b, c),
    ensures
        lacks(a + b, c),
{
    assert forall|i: int| 0 <= i < (a + b).len() implies (a + b)[i] != c by {
        if i < a.len() {
            assert((a + b)[i] == a[i]);
        } else {
            assert((a + b)[i] == b[i - a.len()]);
        }
    }
}

/// A character stands in two texts put together as often as in the one
/// and in the other.
pub proof fn lemma_count_concat(a: Seq<char>, b: Seq<char>, c: char)
    ensures
        count_of(a + b, c) == count_of(a, c) + count_of(b, c),
    decreases a.len(),
{
    if a.len() == 0 {
        assert(a + b =~= b);
    } else {
        assert((a + b).drop_first() =~= a.drop_first() + b);
        lemma_count_concat(a.drop_first(), b, c);
    }
}

/// A character does not stand in a text that lacks it.
pub proof fn lemma_count_lacks(text: Seq<char>, c: char)
    requires
        lacks(text, c),
    ensures
        count_of(text, c) == 0,
    decreases text.len(),
{
    if text.len() > 0 {
        let rest = text.drop_first();
        assert forall|i: int| 0 <= i < rest.len() implies rest[i] != c by {
            assert(rest[i] == text[i + 1]);
        }
        assert(text[0] != c);
        lemma_count_lacks(rest, c);
    }
}

/// A number in decimal notation is made of the digits `0` to `9`.
pub proof fn lemma_decimal_digits(n: nat)
    ensures
        decimal(n).len() >= 1,
        forall|i: int| 0 <= i < decimal(n).len() ==> '0' <= #[trigger] decimal(n)[i] <= '9',
    decreases n,
{
    if n >= 10 {
        lemma_decimal_digits(n / 10);
    }
}

/// A number in hexadecimal notation is made of the digits `0` to `9` and
/// the letters `a` to `f`.
pub proof fn lemma_hexadecimal_digits(n: nat)
    ensures
        hexadecimal(n).len() >= 1,
        forall|i: int|
            0 <= i < hexadecimal(n).len() ==> {
                let c = #[trigger] hexadecimal(n)[i];
                '0' <= c <= '9' || 'a' <= c <= 'f'
            },
    decreases n,
{
    if n >= 16 {
        lemma_hexadecimal_digits(n / 16);
    }
}

} // verus!
