//! Deterministic synthesis of secondary names.
//!
//! When an annotation requests a secondary constant or function without an
//! explicit override, its name is synthesized from the field's identity: a
//! fixed prefix, followed by the field's name folded to upper or lower
//! case, or by the decimal index of a positional field.  Case folding is
//! over the ASCII letters; any other character passes through unchanged.

use vstd::prelude::*;
use vstd::string::*;

verus! {

/// The ASCII upper-case image of one character.
pub open spec fn upper_char(c: char) -> char {
    if c == 'a' { 'A' } else if c == 'b' { 'B' } else if c == 'c' { 'C' }
    else if c == 'd' { 'D' } else if c == 'e' { 'E' } else if c == 'f' { 'F' }
    else if c == 'g' { 'G' } else if c == 'h' { 'H' } else if c == 'i' { 'I' }
    else if c == 'j' { 'J' } else if c == 'k' { 'K' } else if c == 'l' { 'L' }
    else if c == 'm' { 'M' } else if c == 'n' { 'N' } else if c == 'o' { 'O' }
    else if c == 'p' { 'P' } else if c == 'q' { 'Q' } else if c == 'r' { 'R' }
    else if c == 's' { 'S' } else if c == 't' { 'T' } else if c == 'u' { 'U' }
    else if c == 'v' { 'V' } else if c == 'w' { 'W' } else if c == 'x' { 'X' }
    else if c == 'y' { 'Y' } else if c == 'z' { 'Z' } else { c }
}

/// The ASCII lower-case image of one character.
pub open spec fn lower_char(c: char) -> char {
    if c == 'A' { 'a' } else if c == 'B' { 'b' } else if c == 'C' { 'c' }
    else if c == 'D' { 'd' } else if c == 'E' { 'e' } else if c == 'F' { 'f' }
    else if c == 'G' { 'g' } else if c == 'H' { 'h' } else if c == 'I' { 'i' }
    else if c == 'J' { 'j' } else if c == 'K' { 'k' } else if c == 'L' { 'l' }
    else if c == 'M' { 'm' } else if c == 'N' { 'n' } else if c == 'O' { 'o' }
    else if c == 'P' { 'p' } else if c == 'Q' { 'q' } else if c == 'R' { 'r' }
    else if c == 'S' { 's' } else if c == 'T' { 't' } else if c == 'U' { 'u' }
    else if c == 'V' { 'v' } else if c == 'W' { 'w' } else if c == 'X' { 'x' }
    else if c == 'Y' { 'y' } else if c == 'Z' { 'z' } else { c }
}

/// A character sequence folded to upper case, character by character.
pub open spec fn spec_upper(s: Seq<char>) -> Seq<char> {
    Seq::new(s.len(), |i: int| upper_char(s[i]))
}

/// A character sequence folded to lower case, character by character.
pub open spec fn spec_lower(s: Seq<char>) -> Seq<char> {
    Seq::new(s.len(), |i: int| lower_char(s[i]))
}

/// Folds a string to upper case, ASCII letters only.
pub fn to_upper(s: &str) -> (r: String)
    ensures
        r@ == spec_upper(s@),
{
    let n = s.unicode_len();
    let mut out = String::new();
    let mut i: usize = 0;
    while i < n
        invariant
            n == s@.len(),
            i <= n,
            out@ == spec_upper(s@).take(i as int),
        decreases n - i,
    {
        let c = s.get_char(i);
        proof {
            reveal_strlit("A"); reveal_strlit("B"); reveal_strlit("C");
            reveal_strlit("D"); reveal_strlit("E"); reveal_strlit("F");
            reveal_strlit("G"); reveal_strlit("H"); reveal_strlit("I");
            reveal_strlit("J"); reveal_strlit("K"); reveal_strlit("L");
            reveal_strlit("M"); reveal_strlit("N"); reveal_strlit("O");
            reveal_strlit("P"); reveal_strlit("Q"); reveal_strlit("R");
            reveal_strlit("S"); reveal_strlit("T"); reveal_strlit("U");
            reveal_strlit("V"); reveal_strlit("W"); reveal_strlit("X");
            reveal_strlit("Y"); reveal_strlit("Z");
        }
        let piece: &str =
            if c == 'a' { "A" } else if c == 'b' { "B" } else if c == 'c' { "C" }
            else if c == 'd' { "D" } else if c == 'e' { "E" } else if c == 'f' { "F" }
            else if c == 'g' { "G" } else if c == 'h' { "H" } else if c == 'i' { "I" }
            else if c == 'j' { "J" } else if c == 'k' { "K" } else if c == 'l' { "L" }
            else if c == 'm' { "M" } else if c == 'n' { "N" } else if c == 'o' { "O" }
            else if c == 'p' { "P" } else if c == 'q' { "Q" } else if c == 'r' { "R" }
            else if c == 's' { "S" } else if c == 't' { "T" } else if c == 'u' { "U" }
            else if c == 'v' { "V" } else if c == 'w' { "W" } else if c == 'x' { "X" }
            else if c == 'y' { "Y" } else if c == 'z' { "Z" }
            else { s.substring_char(i, i + 1) };
        proof {
            assert(piece@ =~= seq![upper_char(s@[i as int])]);
            assert(spec_upper(s@).take(i + 1) =~= spec_upper(s@).take(i as int) + seq![
                upper_char(s@[i as int]),
            ]);
        }
        out.append(piece);
        i = i + 1;
    }
    proof {
        assert(spec_upper(s@).take(n as int) =~= spec_upper(s@));
    }
    out
}

/// Folds a string to lower case, ASCII letters only.
pub fn to_lower(s: &str) -> (r: String)
    ensures
        r@ == spec_lower(s@),
{
    let n = s.unicode_len();
    let mut out = String::new();
    let mut i: usize = 0;
    while i < n
        invariant
            n == s@.len(),
            i <= n,
            out@ == spec_lower(s@).take(i as int),
        decreases n - i,
    {
        let c = s.get_char(i);
        proof {
            reveal_strlit("a"); reveal_strlit("b"); reveal_strlit("c");
            reveal_strlit("d"); reveal_strlit("e"); reveal_strlit("f");
            reveal_strlit("g"); reveal_strlit("h"); reveal_strlit("i");
            reveal_strlit("j"); reveal_strlit("k"); reveal_strlit("l");
            reveal_strlit("m"); reveal_strlit("n"); reveal_strlit("o");
            reveal_strlit("p"); reveal_strlit("q"); reveal_strlit("r");
            reveal_strlit("s"); reveal_strlit("t"); reveal_strlit("u");
            reveal_strlit("v"); reveal_strlit("w"); reveal_strlit("x");
            reveal_strlit("y"); reveal_strlit("z");
        }
        let piece: &str =
            if c == 'A' { "a" } else if c == 'B' { "b" } else if c == 'C' { "c" }
            else if c == 'D' { "d" } else if c == 'E' { "e" } else if c == 'F' { "f" }
            else if c == 'G' { "g" } else if c == 'H' { "h" } else if c == 'I' { "i" }
            else if c == 'J' { "j" } else if c == 'K' { "k" } else if c == 'L' { "l" }
            else if c == 'M' { "m" } else if c == 'N' { "n" } else if c == 'O' { "o" }
            else if c == 'P' { "p" } else if c == 'Q' { "q" } else if c == 'R' { "r" }
            else if c == 'S' { "s" } else if c == 'T' { "t" } else if c == 'U' { "u" }
            else if c == 'V' { "v" } else if c == 'W' { "w" } else if c == 'X' { "x" }
            else if c == 'Y' { "y" } else if c == 'Z' { "z" }
            else { s.substring_char(i, i + 1) };
        proof {
            assert(piece@ =~= seq![lower_char(s@[i as int])]);
            assert(spec_lower(s@).take(i + 1) =~= spec_lower(s@).take(i as int) + seq![
                lower_char(s@[i as int]),
            ]);
        }
        out.append(piece);
        i = i + 1;
    }
    proof {
        assert(spec_lower(s@).take(n as int) =~= spec_lower(s@));
    }
    out
}

/// The character for one decimal digit.
pub open spec fn digit_char(d: int) -> char {
    if d == 0 { '0' } else if d == 1 { '1' } else if d == 2 { '2' }
    else if d == 3 { '3' } else if d == 4 { '4' } else if d == 5 { '5' }
    else if d == 6 { '6' } else if d == 7 { '7' } else if d == 8 { '8' }
    else { '9' }
}

/// The decimal numeral of a natural number, most significant digit first.
pub open spec fn spec_dec(n: nat) -> Seq<char>
    decreases n,
{
    if n < 10 {
        seq![digit_char(n as int)]
    } else {
        spec_dec(n / 10).push(digit_char((n % 10) as int))
    }
}

/// The string of one decimal digit.
fn digit_str(d: usize) -> (r: &'static str)
    requires
        d < 10,
    ensures
        r@ == seq![digit_char(d as int)],
{
    proof {
        reveal_strlit("0"); reveal_strlit("1"); reveal_strlit("2");
        reveal_strlit("3"); reveal_strlit("4"); reveal_strlit("5");
        reveal_strlit("6"); reveal_strlit("7"); reveal_strlit("8");
        reveal_strlit("9");
    }
    let r: &'static str =
        if d == 0 { "0" } else if d == 1 { "1" } else if d == 2 { "2" }
        else if d == 3 { "3" } else if d == 4 { "4" } else if d == 5 { "5" }
        else if d == 6 { "6" } else if d == 7 { "7" } else if d == 8 { "8" }
        else { "9" };
    proof {
        assert(r@ =~= seq![digit_char(d as int)]);
    }
    r
}

/// Formats a number in decimal.
pub fn dec_string(n: usize) -> (r: String)
    ensures
        r@ == spec_dec(n as nat),
    decreases n,
{
    if n < 10 {
        let d = digit_str(n);
        let r = String::from_str(d);
        r
    } else {
        let mut r = dec_string(n / 10);
        let d = digit_str(n % 10);
        r.append(d);
        proof {
            assert(r@ =~= spec_dec((n / 10) as nat).push(digit_char((n % 10) as int)));
        }
        r
    }
}

/// The synthesized name of a secondary constant: the prefix `DEFAULT_`
/// followed by the field's name folded to upper case, or by the decimal
/// index of a positional field.
pub open spec fn spec_const_name(id: Option<Seq<char>>, index: nat) -> Seq<char> {
    "DEFAULT_"@ + (match id {
        Option::Some(s) => spec_upper(s),
        Option::None => spec_dec(index),
    })
}

/// The synthesized name of a secondary function: the prefix `default_`
/// followed by the field's name folded to lower case, or by the decimal
/// index of a positional field.
pub open spec fn spec_fn_name(id: Option<Seq<char>>, index: nat) -> Seq<char> {
    "default_"@ + (match id {
        Option::Some(s) => spec_lower(s),
        Option::None => spec_dec(index),
    })
}

/// Synthesizes the secondary-constant name for the field with the given
/// name (or, when nameless, the given positional index).
pub fn synth_const_name(id: &Option<String>, index: usize) -> (r: String)
    ensures
        r@ == spec_const_name(id.deep_view(), index as nat),
{
    let mut r = String::from_str("DEFAULT_");
    match id {
        Option::Some(s) => {
            let u = to_upper(s.as_str());
            r.append(u.as_str());
        },
        Option::None => {
            let d = dec_string(index);
            r.append(d.as_str());
        },
    }
    r
}

/// Synthesizes the secondary-function name for the field with the given
/// name (or, when nameless, the given positional index).
pub fn synth_fn_name(id: &Option<String>, index: usize) -> (r: String)
    ensures
        r@ == spec_fn_name(id.deep_view(), index as nat),
{
    let mut r = String::from_str("default_");
    match id {
        Option::Some(s) => {
            let l = to_lower(s.as_str());
            r.append(l.as_str());
        },
        Option::None => {
            let d = dec_string(index);
            r.append(d.as_str());
        },
    }
    r
}

/// Compares two strings by their characters.
pub fn str_eq(a: &str, b: &str) -> (r: bool)
    ensures
        r == (a@ == b@),
{
    let n = a.unicode_len();
    let m = b.unicode_len();
    if n != m {
        proof {
            assert(a@ != b@) by {
                if a@ == b@ {
                    assert(a@.len() == b@.len());
                }
            }
        }
        return false;
    }
    let mut i: usize = 0;
    while i < n
        invariant
            n == a@.len(),
            n == b@.len(),
            i <= n,
            forall|j: int| 0 <= j < i ==> a@[j] == b@[j],
        decreases n - i,
    {
        let ca = a.get_char(i);
        let cb = b.get_char(i);
        if ca != cb {
            proof {
                assert(a@[i as int] != b@[i as int]);
            }
            return false;
        }
        i = i + 1;
    }
    proof {
        assert(a@ =~= b@);
    }
    true
}

} // verus!
