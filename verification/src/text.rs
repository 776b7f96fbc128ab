//! Character and string helpers the engine's path logic is built on:
//! ASCII case folding, decimal digit strings, suffix matching and the
//! separator-inserting path join.

use vstd::prelude::*;
use vstd::string::*;

verus! {

/// ASCII-only lowercase mapping of one character; everything outside
/// `'A'..='Z'` is left unchanged.
pub open spec fn ascii_lower_char(c: char) -> char {
    if c == 'A' {
        'a'
    } else if c == 'B' {
        'b'
    } else if c == 'C' {
        'c'
    } else if c == 'D' {
        'd'
    } else if c == 'E' {
        'e'
    } else if c == 'F' {
        'f'
    } else if c == 'G' {
        'g'
    } else if c == 'H' {
        'h'
    } else if c == 'I' {
        'i'
    } else if c == 'J' {
        'j'
    } else if c == 'K' {
        'k'
    } else if c == 'L' {
        'l'
    } else if c == 'M' {
        'm'
    } else if c == 'N' {
        'n'
    } else if c == 'O' {
        'o'
    } else if c == 'P' {
        'p'
    } else if c == 'Q' {
        'q'
    } else if c == 'R' {
        'r'
    } else if c == 'S' {
        's'
    } else if c == 'T' {
        't'
    } else if c == 'U' {
        'u'
    } else if c == 'V' {
        'v'
    } else if c == 'W' {
        'w'
    } else if c == 'X' {
        'x'
    } else if c == 'Y' {
        'y'
    } else if c == 'Z' {
        'z'
    } else {
        c
    }
}

/// ASCII lowercase folding of a whole character sequence.
pub open spec fn ascii_lower(s: Seq<char>) -> Seq<char> {
    s.map_values(|c: char| ascii_lower_char(c))
}

/// Folding one character twice changes nothing more than folding it once.
pub proof fn lemma_ascii_lower_char_idempotent(c: char)
    ensures
        ascii_lower_char(ascii_lower_char(c)) == ascii_lower_char(c),
{
}

/// Folding a sequence twice changes nothing more than folding it once.
pub proof fn lemma_ascii_lower_idempotent(s: Seq<char>)
    ensures
        ascii_lower(ascii_lower(s)) == ascii_lower(s),
{
    assert forall|i: int| 0 <= i < s.len() implies ascii_lower(ascii_lower(s))[i] == ascii_lower(
        s,
    )[i] by {
        lemma_ascii_lower_char_idempotent(s[i]);
    }
    assert(ascii_lower(ascii_lower(s)) =~= ascii_lower(s));
}

pub fn lower_char(c: char) -> (r: char)
    ensures
        r == ascii_lower_char(c),
{
    if c == 'A' {
        'a'
    } else if c == 'B' {
        'b'
    } else if c == 'C' {
        'c'
    } else if c == 'D' {
        'd'
    } else if c == 'E' {
        'e'
    } else if c == 'F' {
        'f'
    } else if c == 'G' {
        'g'
    } else if c == 'H' {
        'h'
    } else if c == 'I' {
        'i'
    } else if c == 'J' {
        'j'
    } else if c == 'K' {
        'k'
    } else if c == 'L' {
        'l'
    } else if c == 'M' {
        'm'
    } else if c == 'N' {
        'n'
    } else if c == 'O' {
        'o'
    } else if c == 'P' {
        'p'
    } else if c == 'Q' {
        'q'
    } else if c == 'R' {
        'r'
    } else if c == 'S' {
        's'
    } else if c == 'T' {
        't'
    } else if c == 'U' {
        'u'
    } else if c == 'V' {
        'v'
    } else if c == 'W' {
        'w'
    } else if c == 'X' {
        'x'
    } else if c == 'Y' {
        'y'
    } else if c == 'Z' {
        'z'
    } else {
        c
    }
}

/// Relies on `String::push` of std: it appends exactly the given character at
/// the end of the string and changes nothing else.
#[verifier::external_body]
pub(crate) fn push_char(s: &mut String, c: char)
    ensures
        final(s)@ == old(s)@.push(c),
{
    s.push(c);
}

/// ASCII lowercase folding of a string.
pub fn ascii_lower_str(s: &str) -> (r: String)
    ensures
        r@ == ascii_lower(s@),
{
    let n: usize = s.unicode_len();
    let mut r: String = String::new();
    let mut i: usize = 0;
    while i < n
        invariant
            n == s@.len(),
            i <= n,
            r@ == ascii_lower(s@.take(i as int)),
        decreases n - i,
    {
        let c = s.get_char(i);
        push_char(&mut r, lower_char(c));
        i = i + 1;
        proof {
            assert(s@.take(i as int) =~= s@.take(i - 1).push(s@[i - 1]));
            assert(ascii_lower(s@.take(i as int)) =~= ascii_lower(s@.take(i - 1)).push(
                ascii_lower_char(s@[i - 1]),
            ));
        }
    }
    proof {
        assert(s@.take(n as int) =~= s@);
    }
    r
}

/// `s` ends in `suffix`.
pub open spec fn has_suffix(s: Seq<char>, suffix: Seq<char>) -> bool {
    s.len() >= suffix.len() && s.subrange(s.len() - suffix.len(), s.len() as int) == suffix
}

/// Whether `name`, folded to ASCII lowercase, ends in `suffix` (the caller
/// passes the suffix already in the casing it wants matched).
pub fn ends_with_fold(name: &str, suffix: &str) -> (r: bool)
    ensures
        r == has_suffix(ascii_lower(name@), suffix@),
{
    let n: usize = name.unicode_len();
    let m: usize = suffix.unicode_len();
    if n < m {
        return false;
    }
    let mut i: usize = 0;
    while i < m
        invariant
            n == name@.len(),
            m == suffix@.len(),
            m <= n,
            i <= m,
            forall|j: int| 0 <= j < i ==> ascii_lower(name@)[n - m + j] == suffix@[j],
        decreases m - i,
    {
        let c = lower_char(name.get_char(n - m + i));
        let d = suffix.get_char(i);
        if c != d {
            proof {
                if has_suffix(ascii_lower(name@), suffix@) {
                    assert(ascii_lower(name@).subrange(n - m, n as int)[i as int] == ascii_lower(
                        name@,
                    )[n - m + i]);
                }
            }
            return false;
        }
        i = i + 1;
    }
    proof {
        assert(ascii_lower(name@).subrange(n - m, n as int) =~= suffix@);
    }
    true
}

/// The character for one decimal digit.
pub open spec fn digit_char(d: int) -> char {
    if d == 0 {
        '0'
    } else if d == 1 {
        '1'
    } else if d == 2 {
        '2'
    } else if d == 3 {
        '3'
    } else if d == 4 {
        '4'
    } else if d == 5 {
        '5'
    } else if d == 6 {
        '6'
    } else if d == 7 {
        '7'
    } else if d == 8 {
        '8'
    } else {
        '9'
    }
}

/// The plain decimal digit string of a non-negative number, no padding.
pub open spec fn dec_digits(n: int) -> Seq<char>
    decreases n,
{
    if n < 10 {
        seq![digit_char(n)]
    } else {
        dec_digits(n / 10).push(digit_char(n % 10))
    }
}

/// The decimal digit string of a non-negative number, zero-padded on the left
/// to at least two digits.
pub open spec fn two_digits(n: int) -> Seq<char> {
    if n < 10 {
        seq!['0', digit_char(n)]
    } else {
        dec_digits(n)
    }
}

fn digit_char_exec(d: u16) -> (c: char)
    requires
        d <= 9,
    ensures
        c == digit_char(d as int),
{
    if d == 0 {
        '0'
    } else if d == 1 {
        '1'
    } else if d == 2 {
        '2'
    } else if d == 3 {
        '3'
    } else if d == 4 {
        '4'
    } else if d == 5 {
        '5'
    } else if d == 6 {
        '6'
    } else if d == 7 {
        '7'
    } else if d == 8 {
        '8'
    } else {
        '9'
    }
}

fn push_dec(out: &mut String, n: u16)
    ensures
        final(out)@ == old(out)@ + dec_digits(n as int),
    decreases n,
{
    if n < 10 {
        push_char(out, digit_char_exec(n));
        proof {
            assert(old(out)@ + dec_digits(n as int) =~= old(out)@.push(digit_char(n as int)));
        }
    } else {
        push_dec(out, n / 10);
        push_char(out, digit_char_exec(n % 10));
        proof {
            assert(old(out)@ + dec_digits(n as int) =~= (old(out)@ + dec_digits(n as int / 10)).push(
                digit_char(n as int % 10),
            ));
        }
    }
}

/// The plain decimal string of `n`.
pub fn dec_str(n: u16) -> (r: String)
    ensures
        r@ == dec_digits(n as int),
{
    let mut r: String = String::new();
    push_dec(&mut r, n);
    proof {
        assert(Seq::<char>::empty() + dec_digits(n as int) =~= dec_digits(n as int));
    }
    r
}

/// The decimal string of `n`, zero-padded to at least two digits.
pub fn two_digit_str(n: u16) -> (r: String)
    ensures
        r@ == two_digits(n as int),
{
    if n < 10 {
        let mut r: String = String::new();
        push_char(&mut r, '0');
        push_char(&mut r, digit_char_exec(n));
        proof {
            assert(Seq::<char>::empty().push('0').push(digit_char(n as int)) =~= two_digits(
                n as int,
            ));
        }
        r
    } else {
        dec_str(n)
    }
}

/// Joining a file name onto a directory path: a `/` separator is inserted
/// unless the directory is empty or already ends in one.
pub open spec fn path_join(dir: Seq<char>, name: Seq<char>) -> Seq<char> {
    if dir.len() == 0 {
        name
    } else if dir.last() == '/' {
        dir + name
    } else {
        dir + seq!['/'] + name
    }
}

pub fn join_path(dir: &str, name: &str) -> (r: String)
    ensures
        r@ == path_join(dir@, name@),
{
    let n: usize = dir.unicode_len();
    let mut r: String = String::new();
    r.append(dir);
    if n > 0 && dir.get_char(n - 1) != '/' {
        push_char(&mut r, '/');
        proof {
            assert(dir@ + seq!['/'] =~= dir@.push('/'));
        }
    }
    r.append(name);
    proof {
        assert(Seq::<char>::empty() + dir@ =~= dir@);
        if dir@.len() > 0 && dir@.last() == '/' {
            assert(r@ =~= path_join(dir@, name@));
        } else if dir@.len() > 0 {
            assert(r@ =~= (dir@ + seq!['/']) + name@);
            assert((dir@ + seq!['/']) + name@ =~= dir@ + seq!['/'] + name@);
        }
    }
    r
}

/// Appending two strings.
pub fn concat_str(a: &str, b: &str) -> (r: String)
    ensures
        r@ == a@ + b@,
{
    let mut r: String = String::new();
    r.append(a);
    r.append(b);
    proof {
        assert((Seq::<char>::empty() + a@) + b@ =~= a@ + b@);
    }
    r
}

} // verus!
