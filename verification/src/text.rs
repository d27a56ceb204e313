//! Text building blocks: characters, decimal numbers, quoted strings and
//! joined lists.

use vstd::prelude::*;
use vstd::string::*;

verus! {

broadcast use vstd::string::group_string_axioms;

/// `String::push`: appends one character.
#[verifier::external_body]
pub(crate) fn push_char(s: &mut String, c: char)
    ensures
        final(s)@ == old(s)@.push(c),
{
    s.push(c)
}

/// The characters of `s`, in order.
pub fn chars_of(s: &str) -> (v: Vec<char>)
    ensures
        v@ == s@,
{
    let mut v: Vec<char> = Vec::new();
    for c in it: s.chars()
        invariant
            it.seq() == s@,
            v@ == s@.take(it.index() as int),
    {
        proof {
            assert(s@.take(it.index() + 1) =~= s@.take(it.index() as int).push(c));
        }
        v.push(c);
    }
    proof {
        assert(s@.take(s@.len() as int) =~= s@);
    }
    v
}

/// The string made of the first `n` characters of `v`, or of all of them
/// where there are fewer.
pub fn string_of_chars(v: &Vec<char>, n: usize) -> (s: String)
    ensures
        s@ == v@.take(if n <= v@.len() { n as int } else { v@.len() as int }),
{
    let end = if n <= v.len() {
        n
    } else {
        v.len()
    };
    let mut s = String::new();
    let mut i: usize = 0;
    while i < end
        invariant
            i <= end <= v.len(),
            s@ == v@.take(i as int),
        decreases end - i,
    {
        proof {
            assert(v@.take(i + 1) =~= v@.take(i as int).push(v@[i as int]));
        }
        push_char(&mut s, v[i]);
        i = i + 1;
    }
    s
}

/// The text of one decimal digit.
pub open spec fn digit_text(d: int) -> Seq<char> {
    if d == 0 {
        "0"@
    } else if d == 1 {
        "1"@
    } else if d == 2 {
        "2"@
    } else if d == 3 {
        "3"@
    } else if d == 4 {
        "4"@
    } else if d == 5 {
        "5"@
    } else if d == 6 {
        "6"@
    } else if d == 7 {
        "7"@
    } else if d == 8 {
        "8"@
    } else {
        "9"@
    }
}

/// The decimal digits of `n`, most significant first, without leading zeros.
pub open spec fn decimal_text(n: nat) -> Seq<char>
    decreases n,
{
    if n < 10 {
        digit_text(n as int)
    } else {
        decimal_text(n / 10) + digit_text((n % 10) as int)
    }
}

/// The decimal text of a signed integer: a minus sign for a negative one,
/// then the digits of its magnitude.
pub open spec fn integer_text(i: int) -> Seq<char> {
    if i < 0 {
        "-"@ + decimal_text((-i) as nat)
    } else {
        decimal_text(i as nat)
    }
}

fn digit_str(d: u64) -> (s: &'static str)
    requires
        d < 10,
    ensures
        s@ == digit_text(d as int),
{
    if d == 0 {
        "0"
    } else if d == 1 {
        "1"
    } else if d == 2 {
        "2"
    } else if d == 3 {
        "3"
    } else if d == 4 {
        "4"
    } else if d == 5 {
        "5"
    } else if d == 6 {
        "6"
    } else if d == 7 {
        "7"
    } else if d == 8 {
        "8"
    } else {
        "9"
    }
}

/// Prints an unsigned number in decimal.
pub fn unsigned_to_text(n: u64) -> (s: String)
    ensures
        s@ == decimal_text(n as nat),
    decreases n,
{
    if n < 10 {
        String::from_str(digit_str(n))
    } else {
        let mut s = unsigned_to_text(n / 10);
        s.append(digit_str(n % 10));
        s
    }
}

/// Prints a signed number in decimal.
pub fn integer_to_text(i: i32) -> (s: String)
    ensures
        s@ == integer_text(i as int),
{
    if i < 0 {
        let magnitude: u64 = (-(i as i64)) as u64;
        let digits = unsigned_to_text(magnitude);
        let mut s = String::from_str("-");
        s.append(digits.as_str());
        s
    } else {
        unsigned_to_text(i as u64)
    }
}

/// Prints a 64-bit signed number in decimal.
pub fn long_to_text(i: i64) -> (s: String)
    ensures
        s@ == integer_text(i as int),
{
    if i < 0 {
        let magnitude: u64 = (-(i + 1)) as u64 + 1;
        let digits = unsigned_to_text(magnitude);
        let mut s = String::from_str("-");
        s.append(digits.as_str());
        s
    } else {
        unsigned_to_text(i as u64)
    }
}

/// The text of a boolean literal.
pub open spec fn boolean_text(b: bool) -> Seq<char> {
    if b {
        "true"@
    } else {
        "false"@
    }
}

pub fn boolean_to_text(b: bool) -> (s: String)
    ensures
        s@ == boolean_text(b),
{
    if b {
        String::from_str("true")
    } else {
        String::from_str("false")
    }
}

/// `s` between double quotes. Nothing inside `s` is escaped.
pub open spec fn quoted(s: Seq<char>) -> Seq<char> {
    "\""@ + s + "\""@
}

pub fn quote(s: &str) -> (q: String)
    ensures
        q@ == quoted(s@),
{
    let mut q = String::from_str("\"");
    q.append(s);
    q.append("\"");
    q
}

/// The first `n` of `pieces`, with `separator` between neighbours.
pub open spec fn joined(pieces: Seq<Seq<char>>, separator: Seq<char>, n: nat) -> Seq<char>
    decreases n,
{
    if n == 0 || n > pieces.len() {
        Seq::empty()
    } else if n == 1 {
        pieces[0]
    } else {
        joined(pieces, separator, (n - 1) as nat) + separator + pieces[n - 1]
    }
}

/// The views of a sequence of strings.
pub open spec fn texts(pieces: Seq<String>) -> Seq<Seq<char>> {
    Seq::new(pieces.len(), |i: int| pieces[i]@)
}

/// Joins `pieces` with `separator` between neighbours.
pub fn join(pieces: &Vec<String>, separator: &str) -> (s: String)
    ensures
        s@ == joined(texts(pieces@), separator@, pieces@.len()),
{
    let mut s = String::new();
    let mut i: usize = 0;
    while i < pieces.len()
        invariant
            i <= pieces.len(),
            s@ == joined(texts(pieces@), separator@, i as nat),
        decreases pieces.len() - i,
    {
        if i > 0 {
            s.append(separator);
        }
        s.append(pieces[i].as_str());
        proof {
            if i == 0 {
                assert(Seq::<char>::empty() + pieces@[0]@ =~= pieces@[0]@);
            }
        }
        i = i + 1;
    }
    s
}

} // verus!
