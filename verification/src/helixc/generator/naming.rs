//! The naming convention for generated identifiers.

use crate::text::{chars_of, push_char, string_of_chars};
use vstd::prelude::*;
use vstd::string::*;

verus! {

/// Whether `c` has the Unicode `Uppercase` property.
pub uninterp spec fn unicode_uppercase(c: char) -> bool;

/// Whether `c` has the Unicode `Lowercase` property.
pub uninterp spec fn unicode_lowercase(c: char) -> bool;

/// The Unicode lowercase mapping of `c`: the characters it maps to.
pub uninterp spec fn unicode_lowercase_mapping(c: char) -> Seq<char>;

/// The first character of the lowercase mapping of `c`.
pub open spec fn unicode_lowercase_head(c: char) -> char {
    if unicode_lowercase_mapping(c).len() > 0 {
        unicode_lowercase_mapping(c)[0]
    } else {
        c
    }
}

/// `char::is_uppercase`: the result is the character's Unicode `Uppercase`
/// property, which this library only names.
#[verifier::external_body]
fn is_uppercase(c: char) -> (b: bool)
    ensures
        b == unicode_uppercase(c),
{
    c.is_uppercase()
}

/// `char::is_lowercase`: the result is the character's Unicode `Lowercase`
/// property, which this library only names.
#[verifier::external_body]
fn is_lowercase(c: char) -> (b: bool)
    ensures
        b == unicode_lowercase(c),
{
    c.is_lowercase()
}

/// `char::to_lowercase`: the result holds the characters that the
/// lowercase mapping yields, in order. This library only names them.
#[verifier::external_body]
fn lowercase_mapping(c: char) -> (mapping: Vec<char>)
    ensures
        mapping@ == unicode_lowercase_mapping(c),
{
    c.to_lowercase().collect()
}

fn lowercase_head(c: char) -> (l: char)
    ensures
        l == unicode_lowercase_head(c),
{
    let mapping = lowercase_mapping(c);
    if mapping.len() > 0 {
        mapping[0]
    } else {
        c
    }
}

/// Whether an underscore goes before the character at `i`: it is upper case,
/// it is not the first character, and either the one before it is not upper
/// case, or it opens a word after a run of capitals, which is when a lower
/// case character follows it that is not the last one. So `XMLParser` splits
/// before `P`, while the lone `s` that ends `IDs` splits nothing off.
pub open spec fn starts_word(s: Seq<char>, i: int) -> bool {
    &&& 0 < i < s.len()
    &&& unicode_uppercase(s[i])
    &&& (!unicode_uppercase(s[i - 1]) || (i + 2 < s.len() && unicode_lowercase(s[i + 1])))
}

/// The snake-case rendering of the first `n` characters of `s`.
pub open spec fn snake_prefix(s: Seq<char>, n: nat) -> Seq<char>
    decreases n,
{
    if n == 0 || n > s.len() {
        Seq::empty()
    } else {
        let i = n - 1;
        let head = snake_prefix(s, i as nat);
        let head = if starts_word(s, i) {
            head.push('_')
        } else {
            head
        };
        if unicode_uppercase(s[i]) {
            head.push(unicode_lowercase_head(s[i]))
        } else {
            head.push(s[i])
        }
    }
}

/// The name a generated identifier gets: words split at case changes, lower
/// case throughout, and the keyword `type` given a trailing underscore.
pub open spec fn snake_case(s: Seq<char>) -> Seq<char> {
    let body = snake_prefix(s, s.len());
    if body == "type"@ {
        "type_"@
    } else {
        body
    }
}

/// Rewrites a name in snake case.
pub fn to_snake_case(s: &str) -> (result: String)
    ensures
        result@ == snake_case(s@),
{
    let chars = chars_of(s);
    let mut result = String::new();
    let mut i: usize = 0;
    while i < chars.len()
        invariant
            i <= chars.len(),
            chars@ == s@,
            result@ == snake_prefix(s@, i as nat),
        decreases chars.len() - i,
    {
        let c = chars[i];
        if is_uppercase(c) {
            let after_lower = i > 0 && !is_uppercase(chars[i - 1]);
            let before_lower = i > 0 && chars.len() - i > 2 && is_lowercase(chars[i + 1]);
            if after_lower || before_lower {
                push_char(&mut result, '_');
            }
            push_char(&mut result, lowercase_head(c));
        } else {
            push_char(&mut result, c);
        }
        i = i + 1;
    }
    let keyword = String::from_str("type");
    if result == keyword {
        String::from_str("type_")
    } else {
        result
    }
}

/// `s` without the underscores at its end.
pub open spec fn without_trailing_underscores(s: Seq<char>) -> Seq<char>
    decreases s.len(),
{
    if s.len() > 0 && s.last() == '_' {
        without_trailing_underscores(s.drop_last())
    } else {
        s
    }
}

/// Drops the underscores at the end of `s`.
pub fn trim_trailing_underscores(s: &str) -> (result: String)
    ensures
        result@ == without_trailing_underscores(s@),
{
    let chars = chars_of(s);
    let mut end: usize = chars.len();
    proof {
        assert(chars@.take(chars@.len() as int) =~= chars@);
    }
    while end > 0 && chars[end - 1] == '_'
        invariant
            end <= chars.len(),
            without_trailing_underscores(chars@) == without_trailing_underscores(
                chars@.take(end as int),
            ),
        decreases end,
    {
        proof {
            assert(chars@.take(end as int).drop_last() =~= chars@.take(end - 1));
        }
        end = end - 1;
    }
    string_of_chars(&chars, end)
}

} // verus!
