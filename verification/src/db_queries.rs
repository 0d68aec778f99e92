//! Query-building helpers of the collaboration database.

use vstd::prelude::*;

verus! {

/// Whether a character counts as alphanumeric for fuzzy matching.
pub uninterp spec fn alphanumeric(c: char) -> bool;

/// Relies on char::is_alphanumeric: whether the character is in the Unicode
/// categories Letter or Number. The result depends on the character alone.
#[verifier::external_body]
fn char_is_alphanumeric(c: char) -> (r: bool)
    ensures
        r == alphanumeric(c),
{
    c.is_alphanumeric()
}

/// Relies on String::push: appends one character at the end.
#[verifier::external_body]
fn push_char(s: &mut String, c: char)
    ensures
        final(s)@ == old(s)@.push(c),
{
    s.push(c);
}

/// The percent-interleaved characters of a fuzzy-match pattern: each
/// alphanumeric character preceded by `%`, everything else dropped.
pub open spec fn spec_fuzzy_chars(s: Seq<char>) -> Seq<char>
    decreases s.len(),
{
    if s.len() == 0 {
        Seq::empty()
    } else {
        spec_fuzzy_chars(s.drop_last()) + (if alphanumeric(s.last()) {
            seq!['%', s.last()]
        } else {
            Seq::<char>::empty()
        })
    }
}

/// The full fuzzy-match pattern: the interleaved characters, closed by `%`.
pub open spec fn spec_fuzzy_like(s: Seq<char>) -> Seq<char> {
    spec_fuzzy_chars(s).push('%')
}

/// The collaboration database's query builder.
pub struct Database;

impl Database {
    /// Creates a string for matching characters in order with a `LIKE`
    /// pattern: e.g. `cir` becomes `%c%i%r%`.
    pub fn fuzzy_like_string(string: &str) -> (r: String)
        ensures
            r@ == spec_fuzzy_like(string@),
    {
        let n = string.unicode_len();
        let mut result = String::new();
        let mut i: usize = 0;
        while i < n
            invariant
                0 <= i <= n,
                n == string@.len(),
                result@ == spec_fuzzy_chars(string@.take(i as int)),
            decreases n - i,
        {
            let c = string.get_char(i);
            let ghost before = result@;
            if char_is_alphanumeric(c) {
                push_char(&mut result, '%');
                push_char(&mut result, c);
            }
            proof {
                assert(string@.take(i + 1).drop_last() =~= string@.take(i as int));
                assert(string@.take(i + 1).last() == string@[i as int]);
                if alphanumeric(string@[i as int]) {
                    assert(result@ =~= before + seq!['%', string@[i as int]]);
                } else {
                    assert(result@ =~= before + Seq::<char>::empty());
                }
            }
            i = i + 1;
        }
        proof {
            assert(string@.take(n as int) =~= string@);
        }
        push_char(&mut result, '%');
        result
    }
}

} // verus!
