//! Classifying one raw command-line token.
//!
//! A token starting with `--` is a long option: the text after the dashes is
//! split at the first `=` into a name and an inline value; more than one `=`
//! makes the token malformed.  A token starting with a single `-` is a short
//! option.  Anything else is a positional.  Classification never looks at the
//! token's position; what a positional means is the driver's business.

use vstd::prelude::*;

verus! {

/// How many `=` characters a character sequence holds.
pub open spec fn eq_count(s: Seq<char>) -> nat
    decreases s.len(),
{
    if s.len() == 0 {
        0
    } else {
        eq_count(s.drop_last()) + (if s.last() == '=' { 1nat } else { 0nat })
    }
}

/// Index of the first `=` in a character sequence; the length when it has none.
pub open spec fn eq_index(s: Seq<char>) -> int
    decreases s.len(),
{
    if s.len() == 0 {
        0
    } else {
        let k = eq_index(s.drop_last());
        if k < s.len() - 1 {
            k
        } else if s.last() == '=' {
            s.len() - 1
        } else {
            s.len() as int
        }
    }
}

pub proof fn lemma_eq_index_bounds(s: Seq<char>)
    ensures
        0 <= eq_index(s) <= s.len(),
        eq_index(s) < s.len() <==> eq_count(s) > 0,
        eq_index(s) < s.len() ==> s[eq_index(s)] == '=',
    decreases s.len(),
{
    if s.len() > 0 {
        lemma_eq_index_bounds(s.drop_last());
    }
}

/// A classified token, over character sequences.
#[verifier::ext_equal]
pub enum SpecToken {
    /// `--name=value`
    LongInline { name: Seq<char>, value: Seq<char> },
    /// `--name`
    LongBare { name: Seq<char> },
    /// `-name`
    Short { name: Seq<char> },
    /// anything that is not an option marker
    Positional,
    /// a long token with more than one `=`
    Malformed,
}

/// The classification rules, over the token's characters.
pub open spec fn spec_classify(t: Seq<char>) -> SpecToken {
    if t.len() >= 2 && t[0] == '-' && t[1] == '-' {
        let rest = t.subrange(2, t.len() as int);
        if eq_count(rest) == 0 {
            SpecToken::LongBare { name: rest }
        } else if eq_count(rest) == 1 {
            SpecToken::LongInline {
                name: rest.subrange(0, eq_index(rest)),
                value: rest.subrange(eq_index(rest) + 1, rest.len() as int),
            }
        } else {
            SpecToken::Malformed
        }
    } else if t.len() >= 1 && t[0] == '-' {
        SpecToken::Short { name: t.subrange(1, t.len() as int) }
    } else {
        SpecToken::Positional
    }
}

/// A classified token, carrying its parts.
pub enum Token {
    LongInline { name: String, value: String },
    LongBare { name: String },
    Short { name: String },
    Positional,
    Malformed,
}

impl View for Token {
    type V = SpecToken;

    open spec fn view(&self) -> SpecToken {
        match self {
            Token::LongInline { name, value } => SpecToken::LongInline {
                name: name@,
                value: value@,
            },
            Token::LongBare { name } => SpecToken::LongBare { name: name@ },
            Token::Short { name } => SpecToken::Short { name: name@ },
            Token::Positional => SpecToken::Positional,
            Token::Malformed => SpecToken::Malformed,
        }
    }
}

/// Classifies one raw token exactly as `spec_classify` says.
pub fn classify(token: &str) -> (t: Token)
    ensures
        t@ == spec_classify(token@),
{
    let n = token.unicode_len();
    if n >= 2 && token.get_char(0) == '-' && token.get_char(1) == '-' {
        let rest = token.substring_char(2, n);
        let rn = rest.unicode_len();
        let mut count: usize = 0;
        let mut first: usize = 0;
        let mut found: bool = false;
        let mut j: usize = 0;
        while j < rn
            invariant
                rn == rest@.len(),
                0 <= j <= rn,
                count == eq_count(rest@.take(j as int)),
                found <==> count > 0,
                found ==> first == eq_index(rest@.take(j as int)) && first < j,
                !found ==> eq_index(rest@.take(j as int)) == j,
                count <= j,
            decreases rn - j,
        {
            proof {
                assert(rest@.take(j as int + 1).drop_last() =~= rest@.take(j as int));
                assert(rest@.take(j as int + 1).last() == rest@[j as int]);
            }
            let c = rest.get_char(j);
            if c == '=' {
                if !found {
                    first = j;
                    found = true;
                }
                count = count + 1;
            }
            j = j + 1;
        }
        proof {
            assert(rest@.take(rn as int) =~= rest@);
        }
        if count == 0 {
            Token::LongBare { name: String::from_str(rest) }
        } else if count == 1 {
            let name = rest.substring_char(0, first);
            let value = rest.substring_char(first + 1, rn);
            Token::LongInline { name: String::from_str(name), value: String::from_str(value) }
        } else {
            Token::Malformed
        }
    } else if n >= 1 && token.get_char(0) == '-' {
        let name = token.substring_char(1, n);
        Token::Short { name: String::from_str(name) }
    } else {
        Token::Positional
    }
}

} // verus!
