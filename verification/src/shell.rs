//! Quoting words for a Unix shell (through the `shell-words` crate).
use vstd::prelude::*;

verus! {

/// A character that makes `shell_words::quote` quote a word.
pub open spec fn is_shell_special(c: char) -> bool {
    c == '\n' || c == '\'' || c == '|' || c == '&' || c == ';' || c == '<' || c == '>' || c == '('
        || c == ')' || c == '$' || c == '`' || c == '\\' || c == '"' || c == ' ' || c == '\t'
        || c == '*' || c == '?' || c == '[' || c == '#' || c == '~' || c == '=' || c == '%'
}

/// `s` with every single quote written as `'\''`.
pub open spec fn escape_single_quotes(s: Seq<char>) -> Seq<char>
    decreases s.len(),
{
    if s.len() == 0 {
        Seq::empty()
    } else {
        escape_single_quotes(s.drop_last()) + if s.last() == '\'' {
            seq!['\'', '\\', '\'', '\'']
        } else {
            seq![s.last()]
        }
    }
}

/// What `shell_words::quote` returns for `s`: `''` for the empty word, the word itself when
/// it holds no special character, and otherwise the word in single quotes with each single
/// quote in it written as `'\''`.
pub open spec fn shell_quoted(s: Seq<char>) -> Seq<char> {
    if s.len() == 0 {
        seq!['\'', '\'']
    } else if !(exists|i: int| 0 <= i < s.len() && is_shell_special(#[trigger] s[i])) {
        s
    } else {
        seq!['\''] + escape_single_quotes(s) + seq!['\'']
    }
}

/// `shell_words::quote`: quotes a word so that a Unix shell reads it literally. The contract
/// restates the crate's code (version 1.1.1): no quoting, single quotes, or single quotes
/// with escaped single quotes.
#[verifier::external_body]
pub(crate) fn quote(s: &str) -> (r: String)
    ensures
        r@ == shell_quoted(s@),
{
    shell_words::quote(s).into_owned()
}

} // verus!
