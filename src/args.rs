use vstd::prelude::*;
use crate::text::{
    find_white, find_white_from, lemma_find_white_bounds, lemma_skip_white_bounds, skip_white,
    skip_white_from, trim_start_of,
};

verus! {

/// Where the next token of `s` starts.
pub open spec fn token_start(s: Seq<char>) -> int {
    skip_white(s, 0)
}

/// Where the next token of `s` ends.
pub open spec fn token_end(s: Seq<char>) -> int {
    find_white(s, token_start(s))
}

pub proof fn lemma_token_bounds(s: Seq<char>)
    ensures
        0 <= token_start(s) <= token_end(s) <= s.len(),
{
    lemma_skip_white_bounds(s, 0);
    lemma_find_white_bounds(s, token_start(s));
}

/// A cursor over the white-space separated words of a command line.
pub struct Args<'a> {
    s: &'a str,
}

impl<'a> View for Args<'a> {
    type V = Seq<char>;

    /// The part of the line not consumed yet.
    closed spec fn view(&self) -> Seq<char> {
        self.s@
    }
}

impl<'a> Args<'a> {
    pub fn wrap(s: &'a str) -> (r: Self)
        ensures
            r@ == s@,
    {
        Args { s }
    }

    /// The unconsumed rest of the line without its leading white space.
    pub fn as_str(&self) -> (r: &'a str)
        ensures
            r@ == trim_start_of(self@),
    {
        proof {
            lemma_skip_white_bounds(self.s@, 0);
        }
        let start = skip_white_from(self.s, 0);
        let n = self.s.unicode_len();
        self.s.substring_char(start, n)
    }

    /// Takes the next word: the longest run of non-white characters after
    /// the leading white space. The white space that ends the word stays.
    pub fn next(&mut self) -> (r: Option<&'a str>)
        ensures
            token_start(old(self)@) == old(self)@.len() ==> r is None && final(self)@.len() == 0,
            token_start(old(self)@) < old(self)@.len() ==> r is Some && r->0@ == old(self)@.subrange(
                token_start(old(self)@),
                token_end(old(self)@),
            ) && final(self)@ == old(self)@.subrange(token_end(old(self)@), old(self)@.len() as int),
    {
        proof {
            lemma_token_bounds(self.s@);
        }
        let n = self.s.unicode_len();
        let start = skip_white_from(self.s, 0);
        let end = find_white_from(self.s, start);
        let word = self.s.substring_char(start, end);
        let rest = self.s.substring_char(end, n);
        self.s = rest;
        if start == n {
            None
        } else {
            Some(word)
        }
    }
}

} // verus!
