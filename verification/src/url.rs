//! Reading the parts of a link that the providers need: whether a domain
//! occurs in it, its last path segment and its leading host label.

use vstd::prelude::*;
use crate::text::{
    after_last, contains, first_index, has_substring, index_of_char_from, replace,
    replaced, suffix_after_last, to_chars,
};

verus! {

/// The last path segment of `url`: what follows its last `/`, or all of it.
pub open spec fn last_part(url: Seq<char>) -> Seq<char> {
    after_last(url, '/')
}

/// The leading host label of `url`: the text before its first `.`, without
/// anything up to the last `/` in that text (the scheme and its slashes).
pub open spec fn subdomain(url: Seq<char>) -> Seq<char> {
    after_last(url.take(first_index(url, '.')), '/')
}

/// `url` with each double quote written as its percent escape.
pub open spec fn quotes_escaped(url: Seq<char>) -> Seq<char> {
    replaced(url, seq!['"'], seq!['%', '2', '2'])
}

/// Link inspection helpers.
pub struct UrlMisc;

impl UrlMisc {
    /// Whether `domain` occurs in `url`. The test is a literal,
    /// case-sensitive search in the whole link, not only in its host.
    pub fn check_domain(url: &str, domain: &str) -> (r: bool)
        ensures
            r == contains(url@, domain@),
    {
        has_substring(url, domain)
    }

    /// The last path segment of `url`.
    pub fn get_last_part(url: &str) -> (r: String)
        ensures
            r@ == last_part(url@),
    {
        suffix_after_last(url, '/')
    }

    /// The leading host label of `url`, such as `fr` in
    /// `https://fr.wikipedia.org/wiki/Chat`.
    pub fn get_subdomain(url: &str) -> (r: String)
        ensures
            r@ == subdomain(url@),
    {
        let chars = to_chars(url);
        assert(chars@.skip(0) =~= url@);
        let dot: usize = index_of_char_from(&chars, '.', 0);
        assert(url@.subrange(0, dot as int) =~= url@.take(dot as int));
        suffix_after_last(url.substring_char(0, dot), '/')
    }

    /// `url` with each double quote replaced by `%22`, so that a quoted link
    /// can be searched and rewritten literally.
    pub fn escape_quotes(url: &str) -> (r: String)
        ensures
            r@ == quotes_escaped(url@),
    {
        proof {
            reveal_strlit("\"");
            reveal_strlit("%22");
            assert("\""@ =~= seq!['"']);
            assert("%22"@ =~= seq!['%', '2', '2']);
        }
        replace(url, "\"", "%22")
    }
}

} // verus!
