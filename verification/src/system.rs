//! What the program takes from its surroundings: the local time as a stamp,
//! and the cleaning of a list line before it is handed to a script.

use vstd::prelude::*;
use crate::text::{contains, occurs_at};

verus! {

/// What `regex` makes of `text` when every match of `pattern` is replaced
/// by `with`; `None` where `pattern` is not a regular expression that the
/// crate accepts.
pub uninterp spec fn regex_replaced_all(pattern: Seq<char>, text: Seq<char>, with: Seq<char>)
    -> Option<Seq<char>>;

/// Compiles `pattern` with `regex::Regex::new` and calls
/// `Regex::replace_all`. The contract gives the outcome a name and claims
/// that it depends on the three texts alone.
#[verifier::external_body]
fn regex_replace_all(pattern: &str, text: &str, with: &str) -> (replaced: Option<String>)
    ensures
        match replaced {
            Some(result) => regex_replaced_all(pattern@, text@, with@) == Some(result@),
            None => regex_replaced_all(pattern@, text@, with@) is None,
        },
{
    match regex::Regex::new(pattern) {
        Ok(compiled) => Some(compiled.replace_all(text, with).into_owned()),
        Err(_) => None,
    }
}

/// Reads the clock with `chrono::Local::now` and formats the date as
/// `%Y-%m-%d` and the time of day as `%H:%M:%S`. Nothing is claimed of the
/// two texts: they change from call to call.
#[verifier::external_body]
fn local_date_and_clock() -> (stamp: (String, String)) {
    let now = chrono::Local::now();
    (now.format("%Y-%m-%d").to_string(), now.format("%H:%M:%S").to_string())
}

/// A date and a time of day as one stamp.
pub open spec fn stamp_of(date: Seq<char>, clock: Seq<char>) -> Seq<char> {
    date + " "@ + clock
}

/// Time and scripts.
pub struct System;

impl System {
    /// The stamp made of a date and a time of day, one space between them.
    pub fn format_date_time(date: &str, clock: &str) -> (stamp: String)
        ensures
            stamp@ == stamp_of(date@, clock@),
    {
        let mut stamp = date.to_owned();
        stamp.append(" ");
        stamp.append(clock);
        stamp
    }

    /// The local date and time as a stamp. Whatever the clock says, the
    /// stamp is a date and a time with a space between them.
    pub fn date_time() -> (stamp: String)
        ensures
            exists|date: Seq<char>, clock: Seq<char>| stamp@ == stamp_of(date, clock),
            contains(stamp@, " "@),
    {
        let (date, clock) = local_date_and_clock();
        let stamp = Self::format_date_time(date.as_str(), clock.as_str());
        proof {
            reveal_strlit(" ");
            assert(stamp@.subrange(date@.len() as int, date@.len() as int + 1) =~= " "@);
            assert(occurs_at(stamp@, " "@, date@.len() as int));
        }
        stamp
    }

    /// `line` without anything that `pattern` matches, ready to be handed to
    /// a script; `None` where `pattern` is no regular expression.
    pub fn clean_line(line: &str, pattern: &str) -> (cleaned: Option<String>)
        ensures
            match cleaned {
                Some(text) => regex_replaced_all(pattern@, line@, ""@) == Some(text@),
                None => regex_replaced_all(pattern@, line@, ""@) is None,
            },
    {
        regex_replace_all(pattern, line, "")
    }
}

} // verus!
