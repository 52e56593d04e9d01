use vstd::prelude::*;

use crate::status::StatusTweet;
use crate::text::{join_strings, join_with};
use crate::tweet::Tweet;

verus! {

/// The blocklist could not be compiled into a match pattern.
#[derive(Clone, Copy, Debug, PartialEq, Eq, Structural)]
pub struct PatternError;

/// What `str::to_lowercase` returns: a function of the characters alone.
pub uninterp spec fn lower_of(s: Seq<char>) -> Seq<char>;

/// What `str::trim` returns: a function of the characters alone.
pub uninterp spec fn trim_of(s: Seq<char>) -> Seq<char>;

/// Whether `regex::Regex::new` accepts a pattern: a function of the pattern
/// alone.
pub uninterp spec fn pattern_compiles(p: Seq<char>) -> bool;

/// What `regex::Regex::is_match` returns for a compiled pattern and a
/// haystack: a function of the two alone.
pub uninterp spec fn regex_matches(p: Seq<char>, text: Seq<char>) -> bool;

/// Relies on str::to_lowercase (std): the result depends on the characters
/// alone.
#[verifier::external_body]
fn lowercase(s: &str) -> (r: String)
    ensures
        r@ == lower_of(s@),
{
    s.to_lowercase()
}

/// Relies on str::trim (std): the result depends on the characters alone.
#[verifier::external_body]
fn trim<'a>(s: &'a str) -> (r: &'a str)
    ensures
        r@ == trim_of(s@),
{
    s.trim()
}

#[verifier::external_type_specification]
#[verifier::external_body]
pub struct ExRegexError(regex::Error);

/// Relies on regex::Regex::new and regex::Regex::is_match: whether a pattern
/// compiles, and whether a compiled pattern matches a haystack, are
/// functions of the pattern and the haystack alone.
#[verifier::external_body]
fn regex_match(pattern: &str, text: &str) -> (r: Result<bool, regex::Error>)
    ensures
        r is Ok <==> pattern_compiles(pattern@),
        r matches Ok(m) ==> m == regex_matches(pattern@, text@),
{
    match regex::Regex::new(pattern) {
        Ok(re) => Ok(re.is_match(text)),
        Err(e) => Err(e),
    }
}

/// The text a record is classified on: lower-cased, then trimmed.
pub open spec fn folded(text: Seq<char>) -> Seq<char> {
    trim_of(lower_of(text))
}

/// The configured block patterns combined as a single alternation.
pub open spec fn blocklist_pattern(black: Seq<Seq<char>>) -> Seq<char> {
    join_with(black, seq!['|'])
}

/// Whether the blocklist flags a text. An empty blocklist never matches.
pub open spec fn discard_hit(black: Seq<Seq<char>>, text: Seq<char>) -> bool {
    black.len() > 0 && regex_matches(blocklist_pattern(black), folded(text))
}

/// The fields of a record that classification never touches.
pub open spec fn kept_fields(a: Tweet, b: Tweet) -> bool {
    &&& b.id == a.id
    &&& b.text == a.text
    &&& b.url == a.url
    &&& b.screen_name == a.screen_name
}

/// Discards a record whose text the blocklist flags. The patterns are
/// combined as one alternation and matched against the lower-cased, trimmed
/// text; an empty blocklist matches nothing and is never an error. The
/// record is left untouched on any error, and its status only ever moves by
/// the transition rule.
pub fn to_decide_discard(tweet: &mut Tweet, black_list: &Vec<String>) -> (r: Result<
    (),
    PatternError,
>)
    ensures
        kept_fields(*old(tweet), *final(tweet)),
        black_list@.len() == 0 ==> r is Ok && *final(tweet) == *old(tweet),
        black_list@.len() > 0 ==> (r is Ok <==> pattern_compiles(
            blocklist_pattern(black_list@.map_values(|p: String| p@)),
        )),
        r is Err ==> *final(tweet) == *old(tweet),
        r is Ok ==> final(tweet).status == (if discard_hit(
            black_list@.map_values(|p: String| p@),
            old(tweet).text@,
        ) {
            old(tweet).status.spec_transition(StatusTweet::Discarted)
        } else {
            old(tweet).status
        }),
{
    if black_list.len() == 0 {
        return Ok(());
    }
    let pattern = join_strings(black_list, "|");
    proof {
        reveal_strlit("|");
        assert("|"@ =~= seq!['|']);
    }
    let lowered = lowercase(tweet.text.as_str());
    let folded_text = trim(lowered.as_str());
    match regex_match(pattern.as_str(), folded_text) {
        Ok(m) => {
            if m {
                tweet.status = tweet.status.transition(StatusTweet::Discarted);
            }
            Ok(())
        },
        Err(_) => Err(PatternError),
    }
}

} // verus!
