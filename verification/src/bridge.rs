//! Messages relayed from another network arrive as `<nick> text`. The bridge
//! prefix is cut off before a message is read as a command.

use vstd::prelude::*;

verus! {

/// The pattern of a bridge prefix: `<`, the shortest run of characters up to
/// `> `, at the very start of the message.
pub open spec fn bridge_pattern() -> Seq<char> {
    "^<.*?> "@
}

/// What `regex` gives for replacing the first match of `pattern` in `text` by
/// `replacement`, or `None` where `regex` does not accept the pattern.
pub uninterp spec fn regex_replaced(
    pattern: Seq<char>,
    text: Seq<char>,
    replacement: Seq<char>,
) -> Option<Seq<char>>;

/// Calls `regex::Regex::new` on `pattern` and, where that succeeds,
/// `regex::Regex::replace` on `text` with `replacement`. Nothing is proved of
/// the result: it is taken to be a function of the three texts alone, named
/// `regex_replaced`, and `None` stands for a pattern that did not compile.
#[verifier::external_body]
fn replace_first(pattern: &str, text: &str, replacement: &str) -> (r: Option<String>)
    ensures
        r is Some <==> regex_replaced(pattern@, text@, replacement@) is Some,
        r matches Some(s) ==> regex_replaced(pattern@, text@, replacement@) == Some(s@),
{
    match regex::Regex::new(pattern) {
        Ok(re) => Some(re.replace(text, replacement).into_owned()),
        Err(_) => None,
    }
}

/// A message once the replacement has been tried: the replaced text where
/// there is one, else the message as it came.
pub open spec fn stripped_or(message: Seq<char>, replaced: Option<Seq<char>>) -> Seq<char> {
    match replaced {
        Some(s) => s,
        None => message,
    }
}

/// A message without its bridge prefix.
pub open spec fn bridge_stripped(message: Seq<char>) -> Seq<char> {
    stripped_or(message, regex_replaced(bridge_pattern(), message, Seq::empty()))
}

/// Picks the text to go on with once the replacement has been tried.
pub fn keep_or_replace(message: &str, replaced: Option<String>) -> (r: String)
    ensures
        r@ == stripped_or(
            message@,
            match replaced {
                Some(s) => Some(s@),
                None => None,
            },
        ),
{
    match replaced {
        Some(s) => s,
        None => String::from_str(message),
    }
}

/// Cuts the bridge prefix off `message`. A message without one comes back
/// unchanged as far as `regex` leaves a text without a match unchanged.
pub fn strip_bridge_prefix(message: &str) -> (r: String)
    ensures
        r@ == bridge_stripped(message@),
{
    let replaced = replace_first("^<.*?> ", message, "");
    proof {
        reveal_strlit("");
        assert(""@ =~= Seq::<char>::empty());
    }
    keep_or_replace(message, replaced)
}

} // verus!
