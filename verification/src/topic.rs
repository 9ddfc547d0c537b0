//! Topic names and topic filters.

use mqtt3::ToTopicPath;
use vstd::prelude::*;

verus! {

/// The level separator of a topic.
pub open spec fn is_separator(c: char) -> bool {
    c == '/'
}

/// The two wildcard characters of a topic filter.
pub open spec fn is_wildcard(c: char) -> bool {
    c == '+' || c == '#'
}

/// A topic filter is well formed when every wildcard character stands alone
/// in its level: it is preceded by the start of the text or a separator, and
/// followed by the end of the text or a separator.
pub open spec fn is_topic_filter(path: Seq<char>) -> bool {
    forall|i: int|
        0 <= i < path.len() && is_wildcard(#[trigger] path[i]) ==> {
            &&& (i == 0 || is_separator(path[i - 1]))
            &&& (i + 1 == path.len() || is_separator(path[i + 1]))
        }
}

/// A topic name is a topic without any wildcard character.
pub open spec fn is_topic_name(path: Seq<char>) -> bool {
    forall|i: int| 0 <= i < path.len() ==> !is_wildcard(#[trigger] path[i])
}

/// Whether `path` can be published to.
///
/// Calls `mqtt3::ToTopicPath::to_topic_name`, which splits the text at `/`,
/// rejects a level that holds `+` or `#` beside other characters, and then
/// rejects any level that is a wildcard. What is left are exactly the texts
/// without a wildcard character.
#[verifier::external_body]
pub(crate) fn valid_topic_name(path: &str) -> (ok: bool)
    ensures
        ok == is_topic_name(path@),
{
    path.to_topic_name().is_ok()
}

/// Whether `path` can be subscribed to.
///
/// Calls `mqtt3::ToTopicPath::to_topic_path`, which splits the text at `/`
/// and rejects a level that holds `+` or `#` beside other characters.
#[verifier::external_body]
pub(crate) fn valid_topic_filter(path: &str) -> (ok: bool)
    ensures
        ok == is_topic_filter(path@),
{
    path.to_topic_path().is_ok()
}

} // verus!
