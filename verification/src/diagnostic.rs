//! The text by which a handle shows itself.
use vstd::prelude::*;

verus! {

/// What `<str as core::fmt::Debug>::fmt` writes for a string: the string
/// between double quotes, with the characters escaped that the standard
/// library escapes there.
pub uninterp spec fn debug_text(text: Seq<char>) -> Seq<char>;

/// Formats a string with `{:?}`, that is by `<str as core::fmt::Debug>::fmt`.
/// The result is a function of the string alone, and is named, not spelled
/// out.
#[verifier::external_body]
pub(crate) fn quote(text: &str) -> (shown: String)
    ensures
        shown@ == debug_text(text@),
{
    format!("{:?}", text)
}

/// `String::push_str` appends the given string to the end of the receiver.
pub assume_specification[ String::push_str ](text: &mut String, tail: &str)
    ensures
        final(text)@ == old(text)@ + tail@,
;

/// The rendering of a handle whose mount point is shown as `shown`. The worker
/// appears as a fixed marker that tells nothing of its state.
pub open spec fn rendering(shown: Seq<char>) -> Seq<char> {
    "BackgroundSession { mountpoint: "@ + shown + ", guard: JoinGuard<()> }"@
}

/// Renders a handle, given its mount point as it is to be shown.
pub fn render(shown: &str) -> (text: String)
    ensures
        text@ == rendering(shown@),
{
    let mut text = "BackgroundSession { mountpoint: ".to_owned();
    text.push_str(shown);
    text.push_str(", guard: JoinGuard<()> }");
    text
}

} // verus!
