//! What the page view shows for each link.

use vstd::prelude::*;

verus! {

/// The label of a link: its text, or its URL when the text is empty.
pub open spec fn link_label_spec(text: Seq<char>, url: Seq<char>) -> Seq<char> {
    if text.len() == 0 {
        url
    } else {
        text
    }
}

/// The label shown for a numbered link of a page.
pub fn link_label<'a>(text: &'a str, url: &'a str) -> (r: &'a str)
    ensures
        r@ == link_label_spec(text@, url@),
{
    if text.unicode_len() == 0 {
        url
    } else {
        text
    }
}

} // verus!
