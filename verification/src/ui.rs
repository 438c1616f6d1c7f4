//! Text content shared by the screens' render functions.
//!
//! A screen's render output is a pure function of its state.  The library
//! computes the lines of text a frame shows; the drawing surface places
//! them, colors them and adds borders.

use vstd::prelude::*;

verus! {

/// One line of a menu body: its text, and whether it is the line of the
/// active item (the drawing surface highlights active lines).
#[derive(Clone, Debug, PartialEq, Eq)]
pub struct MenuLine {
    pub text: String,
    pub active: bool,
}

/// The footer's alternating key/description spans: the quit and menu keys.
pub fn render_footer_spans() -> (spans: Vec<String>)
    ensures
        spans@.len() == 4,
        spans@[0]@ == " Q "@,
        spans@[1]@ == " Quit "@,
        spans@[2]@ == " M "@,
        spans@[3]@ == " Menu "@,
{
    let mut spans: Vec<String> = Vec::new();
    spans.push(String::from_str(" Q "));
    spans.push(String::from_str(" Quit "));
    spans.push(String::from_str(" M "));
    spans.push(String::from_str(" Menu "));
    spans
}

} // verus!
