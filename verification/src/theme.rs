//! The theme shared through the page: a foreground and a background color,
//! and the inline style the themed button is drawn with.

use vstd::prelude::*;
use vstd::string::StringExecFns;

verus! {

/// Foreground and background colors, as CSS color strings.
#[derive(Clone, Debug, PartialEq)]
pub struct Theme {
    pub foreground: String,
    pub background: String,
}

/// Properties of the themed button: the theme it draws its colors from.
#[derive(Clone, Debug, PartialEq)]
pub struct Props {
    pub theme: Theme,
}

/// The inline style of the themed button: the theme's background color,
/// then its foreground as the text color.
pub open spec fn button_style_spec(t: Theme) -> Seq<char> {
    "background: "@ + t.background@ + "; color: "@ + t.foreground@
}

impl Theme {
    /// The style attribute the themed button is rendered with.
    pub fn button_style(&self) -> (r: String)
        ensures
            r@ == button_style_spec(*self),
    {
        let mut s = String::from_str("background: ");
        s.append(self.background.as_str());
        s.append("; color: ");
        s.append(self.foreground.as_str());
        s
    }
}

impl Default for Theme {
    /// The theme the page starts with: black text on a light gray background.
    fn default() -> (t: Theme)
        ensures
            t.foreground@ == "#000000"@,
            t.background@ == "#eeeeee"@,
    {
        Theme { foreground: String::from_str("#000000"), background: String::from_str("#eeeeee") }
    }
}

} // verus!
