use vstd::prelude::*;

verus! {

/// Style variants of a text input.
#[derive(Debug, Clone, Copy, PartialEq, Eq, Structural)]
pub enum TextInputStyle {
    Default,
    AddonsQuery,
}

impl Default for TextInputStyle {
    fn default() -> (r: Self)
        ensures
            r == TextInputStyle::Default,
    {
        TextInputStyle::Default
    }
}

} // verus!
