use vstd::prelude::*;

verus! {

/// Which pane the detail area of the interface shows.
#[derive(Default, Clone, Copy, PartialEq, Eq, Structural, Debug)]
pub enum Mode {
    #[default]
    Version,
    Subscription,
}

impl Mode {
    /// The pane selected by a menu index: 1 is the subscription pane,
    /// every other index falls back to the version pane.
    pub fn from(value: i32) -> (m: Mode)
        ensures
            m == (if value == 1 { Mode::Subscription } else { Mode::Version }),
    {
        match value {
            1 => Mode::Subscription,
            _ => Mode::Version,
        }
    }

    /// The menu index of this pane.
    pub fn into(self) -> (v: i32)
        ensures
            v == (if self == Mode::Subscription { 1i32 } else { 0i32 }),
    {
        match self {
            Mode::Version => 0,
            Mode::Subscription => 1,
        }
    }
}

} // verus!
