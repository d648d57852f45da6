//! The panes of the interface as one closed sum, with the contracts the
//! router relies on: exactly how a key moves each pane, which pane holds
//! focus, and how broadcast actions change pane state.

use crate::action::Action;
use crate::menu::subscription::{sub_step, update_step, SubScription};
use crate::menu::version::Version;
use vstd::prelude::*;

verus! {

/// A key press, as the router and the panes see it. The surrounding binary
/// reduces raw terminal events to this; anything the panes do not
/// distinguish arrives as `Other`.
#[derive(Debug, Clone, Copy)]
pub enum KeyPress {
    Char(char),
    Enter,
    Esc,
    Up,
    Down,
    Left,
    Right,
    Tab,
    Backspace,
    Other,
}

/// A broadcast action a view could not apply to its state. Views ignore
/// actions they do not recognise, so the dispatch loop never stops on one
/// pane's account.
#[derive(Debug)]
pub struct UpdateError;

/// One pane of the interface. The set of panes is closed, so routing is a
/// plain match and every broadcast is checked against every pane.
#[derive(Debug)]
pub enum ViewActor {
    /// The static version pane.
    Version(Version),
    /// The subscription pane.
    SubScription(SubScription),
    /// The frame counter; it only takes part in focus cycling, the counting
    /// itself is rendering work and lives in the surrounding binary.
    Fps { focus: bool },
}

impl ViewActor {
    /// The pane's own invariants hold.
    pub open spec fn wf(&self) -> bool {
        match self {
            ViewActor::SubScription(s) => s.wf(),
            _ => true,
        }
    }

    /// Whether the pane holds focus.
    pub open spec fn spec_is_focus(&self) -> bool {
        match self {
            ViewActor::Version(v) => v.focus,
            ViewActor::SubScription(s) => s.focus,
            ViewActor::Fps { focus } => *focus,
        }
    }

    /// Whether the pane holds focus.
    pub fn is_focus(&self) -> (r: bool)
        ensures
            r == self.spec_is_focus(),
    {
        match self {
            ViewActor::Version(v) => v.focus,
            ViewActor::SubScription(s) => s.focus,
            ViewActor::Fps { focus } => *focus,
        }
    }

    /// Grants or takes focus; nothing else of the pane moves.
    pub fn set_focus(&mut self, f: bool)
        requires
            old(self).wf(),
        ensures
            final(self).wf(),
            focus_step(*old(self), *final(self), f),
    {
        match self {
            ViewActor::Version(v) => {
                v.focus = f;
            },
            ViewActor::SubScription(s) => {
                s.focus = f;
            },
            ViewActor::Fps { focus } => {
                *focus = f;
            },
        }
    }

    /// Hands one key to the pane; the result says whether the pane consumed
    /// it or left it to the router's global bindings.
    pub fn handle_event(&mut self, key: KeyPress) -> (consumed: bool)
        requires
            old(self).wf(),
        ensures
            final(self).wf(),
            view_key_step(*old(self), *final(self), key, consumed),
    {
        match self {
            ViewActor::SubScription(s) => s.handle_event(key),
            _ => false,
        }
    }

    /// Pops the oldest pending action of the pane's private queue.
    pub fn get_events(&mut self) -> (r: Option<Action>)
        requires
            old(self).wf(),
        ensures
            final(self).wf(),
            poll_step(*old(self), *final(self), r),
    {
        match self {
            ViewActor::SubScription(s) => s.get_events(),
            _ => None,
        }
    }

    /// Applies one broadcast action; a pane that does not recognise the
    /// action leaves its state as it was rather than fail.
    pub fn update(&mut self, action: Option<&Action>) -> (r: Result<(), UpdateError>)
        requires
            old(self).wf(),
        ensures
            final(self).wf(),
            r is Ok,
            view_update_step(*old(self), *final(self), action),
    {
        match self {
            ViewActor::SubScription(s) => s.update(action),
            _ => Ok(()),
        }
    }

    /// The pane's display name.
    pub fn name(&self) -> (r: String)
        ensures
            r@ == view_name(*self),
    {
        match self {
            ViewActor::Version(_) => "版本".to_owned(),
            ViewActor::SubScription(_) => "订阅".to_owned(),
            ViewActor::Fps { .. } => "FpsCount".to_owned(),
        }
    }

    /// The pane's preferred height in rows when focused.
    pub fn length(&self) -> (r: u16)
        ensures
            r == view_length(*self),
    {
        match self {
            ViewActor::Version(_) => 5,
            ViewActor::SubScription(_) => 20,
            ViewActor::Fps { .. } => 1,
        }
    }
}

/// The pane's display name.
pub open spec fn view_name(v: ViewActor) -> Seq<char> {
    match v {
        ViewActor::Version(_) => "版本"@,
        ViewActor::SubScription(_) => "订阅"@,
        ViewActor::Fps { .. } => "FpsCount"@,
    }
}

/// The pane's preferred height in rows when focused.
pub open spec fn view_length(v: ViewActor) -> u16 {
    match v {
        ViewActor::Version(_) => 5,
        ViewActor::SubScription(_) => 20,
        ViewActor::Fps { .. } => 1,
    }
}

/// Whether the pane consumes `key`: only the subscription pane takes keys,
/// according to its mode.
pub open spec fn view_consumes(v: ViewActor, key: KeyPress) -> bool {
    match v {
        ViewActor::SubScription(s) => crate::menu::subscription::sub_consumes(s.mode, key),
        _ => false,
    }
}

/// Focus moved to `f` and nothing else of the pane changed.
pub open spec fn focus_step(pre: ViewActor, post: ViewActor, f: bool) -> bool {
    &&& post.spec_is_focus() == f
    &&& match (pre, post) {
        (ViewActor::Version(_), ViewActor::Version(_)) => true,
        (ViewActor::SubScription(a), ViewActor::SubScription(b)) => b == (SubScription {
            focus: b.focus,
            ..a
        }),
        (ViewActor::Fps { .. }, ViewActor::Fps { .. }) => true,
        _ => false,
    }
}

/// What one key does to a pane: the subscription pane steps its state
/// machine; every other pane ignores keys and leaves them to the router.
pub open spec fn view_key_step(pre: ViewActor, post: ViewActor, key: KeyPress, consumed: bool) -> bool {
    match (pre, post) {
        (ViewActor::SubScription(a), ViewActor::SubScription(b)) => sub_step(a, b, key, consumed),
        _ => !consumed && post == pre,
    }
}

/// What polling a pane's queue returns: the subscription pane pops its
/// oldest pending action; every other pane has none.
pub open spec fn poll_step(pre: ViewActor, post: ViewActor, r: Option<Action>) -> bool {
    match (pre, post) {
        (ViewActor::SubScription(a), ViewActor::SubScription(b)) => {
            &&& (a.actions@.len() > 0 ==> r == Some(a.actions@[0]) && b.actions@
                == a.actions@.drop_first())
            &&& (a.actions@.len() == 0 ==> r is None && b.actions@ == a.actions@)
            &&& b == (SubScription { actions: b.actions, ..a })
        },
        _ => r is None && post == pre,
    }
}

/// What one broadcast action does to a pane.
pub open spec fn view_update_step(pre: ViewActor, post: ViewActor, action: Option<&Action>) -> bool {
    match (pre, post) {
        (ViewActor::SubScription(a), ViewActor::SubScription(b)) => update_step(a, b, action),
        _ => post == pre,
    }
}

} // verus!
