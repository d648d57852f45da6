//! The subscription pane: a list of ingested profiles, a one-line input for
//! new subscription URLs and a detail page, driven by a three-state
//! interaction mode. The pane owns a private first-in-first-out queue of
//! actions that the dispatcher drains one element per tick.

use crate::action::Action;
use crate::input::InputBuffer;
use crate::prfitem::PrfItem;
use crate::view::{KeyPress, UpdateError};
use std::collections::VecDeque;
use vstd::prelude::*;

verus! {

/// The interaction mode of the subscription pane.
#[derive(Default, Debug, Clone, Copy, PartialEq, Eq, Structural)]
pub enum Mode {
    /// Keys edit the URL input line.
    Input,
    /// Keys move the list selection or switch modes.
    #[default]
    Normal,
    /// The detail page is open.
    Detail,
}

/// The cached profile list and its selection cursor.
#[derive(Default, Debug)]
pub struct PrfItemList {
    pub items: Vec<PrfItem>,
    pub selected: Option<usize>,
}

impl PrfItemList {
    /// The cursor stays inside the list.
    pub open spec fn wf(&self) -> bool {
        match self.selected {
            Some(i) => i < self.items@.len(),
            None => true,
        }
    }

    /// Replaces the cached items; the caller re-establishes the cursor.
    pub fn set_items(&mut self, items: Vec<PrfItem>)
        ensures
            final(self).items == items,
            final(self).selected == old(self).selected,
    {
        self.items = items;
    }
}

/// A cursor clamped to a list of `len` items: an unset cursor stays unset,
/// one past the end moves to the last item, and any cursor on an empty list
/// becomes unset.
pub open spec fn clamped(sel: Option<usize>, len: nat) -> Option<usize> {
    match sel {
        None => None,
        Some(i) => if len == 0 {
            None
        } else if i < len {
            Some(i)
        } else {
            Some((len - 1) as usize)
        },
    }
}

/// The cursor after one step down: the first item when nothing is selected,
/// otherwise one further, saturating at the last item. An empty list keeps
/// the cursor unset.
pub open spec fn next_sel(sel: Option<usize>, len: nat) -> Option<usize> {
    if len == 0 {
        None
    } else {
        match sel {
            None => Some(0usize),
            Some(i) => if i + 1 < len {
                Some((i + 1) as usize)
            } else {
                Some((len - 1) as usize)
            },
        }
    }
}

/// The cursor after one step up: the first item when nothing is selected,
/// otherwise one back, saturating at the first item. An empty list keeps
/// the cursor unset.
pub open spec fn prev_sel(sel: Option<usize>, len: nat) -> Option<usize> {
    if len == 0 {
        None
    } else {
        match sel {
            None => Some(0usize),
            Some(i) => if i > 0 {
                Some((i - 1) as usize)
            } else {
                Some(0usize)
            },
        }
    }
}

/// The subscription pane.
#[derive(Debug)]
pub struct SubScription {
    /// Whether this pane holds focus.
    pub focus: bool,
    /// The interaction mode.
    pub mode: Mode,
    /// Whether the URL input popup is shown.
    pub input_popua: bool,
    /// The URL input line.
    pub input_state: InputBuffer,
    /// The help line shown beside the input.
    pub input_help: String,
    /// The private queue of actions this pane has produced, oldest first.
    pub actions: VecDeque<Action>,
    /// The cached profile list.
    pub pref: PrfItemList,
    /// The index last confirmed with the select key.
    pub selected_index: usize,
}

/// The help line outside of input mode.
pub open spec fn idle_help() -> Seq<char> {
    "输入"@
}

/// The help line while the input popup takes keys.
pub open spec fn editing_help() -> Seq<char> {
    "输入中， 按 Esc 退出编辑"@
}

impl SubScription {
    /// The editor and the list cursor are well formed.
    pub open spec fn wf(&self) -> bool {
        &&& self.input_state.wf()
        &&& self.pref.wf()
    }

    /// A fresh pane: normal mode, nothing cached, and one queued request to
    /// read the stored profile list.
    pub fn new() -> (r: SubScription)
        ensures
            r.wf(),
            r.focus == false,
            r.mode == Mode::Normal,
            r.input_popua == false,
            r.input_state.chars@.len() == 0,
            r.input_state.cursor == 0,
            r.input_help@ == idle_help(),
            r.actions@.len() == 1,
            r.actions@[0] == Action::SubScriptionUpdate,
            r.pref.items@.len() == 0,
            r.pref.selected is None,
            r.selected_index == 0,
    {
        let mut actions: VecDeque<Action> = VecDeque::new();
        actions.push_back(Action::SubScriptionUpdate);
        SubScription {
            focus: false,
            mode: Mode::Normal,
            input_popua: false,
            input_state: InputBuffer::new(),
            input_help: "输入".to_owned(),
            actions,
            pref: PrfItemList { items: Vec::new(), selected: None },
            selected_index: 0,
        }
    }

    /// Moves the list cursor one step down, saturating at the end.
    fn select_next(&mut self)
        requires
            old(self).wf(),
        ensures
            final(self).wf(),
            final(self).pref.selected == next_sel(old(self).pref.selected, old(self).pref.items@.len()),
            final(self).pref.items == old(self).pref.items,
            *final(self) == (SubScription { pref: final(self).pref, ..*old(self) }),
    {
        let len = self.pref.items.len();
        if len == 0 {
            self.pref.selected = None;
        } else {
            self.pref.selected = match self.pref.selected {
                None => Some(0),
                Some(i) => if i + 1 < len {
                    Some(i + 1)
                } else {
                    Some(len - 1)
                },
            };
        }
    }

    /// Moves the list cursor one step up, saturating at the start.
    fn select_previous(&mut self)
        requires
            old(self).wf(),
        ensures
            final(self).wf(),
            final(self).pref.selected == prev_sel(old(self).pref.selected, old(self).pref.items@.len()),
            final(self).pref.items == old(self).pref.items,
            *final(self) == (SubScription { pref: final(self).pref, ..*old(self) }),
    {
        let len = self.pref.items.len();
        if len == 0 {
            self.pref.selected = None;
        } else {
            self.pref.selected = match self.pref.selected {
                None => Some(0),
                Some(i) => if i > 0 {
                    Some(i - 1)
                } else {
                    Some(0)
                },
            };
        }
    }

    /// Confirms the item under the cursor.
    fn selected(&mut self)
        requires
            old(self).wf(),
        ensures
            final(self).wf(),
            final(self).selected_index == (match old(self).pref.selected {
                Some(i) => i,
                None => old(self).selected_index,
            }),
            *final(self) == (SubScription { selected_index: final(self).selected_index, ..*old(self) }),
    {
        match self.pref.selected {
            Some(i) => {
                self.selected_index = i;
            },
            None => {},
        }
    }

    /// Handles one key in normal mode.
    pub fn normal_event(&mut self, key: KeyPress) -> (consumed: bool)
        requires
            old(self).wf(),
        ensures
            final(self).wf(),
            normal_step(*old(self), *final(self), key, consumed),
    {
        match key {
            KeyPress::Char(c) => {
                if c == 'a' {
                    self.input_popua = !self.input_popua;
                    true
                } else if c == 'i' {
                    self.input_help = "输入中， 按 Esc 退出编辑".to_owned();
                    self.mode = Mode::Input;
                    true
                } else if c == ' ' {
                    self.selected();
                    true
                } else {
                    false
                }
            },
            KeyPress::Down => {
                self.select_next();
                true
            },
            KeyPress::Up => {
                self.select_previous();
                true
            },
            KeyPress::Enter => {
                if self.pref.selected.is_some() {
                    self.mode = Mode::Detail;
                }
                true
            },
            _ => false,
        }
    }

    /// Handles one key in input mode.
    pub fn input_event(&mut self, key: KeyPress) -> (consumed: bool)
        requires
            old(self).wf(),
        ensures
            final(self).wf(),
            input_step(*old(self), *final(self), key, consumed),
    {
        match key {
            KeyPress::Esc => {
                self.mode = Mode::Normal;
                self.input_help = "输入".to_owned();
                true
            },
            KeyPress::Enter => {
                let url = self.input_state.text();
                self.actions.push_back(Action::SubScription(url));
                proof {
                    assert(self.actions@.subrange(0, old(self).actions@.len() as int) =~= old(
                        self,
                    ).actions@);
                }
                self.mode = Mode::Normal;
                self.input_help = "输入".to_owned();
                true
            },
            KeyPress::Char(c) => {
                self.input_state.insert_char(c);
                true
            },
            KeyPress::Backspace => {
                self.input_state.backspace();
                true
            },
            KeyPress::Left => {
                self.input_state.move_left();
                true
            },
            KeyPress::Right => {
                self.input_state.move_right();
                true
            },
            _ => true,
        }
    }

    /// Handles one key in detail mode: escape returns to normal mode, every
    /// other key acts as it would in normal mode.
    pub fn detail_event(&mut self, key: KeyPress) -> (consumed: bool)
        requires
            old(self).wf(),
        ensures
            final(self).wf(),
            detail_step(*old(self), *final(self), key, consumed),
    {
        match key {
            KeyPress::Esc => {
                self.mode = Mode::Normal;
                true
            },
            _ => self.normal_event(key),
        }
    }

    /// Routes one key to the handler of the current mode.
    pub fn handle_event(&mut self, key: KeyPress) -> (consumed: bool)
        requires
            old(self).wf(),
        ensures
            final(self).wf(),
            sub_step(*old(self), *final(self), key, consumed),
    {
        match self.mode {
            Mode::Normal => self.normal_event(key),
            Mode::Input => self.input_event(key),
            Mode::Detail => self.detail_event(key),
        }
    }

    /// Pops the oldest queued action; the rest of the queue moves up.
    pub fn get_events(&mut self) -> (r: Option<Action>)
        requires
            old(self).wf(),
        ensures
            final(self).wf(),
            old(self).actions@.len() > 0 ==> r == Some(old(self).actions@[0])
                && final(self).actions@ == old(self).actions@.drop_first(),
            old(self).actions@.len() == 0 ==> r is None
                && final(self).actions@ == old(self).actions@,
            *final(self) == (SubScription { actions: final(self).actions, ..*old(self) }),
    {
        let r = self.actions.pop_front();
        proof {
            if old(self).actions@.len() > 0 {
                assert(old(self).actions@.subrange(1, old(self).actions@.len() as int)
                    =~= old(self).actions@.drop_first());
            }
        }
        r
    }

    /// Applies a broadcast action: a fresh profile list replaces the cache
    /// and the cursor is clamped to it; every other action is a no-op.
    pub fn update(&mut self, action: Option<&Action>) -> (r: Result<(), UpdateError>)
        requires
            old(self).wf(),
        ensures
            final(self).wf(),
            r is Ok,
            update_step(*old(self), *final(self), action),
    {
        match action {
            Some(a) => match a {
                Action::UpdatePrfList(items) => {
                    let fresh = items.clone();
                    proof {
                        assert(fresh@.map_values(|it: PrfItem| it.model()) =~= items@.map_values(
                            |it: PrfItem| it.model(),
                        ));
                    }
                    let len = fresh.len();
                    self.pref.set_items(fresh);
                    self.pref.selected = match self.pref.selected {
                        None => None,
                        Some(i) => if len == 0 {
                            None
                        } else if i < len {
                            Some(i)
                        } else {
                            Some(len - 1)
                        },
                    };
                    Ok(())
                },
                _ => Ok(()),
            },
            None => Ok(()),
        }
    }
}

/// Everything of the pane but the fields a step names is carried over
/// unchanged; the relations below say which fields move.
///
/// One key in normal mode: `a` toggles the input popup, `i` opens input
/// mode and changes the help line, up and down move the cursor without
/// wrapping, space confirms the cursor, enter opens the detail page when an
/// item is selected, and every other key is left to the router.
pub open spec fn normal_step(
    pre: SubScription,
    post: SubScription,
    key: KeyPress,
    consumed: bool,
) -> bool {
    match key {
        KeyPress::Char(c) => if c == 'a' {
            consumed && post == (SubScription { input_popua: !pre.input_popua, ..pre })
        } else if c == 'i' {
            consumed && post.input_help@ == editing_help() && post == (SubScription {
                mode: Mode::Input,
                input_help: post.input_help,
                ..pre
            })
        } else if c == ' ' {
            consumed && post == (SubScription {
                selected_index: match pre.pref.selected {
                    Some(i) => i,
                    None => pre.selected_index,
                },
                ..pre
            })
        } else {
            !consumed && post == pre
        },
        KeyPress::Down => consumed && post == (SubScription {
            pref: PrfItemList {
                items: pre.pref.items,
                selected: next_sel(pre.pref.selected, pre.pref.items@.len()),
            },
            ..pre
        }),
        KeyPress::Up => consumed && post == (SubScription {
            pref: PrfItemList {
                items: pre.pref.items,
                selected: prev_sel(pre.pref.selected, pre.pref.items@.len()),
            },
            ..pre
        }),
        KeyPress::Enter => consumed && post == (SubScription {
            mode: if pre.pref.selected is Some {
                Mode::Detail
            } else {
                pre.mode
            },
            ..pre
        }),
        _ => !consumed && post == pre,
    }
}

/// One key in input mode: escape returns to normal mode, enter returns to
/// normal mode and enqueues the typed URL as a subscription request, and
/// every other key edits the input line. Input mode consumes every key.
pub open spec fn input_step(
    pre: SubScription,
    post: SubScription,
    key: KeyPress,
    consumed: bool,
) -> bool {
    match key {
        KeyPress::Esc => consumed && post.input_help@ == idle_help() && post == (SubScription {
            mode: Mode::Normal,
            input_help: post.input_help,
            ..pre
        }),
        KeyPress::Enter => consumed && post.input_help@ == idle_help() && post.actions@.len()
            == pre.actions@.len() + 1 && post.actions@.subrange(0, pre.actions@.len() as int)
            == pre.actions@ && (post.actions@.last() matches Action::SubScription(u) && u@
            == pre.input_state.chars@) && post == (SubScription {
            mode: Mode::Normal,
            input_help: post.input_help,
            actions: post.actions,
            ..pre
        }),
        _ => consumed && editor_step(pre.input_state, post.input_state, key) && post
            == (SubScription { input_state: post.input_state, ..pre }),
    }
}

/// What one key does to the input line.
pub open spec fn editor_step(pre: InputBuffer, post: InputBuffer, key: KeyPress) -> bool {
    match key {
        KeyPress::Char(c) => post.chars@ == pre.chars@.insert(pre.cursor as int, c) && post.cursor
            == pre.cursor + 1,
        KeyPress::Backspace => if pre.cursor > 0 {
            post.chars@ == pre.chars@.remove(pre.cursor - 1) && post.cursor == pre.cursor - 1
        } else {
            post == pre
        },
        KeyPress::Left => post.chars@ == pre.chars@ && post.cursor == (if pre.cursor > 0 {
            pre.cursor - 1
        } else {
            0int
        }),
        KeyPress::Right => post.chars@ == pre.chars@ && post.cursor == (if pre.cursor
            < pre.chars@.len() {
            pre.cursor + 1
        } else {
            pre.cursor as int
        }),
        _ => post == pre,
    }
}

/// One key in detail mode: escape returns to normal mode, anything else
/// acts as in normal mode.
pub open spec fn detail_step(
    pre: SubScription,
    post: SubScription,
    key: KeyPress,
    consumed: bool,
) -> bool {
    match key {
        KeyPress::Esc => consumed && post == (SubScription { mode: Mode::Normal, ..pre }),
        _ => normal_step(pre, post, key, consumed),
    }
}

/// One key, routed by the current mode.
pub open spec fn sub_step(
    pre: SubScription,
    post: SubScription,
    key: KeyPress,
    consumed: bool,
) -> bool {
    match pre.mode {
        Mode::Normal => normal_step(pre, post, key, consumed),
        Mode::Input => input_step(pre, post, key, consumed),
        Mode::Detail => detail_step(pre, post, key, consumed),
    }
}

/// One broadcast action: a fresh profile list replaces the cached one (same
/// profile models, in order) and the cursor is clamped to the new length;
/// every other action leaves the pane as it was.
pub open spec fn update_step(
    pre: SubScription,
    post: SubScription,
    action: Option<&Action>,
) -> bool {
    match action {
        Some(a) => match *a {
            Action::UpdatePrfList(items) => post.pref.items@.map_values(|it: PrfItem| it.model())
                == items@.map_values(|it: PrfItem| it.model()) && post.pref.selected == clamped(
                pre.pref.selected,
                items@.len(),
            ) && post == (SubScription { pref: post.pref, ..pre }),
            _ => post == pre,
        },
        None => post == pre,
    }
}

/// Whether normal mode consumes `key`.
pub open spec fn normal_consumes(key: KeyPress) -> bool {
    match key {
        KeyPress::Char(c) => c == 'a' || c == 'i' || c == ' ',
        KeyPress::Down => true,
        KeyPress::Up => true,
        KeyPress::Enter => true,
        _ => false,
    }
}

/// Whether the subscription pane consumes `key` in `mode`. Input mode takes
/// every key; detail mode takes escape and whatever normal mode takes; the
/// rest is left to the router's global bindings.
pub open spec fn sub_consumes(mode: Mode, key: KeyPress) -> bool {
    match mode {
        Mode::Input => true,
        Mode::Normal => normal_consumes(key),
        Mode::Detail => key is Esc || normal_consumes(key),
    }
}

/// First-in, first-out: actions enqueued by one pane leave its queue in
/// enqueue order. If the queue held `q0` when the actions `xs` were
/// enqueued after it in order, then once `q0` and the first `k` of `xs`
/// have been drained - each drain takes the head of the queue, as
/// `get_events` ensures - the next drain returns exactly `xs[k]`.
pub proof fn lemma_actions_fifo(q0: Seq<Action>, xs: Seq<Action>, k: int)
    requires
        0 <= k < xs.len(),
    ensures
        (q0 + xs).skip(q0.len() as int + k).first() == xs[k],
{
    assert((q0 + xs).skip(q0.len() as int + k).first() == (q0 + xs)[q0.len() as int + k]);
    assert((q0 + xs)[q0.len() as int + k] == xs[k]);
}

} // verus!
