//! The root of the runtime: a focus router over the fixed list of panes and
//! the per-tick dispatch decisions. Exactly one pane holds focus at any
//! time; raw keys go to that pane alone, and whatever it leaves unconsumed
//! feeds the global bindings (quit and focus cycling). The dispatcher pulls
//! one pending action per tick from the focused pane, decides what outside
//! work it asks for, and broadcasts the follow-up action to every pane; the
//! outside work itself (the fetch, the file write, the store) is done by
//! the surrounding binary and its outcomes are handed back in.

use crate::action::Action;
use crate::menu::subscription::SubScription;
use crate::menu::version::Version;
use crate::mode::Mode;
use crate::prfitem::{persistable, IngestionError, PrfItem};
use crate::view::{
    focus_step, poll_step, view_consumes, view_key_step, view_name, view_update_step, KeyPress,
    ViewActor,
};
use vstd::prelude::*;
use vstd::string::StringExecFns;

verus! {

/// A mutable hold on one pane of the list.
fn view_at_mut(views: &mut Vec<ViewActor>, i: usize) -> (v: &mut ViewActor)
    requires
        i < old(views)@.len(),
    ensures
        *v == old(views)@[i as int],
        final(views)@ == old(views)@.update(i as int, *final(v)),
{
    &mut views[i]
}

/// The runtime root: the pane list, the focus index, and the derived
/// display state.
#[derive(Debug)]
pub struct App {
    /// Set once the quit binding fires; the loop stops at the next tick.
    pub should_quit: bool,
    /// The index of the focused pane.
    pub menu_index: usize,
    /// Which pane the detail area shows.
    pub mode: Mode,
    /// The panes, in fixed order.
    pub menus: Vec<ViewActor>,
    /// The status line: the name of the focused pane.
    pub info: String,
}

impl App {
    /// Exactly the pane at the focus index reports focus; this holds after
    /// every operation of the router.
    pub open spec fn focus_ok(&self) -> bool {
        forall|i: int|
            0 <= i < self.menus@.len() ==> ((#[trigger] self.menus@[i]).spec_is_focus() <==> i
                == self.menu_index)
    }

    /// The router's invariant: a non-empty pane list, a focus index inside
    /// it, well-formed panes, and exactly one focused pane.
    pub open spec fn wf(&self) -> bool {
        &&& 1 <= self.menus@.len()
        &&& self.menu_index < self.menus@.len()
        &&& (forall|i: int| 0 <= i < self.menus@.len() ==> (#[trigger] self.menus@[i]).wf())
        &&& self.focus_ok()
    }

    /// A fresh runtime: the version pane, the subscription pane and the
    /// frame counter, with focus on the first.
    pub fn new() -> (r: App)
        ensures
            r.wf(),
            r.should_quit == false,
            r.menu_index == 0,
            r.mode == Mode::Version,
            r.menus@.len() == 3,
            r.menus@[0] is Version,
            r.menus@[1] matches ViewActor::SubScription(s) && s.actions@.len() == 1
                && s.actions@[0] == Action::SubScriptionUpdate
                && s.mode == crate::menu::subscription::Mode::Normal && s.pref.items@.len() == 0,
            r.menus@[2] is Fps,
            r.info@ == "提示信息"@,
    {
        let mut first = Version::new();
        first.focus = true;
        let mut menus: Vec<ViewActor> = Vec::new();
        menus.push(ViewActor::Version(first));
        menus.push(ViewActor::SubScription(SubScription::new()));
        menus.push(ViewActor::Fps { focus: false });
        let r = App {
            should_quit: false,
            menu_index: 0,
            mode: Mode::Version,
            menus,
            info: "提示信息".to_owned(),
        };
        proof {
            assert(r.menus@[0].spec_is_focus());
            assert(!r.menus@[1].spec_is_focus());
            assert(!r.menus@[2].spec_is_focus());
        }
        r
    }

    /// Moves focus flags so that exactly the pane at the focus index holds
    /// focus; everything else of every pane stays.
    fn set_focus(&mut self)
        requires
            old(self).menu_index < old(self).menus@.len(),
            forall|i: int| 0 <= i < old(self).menus@.len() ==> (#[trigger] old(self).menus@[i]).wf(),
        ensures
            final(self).menus@.len() == old(self).menus@.len(),
            final(self).menu_index == old(self).menu_index,
            final(self).should_quit == old(self).should_quit,
            final(self).mode == old(self).mode,
            final(self).info == old(self).info,
            forall|i: int|
                0 <= i < final(self).menus@.len() ==> focus_step(
                    #[trigger] old(self).menus@[i],
                    final(self).menus@[i],
                    i == final(self).menu_index,
                ),
            final(self).wf(),
    {
        let n = self.menus.len();
        let idx = self.menu_index;
        let mut i: usize = 0;
        while i < n
            invariant
                n == self.menus@.len(),
                idx == self.menu_index,
                idx < n,
                0 <= i <= n,
                self.menu_index == old(self).menu_index,
                self.should_quit == old(self).should_quit,
                self.mode == old(self).mode,
                self.info == old(self).info,
                forall|j: int|
                    0 <= j < i ==> focus_step(
                        #[trigger] old(self).menus@[j],
                        self.menus@[j],
                        j == idx,
                    ),
                forall|j: int| i <= j < n ==> self.menus@[j] == #[trigger] old(self).menus@[j],
                forall|j: int| 0 <= j < n ==> (#[trigger] self.menus@[j]).wf(),
            decreases n - i,
        {
            let focused = i == idx;
            let v = view_at_mut(&mut self.menus, i);
            v.set_focus(focused);
            i = i + 1;
        }
        proof {
            assert forall|k: int| 0 <= k < self.menus@.len() implies ((
            #[trigger] self.menus@[k]).spec_is_focus() <==> k == self.menu_index as int) by {
                assert(focus_step(old(self).menus@[k], self.menus@[k], k == idx as int));
            }
        }
    }

    /// Moves focus to the next pane, wrapping at the end of the list.
    pub fn next(&mut self)
        requires
            old(self).wf(),
        ensures
            final(self).wf(),
            cycle_step(
                *old(self),
                *final(self),
                (old(self).menu_index + 1) as int % old(self).menus@.len() as int,
            ),
    {
        let n = self.menus.len();
        proof {
            let ln = old(self).menus@.len() as int;
            let oi = old(self).menu_index as int;
            if oi + 1 < ln {
                vstd::arithmetic::div_mod::lemma_small_mod((oi + 1) as nat, ln as nat);
            } else {
                vstd::arithmetic::div_mod::lemma_mod_self_0(ln);
            }
        }
        if self.menu_index + 1 < n {
            self.menu_index = self.menu_index + 1;
        } else {
            self.menu_index = 0;
        }
        self.refresh_focus_state();
    }

    /// Moves focus to the previous pane, wrapping at the start of the list.
    pub fn previous(&mut self)
        requires
            old(self).wf(),
        ensures
            final(self).wf(),
            cycle_step(
                *old(self),
                *final(self),
                (old(self).menu_index as int + old(self).menus@.len() - 1) % old(
                    self,
                ).menus@.len() as int,
            ),
    {
        let n = self.menus.len();
        proof {
            let ln = old(self).menus@.len() as int;
            let oi = old(self).menu_index as int;
            vstd::arithmetic::div_mod::lemma_mod_add_multiples_vanish(oi - 1, ln);
            if oi > 0 {
                vstd::arithmetic::div_mod::lemma_small_mod((oi - 1) as nat, ln as nat);
            } else {
                vstd::arithmetic::div_mod::lemma_small_mod((ln - 1) as nat, ln as nat);
            }
        }
        if self.menu_index > 0 {
            self.menu_index = self.menu_index - 1;
        } else {
            self.menu_index = n - 1;
        }
        self.refresh_focus_state();
    }

    /// Re-derives the mode, the focus flags and the status line from the
    /// focus index.
    fn refresh_focus_state(&mut self)
        requires
            old(self).menu_index < old(self).menus@.len(),
            forall|i: int| 0 <= i < old(self).menus@.len() ==> (#[trigger] old(self).menus@[i]).wf(),
        ensures
            final(self).wf(),
            final(self).menus@.len() == old(self).menus@.len(),
            final(self).menu_index == old(self).menu_index,
            final(self).should_quit == old(self).should_quit,
            forall|i: int|
                0 <= i < final(self).menus@.len() ==> focus_step(
                    #[trigger] old(self).menus@[i],
                    final(self).menus@[i],
                    i == final(self).menu_index,
                ),
            final(self).mode == (if old(self).menu_index == 1 {
                Mode::Subscription
            } else {
                Mode::Version
            }),
            final(self).info@ == view_name(final(self).menus@[final(self).menu_index as int]),
    {
        self.mode = if self.menu_index == 1 {
            Mode::Subscription
        } else {
            Mode::Version
        };
        self.set_focus();
        let name = self.menus[self.menu_index].name();
        self.info = name;
    }

    /// Hands one key to the focused pane; whatever the pane leaves
    /// unconsumed feeds the global bindings: quit, and focus cycling with
    /// the arrow and tab keys.
    pub fn handle_key(&mut self, key: KeyPress)
        requires
            old(self).wf(),
        ensures
            final(self).wf(),
            app_key_step(*old(self), *final(self), key),
    {
        let idx = self.menu_index;
        let v = view_at_mut(&mut self.menus, idx);
        let consumed = v.handle_event(key);
        proof {
            if !consumed {
                assert(self.menus@ =~= old(self).menus@);
                assert(self.wf());
            }
        }
        if !consumed {
            match key {
                KeyPress::Char(c) => {
                    if c == 'q' {
                        self.should_quit = true;
                    }
                },
                KeyPress::Left => {
                    self.previous();
                },
                KeyPress::Right => {
                    self.next();
                },
                KeyPress::Tab => {
                    self.next();
                },
                _ => {},
            }
        }
    }

    /// Pulls the oldest pending action of the focused pane, one per tick.
    pub fn pending_action(&mut self) -> (r: Option<Action>)
        requires
            old(self).wf(),
        ensures
            final(self).wf(),
            final(self).menus@.len() == old(self).menus@.len(),
            final(self).menu_index == old(self).menu_index,
            final(self).should_quit == old(self).should_quit,
            final(self).mode == old(self).mode,
            final(self).info == old(self).info,
            poll_step(
                old(self).menus@[old(self).menu_index as int],
                final(self).menus@[old(self).menu_index as int],
                r,
            ),
            forall|i: int|
                0 <= i < old(self).menus@.len() && i != old(self).menu_index
                    ==> final(self).menus@[i] == #[trigger] old(self).menus@[i],
    {
        let idx = self.menu_index;
        let v = view_at_mut(&mut self.menus, idx);
        v.get_events()
    }

    /// Broadcasts one follow-up action to every pane, in pane order.
    pub fn broadcast(&mut self, action: Option<&Action>)
        requires
            old(self).wf(),
        ensures
            final(self).wf(),
            final(self).menus@.len() == old(self).menus@.len(),
            final(self).menu_index == old(self).menu_index,
            final(self).should_quit == old(self).should_quit,
            final(self).mode == old(self).mode,
            final(self).info == old(self).info,
            forall|i: int|
                0 <= i < old(self).menus@.len() ==> view_update_step(
                    #[trigger] old(self).menus@[i],
                    final(self).menus@[i],
                    action,
                ),
    {
        let n = self.menus.len();
        let mut i: usize = 0;
        while i < n
            invariant
                n == self.menus@.len(),
                0 <= i <= n,
                self.menu_index == old(self).menu_index,
                self.menu_index < n,
                self.should_quit == old(self).should_quit,
                self.mode == old(self).mode,
                self.info == old(self).info,
                forall|j: int|
                    0 <= j < i ==> view_update_step(
                        #[trigger] old(self).menus@[j],
                        self.menus@[j],
                        action,
                    ),
                forall|j: int| i <= j < n ==> self.menus@[j] == #[trigger] old(self).menus@[j],
                forall|j: int| 0 <= j < n ==> (#[trigger] self.menus@[j]).wf(),
                forall|j: int|
                    0 <= j < n ==> ((#[trigger] self.menus@[j]).spec_is_focus() <==> j
                        == self.menu_index),
            decreases n - i,
        {
            let v = view_at_mut(&mut self.menus, i);
            let _ = v.update(action);
            i = i + 1;
        }
    }
}

/// Focus moved to the pane at `new_idx` (all focus flags follow), the mode
/// and the status line follow the new focus, and nothing else changed.
pub open spec fn cycle_step(pre: App, post: App, new_idx: int) -> bool {
    &&& post.menu_index == new_idx
    &&& post.menus@.len() == pre.menus@.len()
    &&& (forall|i: int|
        0 <= i < pre.menus@.len() ==> focus_step(
            #[trigger] pre.menus@[i],
            post.menus@[i],
            i == new_idx,
        ))
    &&& post.mode == (if new_idx == 1 {
        Mode::Subscription
    } else {
        Mode::Version
    })
    &&& post.info@ == view_name(post.menus@[new_idx])
    &&& post.should_quit == pre.should_quit
}

/// Nothing observable of the runtime moved.
pub open spec fn app_unchanged(pre: App, post: App) -> bool {
    &&& post.menus@ == pre.menus@
    &&& post.menu_index == pre.menu_index
    &&& post.should_quit == pre.should_quit
    &&& post.mode == pre.mode
    &&& post.info == pre.info
}

/// One key, end to end: when the focused pane consumes it, only that pane
/// moves; otherwise the global bindings run - `q` quits, left cycles focus
/// back, right and tab cycle it forward, and any other key does nothing.
pub open spec fn app_key_step(pre: App, post: App, key: KeyPress) -> bool {
    let idx = pre.menu_index as int;
    let n = pre.menus@.len() as int;
    if view_consumes(pre.menus@[idx], key) {
        &&& post.menus@.len() == pre.menus@.len()
        &&& view_key_step(pre.menus@[idx], post.menus@[idx], key, true)
        &&& (forall|i: int| 0 <= i < n && i != idx ==> post.menus@[i] == #[trigger] pre.menus@[i])
        &&& post.menu_index == pre.menu_index
        &&& post.should_quit == pre.should_quit
        &&& post.mode == pre.mode
        &&& post.info == pre.info
    } else {
        match key {
            KeyPress::Char(c) => if c == 'q' {
                post.should_quit == true && post.menus@ == pre.menus@ && post.menu_index
                    == pre.menu_index && post.mode == pre.mode && post.info == pre.info
            } else {
                app_unchanged(pre, post)
            },
            KeyPress::Left => cycle_step(pre, post, (idx + n - 1) % n),
            KeyPress::Right => cycle_step(pre, post, (idx + 1) % n),
            KeyPress::Tab => cycle_step(pre, post, (idx + 1) % n),
            _ => app_unchanged(pre, post),
        }
    }
}

/// Exactly one pane holds focus in a well-formed runtime: the pane at the
/// focus index reports focus, and any two panes that report focus are the
/// same pane. Every operation of the router keeps the runtime well formed,
/// so this holds across any sequence of focus moves.
pub proof fn lemma_exactly_one_focused(app: App, i: int, j: int)
    requires
        app.wf(),
        0 <= i < app.menus@.len(),
        0 <= j < app.menus@.len(),
    ensures
        app.menus@[app.menu_index as int].spec_is_focus(),
        app.menus@[i].spec_is_focus() && app.menus@[j].spec_is_focus() ==> i == j,
{
}

/// What the dispatcher must do for one action pulled from the focused pane.
#[derive(Debug)]
pub enum Step {
    /// Fetch this URL and ingest the result.
    Fetch(String),
    /// Read every stored profile back.
    Query,
    /// Broadcast this follow-up action unchanged.
    Forward(Action),
    /// Nothing beyond logging.
    Quiet,
}

/// Decides what one pulled action asks for: a subscription URL starts an
/// ingestion, a refresh request starts a store read, an error is only
/// logged, and every other action is broadcast unchanged.
pub fn begin_action(action: Action) -> (s: Step)
    ensures
        match action {
            Action::SubScription(url) => s matches Step::Fetch(u) && u == url,
            Action::SubScriptionUpdate => s is Query,
            Action::Error(_) => s is Quiet,
            a => s matches Step::Forward(b) && b == a,
        },
{
    match action {
        Action::SubScription(url) => Step::Fetch(url),
        Action::SubScriptionUpdate => Step::Query,
        Action::Error(_) => Step::Quiet,
        a => Step::Forward(a),
    }
}

/// What follows an ingestion attempt.
#[derive(Debug)]
pub enum FetchFollowUp {
    /// Write the profile's file and insert its row; the profile carries
    /// both its filename and its body.
    Persist(PrfItem),
    /// Broadcast this report instead; nothing is persisted.
    Report(Action),
}

/// Decides what an ingestion outcome asks for. A complete profile is handed
/// on to be persisted; a profile that lacks its filename or its body is
/// rejected here, before any file write, and becomes a user-visible error;
/// a failed fetch becomes its error report. No failure stops the loop.
pub fn after_fetch(res: Result<PrfItem, IngestionError>) -> (f: FetchFollowUp)
    ensures
        match res {
            Ok(item) => if persistable(item.model()) {
                f matches FetchFollowUp::Persist(p) && p == item
            } else {
                f matches FetchFollowUp::Report(a) && a matches Action::Error(m) && m@ == (
                if item.model().file is None {
                    "订阅文件名为空"@
                } else {
                    "订阅文件数据为空"@
                })
            },
            Err(e) => f matches FetchFollowUp::Report(a) && a matches Action::Error(m) && m@
                == e.message_text(),
        },
{
    match res {
        Ok(item) => {
            if item.file.is_none() {
                FetchFollowUp::Report(Action::Error("订阅文件名为空".to_owned()))
            } else if item.file_data.is_none() {
                FetchFollowUp::Report(Action::Error("订阅文件数据为空".to_owned()))
            } else {
                FetchFollowUp::Persist(item)
            }
        },
        Err(e) => FetchFollowUp::Report(Action::Error(e.message())),
    }
}

/// A storage failure report.
fn storage_error(msg: String) -> (a: Action)
    ensures
        a matches Action::Error(m) && m@ == "storage error: "@ + msg@,
{
    let mut m = "storage error: ".to_owned();
    m.append(msg.as_str());
    Action::Error(m)
}

/// Decides what follows a persist attempt: success needs no follow-up - a
/// later refresh request reads the store back - and a failure becomes a
/// user-visible report.
pub fn persist_outcome(res: Result<i64, String>) -> (r: Option<Action>)
    ensures
        match res {
            Ok(_) => r is None,
            Err(msg) => r matches Some(a) && a matches Action::Error(m) && m@ == "storage error: "@
                + msg@,
        },
{
    match res {
        Ok(_) => None,
        Err(msg) => Some(storage_error(msg)),
    }
}

/// Wraps the outcome of a store read: the rows become the fresh profile
/// list to broadcast, and a failure becomes a user-visible report.
pub fn query_done(res: Result<Vec<PrfItem>, String>) -> (a: Action)
    ensures
        match res {
            Ok(items) => a matches Action::UpdatePrfList(l) && l == items,
            Err(msg) => a matches Action::Error(m) && m@ == "storage error: "@ + msg@,
        },
{
    match res {
        Ok(items) => Action::UpdatePrfList(items),
        Err(msg) => storage_error(msg),
    }
}

} // verus!
