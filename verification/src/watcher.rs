//! The watcher for the confirming click.
//!
//! The host installs one system-wide pointer hook and pumps events for it on
//! a context of its own.  `InputWatcher` is the book on that hook: it says
//! what to answer to each event, when to end the pump, and when to take the
//! hook out again.

use vstd::prelude::*;

use crate::win::{is_confirming_click, low_mouse_proc, HookReply, CONSUMED};

verus! {

/// The error for a hook that the platform did not install.
#[derive(Clone, Copy, Debug, PartialEq, Eq, Structural)]
pub struct HookInstallFailed;

/// Where a watcher is in its life.
#[derive(Clone, Copy, Debug, PartialEq, Eq, Structural)]
pub enum WatcherState {
    /// The hook is in place and the click has not come.
    Watching,
    /// The click came and the pump was asked to end; the hook is still in
    /// place.
    Clicked,
    /// The pump has ended and the hook is out.
    Finished,
}

/// One event as the platform hands it to the hook.
#[derive(Clone, Copy, Debug, PartialEq, Eq, Structural)]
pub struct HookEvent {
    pub code: i32,
    pub w_param: usize,
    pub l_param: isize,
}

/// What the hook does with one event.
#[derive(Clone, Copy, Debug, PartialEq, Eq, Structural)]
pub struct HookOutcome {
    /// What to answer to the platform.
    pub reply: HookReply,
    /// Whether to ask the pump to end now.
    pub quit: bool,
}

/// How the watch ended, told when the pump has ended.
#[derive(Clone, Copy, Debug, PartialEq, Eq, Structural)]
pub enum Shutdown {
    /// The click came.  Take the hook out and tell the session.
    Confirmed,
    /// The pump ended without the click.  Take the hook out.
    Cancelled,
    /// The hook is out already; there is nothing to do.
    AlreadyDone,
}

impl HookEvent {
    /// Whether this event is the confirming click.
    pub open spec fn confirms(self) -> bool {
        is_confirming_click(self.code, self.w_param)
    }

    /// The answer to this event: the confirming click is consumed, every
    /// other event is handed on as it came.
    pub open spec fn reply(self) -> HookReply {
        if self.confirms() {
            HookReply::Consume { result: CONSUMED }
        } else {
            HookReply::Forward { code: self.code, w_param: self.w_param, l_param: self.l_param }
        }
    }
}

/// The state after one event: the first confirming click turns a watching
/// watcher into one that has its click; nothing else changes the state.
pub open spec fn after(state: WatcherState, event: HookEvent) -> WatcherState {
    if state == WatcherState::Watching && event.confirms() {
        WatcherState::Clicked
    } else {
        state
    }
}

/// Whether an event makes the watcher ask the pump to end: only the
/// confirming click does, and only while the watcher is still watching.
pub open spec fn asks_quit(state: WatcherState, event: HookEvent) -> bool {
    state == WatcherState::Watching && event.confirms()
}

/// The state after a run of events.
pub open spec fn after_all(state: WatcherState, events: Seq<HookEvent>) -> WatcherState
    decreases events.len(),
{
    if events.len() == 0 {
        state
    } else {
        after(after_all(state, events.drop_last()), events.last())
    }
}

/// How often the watcher asks the pump to end during a run of events.
pub open spec fn quits(state: WatcherState, events: Seq<HookEvent>) -> nat
    decreases events.len(),
{
    if events.len() == 0 {
        0
    } else {
        let before = after_all(state, events.drop_last());
        quits(state, events.drop_last()) + if asks_quit(before, events.last()) {
            1nat
        } else {
            0nat
        }
    }
}

/// The book on one installed hook.
#[derive(Debug)]
pub struct InputWatcher {
    state: WatcherState,
}

impl View for InputWatcher {
    type V = WatcherState;

    closed spec fn view(&self) -> WatcherState {
        self.state
    }
}

impl InputWatcher {
    /// Opens the book once the host has tried to install the hook.
    /// `installed` says whether the platform gave a hook: without one there
    /// is no watcher, only the error.
    pub fn install(installed: bool) -> (watcher: Result<InputWatcher, HookInstallFailed>)
        ensures
            installed <==> watcher is Ok,
            watcher matches Ok(w) ==> w@ == WatcherState::Watching,
    {
        if installed {
            Ok(InputWatcher { state: WatcherState::Watching })
        } else {
            Err(HookInstallFailed)
        }
    }

    /// Where the watcher is in its life.
    pub fn state(&self) -> (state: WatcherState)
        ensures
            state == self@,
    {
        self.state
    }

    /// Decides what the hook does with one event.
    ///
    /// The confirming click is consumed and every other event is handed on
    /// with its arguments unchanged.  The pump is asked to end on the first
    /// confirming click and never again.
    pub fn on_event(&mut self, code: i32, w_param: usize, l_param: isize) -> (outcome: HookOutcome)
        ensures
            outcome.reply == (HookEvent { code, w_param, l_param }).reply(),
            outcome.quit == asks_quit(old(self)@, HookEvent { code, w_param, l_param }),
            final(self)@ == after(old(self)@, HookEvent { code, w_param, l_param }),
    {
        let reply = low_mouse_proc(code, w_param, l_param);
        let click = match reply {
            HookReply::Consume { .. } => true,
            HookReply::Forward { .. } => false,
        };
        let quit = click && self.state == WatcherState::Watching;
        if quit {
            self.state = WatcherState::Clicked;
        }
        HookOutcome { reply, quit }
    }

    /// Records that the pump has ended, and says how the watch ended.  The
    /// hook is to be taken out on the first call and on no later one.
    pub fn pump_exited(&mut self) -> (shutdown: Shutdown)
        ensures
            final(self)@ == WatcherState::Finished,
            shutdown == match old(self)@ {
                WatcherState::Watching => Shutdown::Cancelled,
                WatcherState::Clicked => Shutdown::Confirmed,
                WatcherState::Finished => Shutdown::AlreadyDone,
            },
    {
        let shutdown = match self.state {
            WatcherState::Watching => Shutdown::Cancelled,
            WatcherState::Clicked => Shutdown::Confirmed,
            WatcherState::Finished => Shutdown::AlreadyDone,
        };
        self.state = WatcherState::Finished;
        shutdown
    }
}

/// A watcher that has left the watching state never returns to it.
pub proof fn lemma_never_watching_again(state: WatcherState, events: Seq<HookEvent>)
    requires
        state != WatcherState::Watching,
    ensures
        after_all(state, events) == state,
        quits(state, events) == 0,
    decreases events.len(),
{
    if events.len() > 0 {
        lemma_never_watching_again(state, events.drop_last());
    }
}

/// Whatever events come, the watcher asks the pump to end at most once.  A
/// watching watcher asks exactly once if a confirming click is among the
/// events, and then it is no longer watching; it asks never, and goes on
/// watching, if none is.
pub proof fn lemma_quits_once(state: WatcherState, events: Seq<HookEvent>)
    ensures
        quits(state, events) <= 1,
        state == WatcherState::Watching ==> (quits(state, events) == 1 <==> exists|i: int|
            0 <= i < events.len() && (#[trigger] events[i]).confirms()),
        state == WatcherState::Watching ==> (after_all(state, events) == WatcherState::Watching
            <==> quits(state, events) == 0),
    decreases events.len(),
{
    if state != WatcherState::Watching {
        lemma_never_watching_again(state, events);
    } else if events.len() > 0 {
        let front = events.drop_last();
        lemma_quits_once(state, front);
        if exists|i: int| 0 <= i < front.len() && (#[trigger] front[i]).confirms() {
            let i = choose|i: int| 0 <= i < front.len() && (#[trigger] front[i]).confirms();
            assert(events[i] == front[i]);
        }
        if exists|i: int| 0 <= i < events.len() && (#[trigger] events[i]).confirms() {
            let i = choose|i: int| 0 <= i < events.len() && (#[trigger] events[i]).confirms();
            if i < front.len() {
                assert(front[i] == events[i]);
            } else {
                assert(events.last() == events[i]);
            }
        }
    }
}

} // verus!
