//! One browsing session: the event loop's decision logic.
//!
//! A `Session` owns the record source, the page currently shown and the
//! navigation counters. `handle_event` is the whole decision function
//! of the interactive loop: it interprets one event, refetches the page
//! when the page number changes, and says whether the loop is over and
//! why. The unverified front end only polls the terminal, feeds events
//! in, and draws frames; `drive` runs the same loop over a fixed queue
//! of events and accounts for the terminal restoration that must follow
//! every exit, normal or failed, exactly once.

use vstd::prelude::*;
use crate::nav::{
    KeyInput,
    NavModel,
    NavState,
    scroll_after_add,
    scroll_after_sub,
    scroll_after_subs,
    sel_after_down,
    sel_after_downs,
    sel_after_up,
    sel_after_ups,
    lemma_down_presses_clamp,
    lemma_downs_shift,
    lemma_up_presses_floor,
    lemma_ups_shift,
    lemma_scroll_sub_reaches_zero,
    lemma_scroll_subs_shift,
    step_scroll_add,
    step_scroll_sub,
    step_selection_down,
    step_selection_up,
    SCROLL_STEP,
};
use crate::records::{Conversation, RecordSource};

verus! {

/// How long the input poll waits before the loop redraws anyway, in
/// milliseconds.
pub const POLL_INTERVAL_MS: u64 = 100;

/// One event seen by the main loop: a key press, a poll timeout with
/// no input, or a failure while drawing the frame.
#[derive(Clone, Copy, PartialEq, Eq, Structural, Debug)]
pub enum LoopEvent {
    /// A key press, already decoded.
    Key(KeyInput),
    /// The input poll timed out; the loop just redraws.
    Tick,
    /// Drawing the frame failed; the loop exits with an error.
    RenderError,
}

/// Why the loop ended.
#[derive(Clone, Copy, PartialEq, Eq, Structural, Debug)]
pub enum Outcome {
    /// The quit key was pressed.
    Quit,
    /// An error was propagated out of the loop.
    Failed,
}

/// The navigation counters at the start of a session.
pub open spec fn init_nav_model() -> NavModel {
    NavModel { selected_index: 0, current_page: 0, vertical_scroll: 0, horizontal_scroll: 0 }
}

/// The navigation counters after one key press, given the source the
/// session reads its pages from. This is the transition table of the
/// state machine: selection moves clamp to the page, page moves reset
/// the selection, scroll moves saturate, and everything else is a
/// no-op.
pub open spec fn step_nav<S: RecordSource>(src: S, s: NavModel, k: KeyInput) -> NavModel {
    let len = src.page_len(s.current_page as int);
    match k {
        KeyInput::Quit => s,
        KeyInput::Down => NavModel { selected_index: sel_after_down(s.selected_index, len), ..s },
        KeyInput::Up => NavModel { selected_index: sel_after_up(s.selected_index), ..s },
        KeyInput::PageDown => NavModel {
            selected_index: 0,
            current_page: s.current_page + 1,
            ..s
        },
        KeyInput::PageUp => if s.current_page > 0 {
            NavModel { selected_index: 0, current_page: (s.current_page - 1) as nat, ..s }
        } else {
            s
        },
        KeyInput::ScrollDown => NavModel {
            vertical_scroll: scroll_after_add(s.vertical_scroll),
            ..s
        },
        KeyInput::ScrollUp => NavModel {
            vertical_scroll: scroll_after_sub(s.vertical_scroll),
            ..s
        },
        KeyInput::ScrollRight => NavModel {
            horizontal_scroll: scroll_after_add(s.horizontal_scroll),
            ..s
        },
        KeyInput::ScrollLeft => NavModel {
            horizontal_scroll: scroll_after_sub(s.horizontal_scroll),
            ..s
        },
        KeyInput::Other => s,
    }
}

/// The navigation counters after one loop event: only key presses move
/// them.
pub open spec fn step_nav_event<S: RecordSource>(src: S, s: NavModel, e: LoopEvent) -> NavModel {
    match e {
        LoopEvent::Key(k) => step_nav(src, s, k),
        _ => s,
    }
}

/// Whether one event ends the loop, and how.
pub open spec fn event_outcome(e: LoopEvent) -> Option<Outcome> {
    match e {
        LoopEvent::Key(KeyInput::Quit) => Some(Outcome::Quit),
        LoopEvent::RenderError => Some(Outcome::Failed),
        _ => None,
    }
}

/// The outcome of the first loop-ending event in `events`, if any.
pub open spec fn first_outcome(events: Seq<LoopEvent>) -> Option<Outcome>
    decreases events.len(),
{
    if events.len() == 0 {
        None
    } else if event_outcome(events[0]) is Some {
        event_outcome(events[0])
    } else {
        first_outcome(events.drop_first())
    }
}

/// The navigation counters after consuming `events` up to the first
/// loop-ending event, starting from `s`.
pub open spec fn nav_at_exit<S: RecordSource>(src: S, s: NavModel, events: Seq<LoopEvent>) -> NavModel
    decreases events.len(),
{
    if events.len() == 0 {
        s
    } else if event_outcome(events[0]) is Some {
        s
    } else {
        nav_at_exit(src, step_nav_event(src, s, events[0]), events.drop_first())
    }
}

/// Law: a page-up press on the first page is a no-op — the whole
/// navigation state is unchanged.
pub proof fn lemma_page_up_first_page_noop<S: RecordSource>(src: S, s: NavModel)
    requires
        s.current_page == 0,
    ensures
        step_nav(src, s, KeyInput::PageUp) == s,
{
}

/// Law: a page-down press always advances the page by one and resets
/// the selection to the first record, whatever was selected before; the
/// scroll offsets are untouched.
pub proof fn lemma_page_down_advances<S: RecordSource>(src: S, s: NavModel)
    ensures
        step_nav(src, s, KeyInput::PageDown).current_page == s.current_page + 1,
        step_nav(src, s, KeyInput::PageDown).selected_index == 0,
        step_nav(src, s, KeyInput::PageDown).vertical_scroll == s.vertical_scroll,
        step_nav(src, s, KeyInput::PageDown).horizontal_scroll == s.horizontal_scroll,
{
}

/// The navigation counters after a whole sequence of key presses, in
/// order.
pub open spec fn nav_after_keys<S: RecordSource>(src: S, s: NavModel, keys: Seq<KeyInput>) -> NavModel
    decreases keys.len(),
{
    if keys.len() == 0 {
        s
    } else {
        nav_after_keys(src, step_nav(src, s, keys[0]), keys.drop_first())
    }
}

/// Law: a sequence of down presses only moves the selection — page and
/// scroll offsets are untouched — and moves it exactly as `n` repeated
/// clamped steps on the current page do.
pub proof fn lemma_down_key_sequence<S: RecordSource>(src: S, s: NavModel, keys: Seq<KeyInput>)
    requires
        forall|i: int| 0 <= i < keys.len() ==> keys[i] == KeyInput::Down,
    ensures
        ({
            let r = nav_after_keys(src, s, keys);
            &&& r.selected_index == sel_after_downs(
                s.selected_index,
                src.page_len(s.current_page as int),
                keys.len(),
            )
            &&& r.current_page == s.current_page
            &&& r.vertical_scroll == s.vertical_scroll
            &&& r.horizontal_scroll == s.horizontal_scroll
        }),
    decreases keys.len(),
{
    if keys.len() > 0 {
        lemma_down_key_sequence(src, step_nav(src, s, keys[0]), keys.drop_first());
        lemma_downs_shift(
            s.selected_index,
            src.page_len(s.current_page as int),
            (keys.len() - 1) as nat,
        );
    }
}

/// Law: for every number of down presses starting at the top of a page
/// of `len >= 1` records, the selection ends at `min(n, len - 1)`:
/// clamped at the last record, never out of bounds.
pub proof fn lemma_down_presses_from_top<S: RecordSource>(src: S, s: NavModel, keys: Seq<KeyInput>)
    requires
        forall|i: int| 0 <= i < keys.len() ==> keys[i] == KeyInput::Down,
        s.selected_index == 0,
        src.page_len(s.current_page as int) >= 1,
    ensures
        nav_after_keys(src, s, keys).selected_index == if keys.len() < src.page_len(
            s.current_page as int,
        ) {
            keys.len()
        } else {
            (src.page_len(s.current_page as int) - 1) as nat
        },
{
    lemma_down_key_sequence(src, s, keys);
    lemma_down_presses_clamp(src.page_len(s.current_page as int), keys.len());
}

/// Law: a sequence of up presses moves the selection up by exactly one
/// per press, floored at zero — it never goes below zero — and touches
/// nothing else.
pub proof fn lemma_up_key_sequence<S: RecordSource>(src: S, s: NavModel, keys: Seq<KeyInput>)
    requires
        forall|i: int| 0 <= i < keys.len() ==> keys[i] == KeyInput::Up,
    ensures
        ({
            let r = nav_after_keys(src, s, keys);
            &&& r.selected_index == sel_after_ups(s.selected_index, keys.len())
            &&& r.selected_index == if keys.len() <= s.selected_index {
                (s.selected_index - keys.len()) as nat
            } else {
                0
            }
            &&& r.selected_index >= 0
            &&& r.current_page == s.current_page
            &&& r.vertical_scroll == s.vertical_scroll
            &&& r.horizontal_scroll == s.horizontal_scroll
        }),
    decreases keys.len(),
{
    if keys.len() > 0 {
        lemma_up_key_sequence(src, step_nav(src, s, keys[0]), keys.drop_first());
        lemma_ups_shift(s.selected_index, (keys.len() - 1) as nat);
    }
    lemma_up_presses_floor(s.selected_index, keys.len());
}

/// Law: a sequence of scroll-up presses lowers the vertical offset by
/// exactly one step per press, floored at zero; enough presses from any
/// offset reach exactly zero and further presses leave it there.
pub proof fn lemma_scroll_up_key_sequence<S: RecordSource>(src: S, s: NavModel, keys: Seq<KeyInput>)
    requires
        forall|i: int| 0 <= i < keys.len() ==> keys[i] == KeyInput::ScrollUp,
    ensures
        ({
            let r = nav_after_keys(src, s, keys);
            &&& r.vertical_scroll == scroll_after_subs(s.vertical_scroll, keys.len())
            &&& keys.len() * SCROLL_STEP >= s.vertical_scroll ==> r.vertical_scroll == 0
            &&& r.selected_index == s.selected_index
            &&& r.current_page == s.current_page
            &&& r.horizontal_scroll == s.horizontal_scroll
        }),
    decreases keys.len(),
{
    if keys.len() > 0 {
        lemma_scroll_up_key_sequence(src, step_nav(src, s, keys[0]), keys.drop_first());
        lemma_scroll_subs_shift(s.vertical_scroll, (keys.len() - 1) as nat);
    }
    lemma_scroll_sub_reaches_zero(s.vertical_scroll, keys.len());
}

/// Tally of terminal restorations: how many times the loop has ordered
/// the screen and input mode put back for the caller.
pub struct TeardownTally {
    pub runs: usize,
}

impl TeardownTally {
    /// A fresh tally: nothing restored yet.
    pub fn new() -> (r: TeardownTally)
        ensures
            r.runs == 0,
    {
        TeardownTally { runs: 0 }
    }

    /// Orders one terminal restoration.
    pub fn record_restore(&mut self)
        requires
            old(self).runs < usize::MAX,
        ensures
            final(self).runs == old(self).runs + 1,
    {
        self.runs = self.runs + 1;
    }
}

/// One browsing session: a record source, the page fetched from it
/// last, and the navigation counters.
pub struct Session<S: RecordSource> {
    pub source: S,
    pub conversations: Vec<Conversation>,
    pub nav: NavState,
}

impl<S: RecordSource> Session<S> {
    /// The page on display is the one the source gives for the current
    /// page number.
    pub open spec fn page_is_current(&self) -> bool {
        &&& self.conversations@.len() == self.source.page_len(self.nav.current_page as int)
        &&& forall|k: int|
            0 <= k < self.conversations@.len() ==> (#[trigger] self.conversations@[k]).title@
                == self.source.page_title(self.nav.current_page as int, k)
                && self.conversations@[k].id@ == self.source.page_id(
                self.nav.current_page as int,
                k,
            )
    }

    /// Well-formed: the selection is in bounds — zero on an empty page,
    /// inside the page otherwise — and the page on display is current.
    pub open spec fn wf(&self) -> bool {
        &&& if self.conversations@.len() == 0 {
            self.nav.selected_index == 0
        } else {
            (self.nav.selected_index as nat) < self.conversations@.len()
        }
        &&& self.page_is_current()
    }

    /// Starts a session: the first page fetched, everything else at
    /// zero.
    pub fn new(source: S) -> (r: Session<S>)
        ensures
            r.wf(),
            r.source == source,
            r.nav@ == init_nav_model(),
    {
        let conversations = source.fetch_page(0);
        Session { source, conversations, nav: NavState::new() }
    }

    /// Interprets one key press: the session's navigation counters move
    /// by the transition table, the page is refetched when the page
    /// number changes, and the result says whether the quit key ended
    /// the loop.
    pub fn handle_key(&mut self, k: KeyInput) -> (quit: bool)
        requires
            old(self).wf(),
            k == KeyInput::PageDown ==> old(self).nav.current_page < usize::MAX,
        ensures
            final(self).wf(),
            final(self).source == old(self).source,
            final(self).nav@ == step_nav(old(self).source, old(self).nav@, k),
            quit <==> k == KeyInput::Quit,
    {
        match k {
            KeyInput::Quit => true,
            KeyInput::Down => {
                self.nav.selected_index = step_selection_down(
                    self.nav.selected_index,
                    self.conversations.len(),
                );
                false
            },
            KeyInput::Up => {
                self.nav.selected_index = step_selection_up(self.nav.selected_index);
                false
            },
            KeyInput::PageDown => {
                self.nav.current_page = self.nav.current_page + 1;
                let page = self.source.fetch_page(self.nav.current_page);
                self.conversations = page;
                self.nav.selected_index = 0;
                false
            },
            KeyInput::PageUp => {
                if self.nav.current_page > 0 {
                    self.nav.current_page = self.nav.current_page - 1;
                    let page = self.source.fetch_page(self.nav.current_page);
                    self.conversations = page;
                    self.nav.selected_index = 0;
                }
                false
            },
            KeyInput::ScrollDown => {
                self.nav.vertical_scroll = step_scroll_add(self.nav.vertical_scroll);
                false
            },
            KeyInput::ScrollUp => {
                self.nav.vertical_scroll = step_scroll_sub(self.nav.vertical_scroll);
                false
            },
            KeyInput::ScrollRight => {
                self.nav.horizontal_scroll = step_scroll_add(self.nav.horizontal_scroll);
                false
            },
            KeyInput::ScrollLeft => {
                self.nav.horizontal_scroll = step_scroll_sub(self.nav.horizontal_scroll);
                false
            },
            KeyInput::Other => false,
        }
    }

    /// Interprets one loop event: a tick only redraws, a render error
    /// ends the loop with a failure, a key press goes through the
    /// transition table. `None` means the loop goes on.
    pub fn handle_event(&mut self, e: LoopEvent) -> (r: Option<Outcome>)
        requires
            old(self).wf(),
            e == LoopEvent::Key(KeyInput::PageDown) ==> old(self).nav.current_page < usize::MAX,
        ensures
            final(self).wf(),
            final(self).source == old(self).source,
            final(self).nav@ == step_nav_event(old(self).source, old(self).nav@, e),
            r == event_outcome(e),
    {
        match e {
            LoopEvent::Tick => None,
            LoopEvent::RenderError => Some(Outcome::Failed),
            LoopEvent::Key(k) => {
                let quit = self.handle_key(k);
                if quit {
                    Some(Outcome::Quit)
                } else {
                    None
                }
            },
        }
    }
}

/// What one finished run leaves behind: the session as it stood at
/// exit, why the loop ended, and the restoration tally.
pub struct RunReport<S: RecordSource> {
    pub session: Session<S>,
    pub outcome: Outcome,
    pub teardown: TeardownTally,
}

/// Runs a whole session over a fixed queue of events, exactly as the
/// interactive loop would consume them, and orders the terminal
/// restored on the way out. Returns `None` if the queue ran out with
/// the loop still running — the interactive loop would keep waiting for
/// input. Otherwise the loop ended, by the quit key or by a propagated
/// error, and either way the terminal was restored exactly once.
pub fn drive<S: RecordSource>(source: S, events: &Vec<LoopEvent>) -> (r: Option<RunReport<S>>)
    ensures
        r is Some <==> first_outcome(events@) is Some,
        r matches Some(rep) ==> {
            &&& Some(rep.outcome) == first_outcome(events@)
            &&& rep.teardown.runs == 1
            &&& rep.session.wf()
            &&& rep.session.source == source
            &&& rep.session.nav@ == nav_at_exit(source, init_nav_model(), events@)
        },
{
    let mut session = Session::new(source);
    let mut teardown = TeardownTally::new();
    let mut i: usize = 0;
    proof {
        assert(events@.skip(0) =~= events@);
    }
    while i < events.len()
        invariant
            i <= events.len(),
            session.wf(),
            session.source == source,
            session.nav@.current_page <= i,
            teardown.runs == 0,
            first_outcome(events@) == first_outcome(events@.skip(i as int)),
            nav_at_exit(source, init_nav_model(), events@) == nav_at_exit(
                source,
                session.nav@,
                events@.skip(i as int),
            ),
        decreases events.len() - i,
    {
        let e = events[i];
        proof {
            assert(events@.skip(i as int)[0] == events@[i as int]);
            assert(events@.skip(i as int).drop_first() =~= events@.skip(i as int + 1));
        }
        let outcome = session.handle_event(e);
        match outcome {
            Some(out) => {
                teardown.record_restore();
                return Some(RunReport { session, outcome: out, teardown });
            },
            None => {},
        }
        i = i + 1;
    }
    proof {
        assert(events@.skip(events@.len() as int) =~= Seq::<LoopEvent>::empty());
    }
    None
}

} // verus!
