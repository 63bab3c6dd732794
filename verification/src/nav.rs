//! The navigation state machine: selection, pagination and scrolling.
//!
//! `NavState` holds the four counters that keyboard input drives. The
//! per-key transition functions live here together with the laws that
//! hold of repeated presses: the selection clamps at the end of the
//! page and floors at zero, and the scroll offsets move by a fixed
//! step under saturating arithmetic.

use vstd::prelude::*;

verus! {

/// How far one scroll key press moves the detail pane, in lines or columns.
pub const SCROLL_STEP: usize = 10;

/// One recognised key press. Unrecognised input is `Other` and leaves
/// the state unchanged.
#[derive(Clone, Copy, PartialEq, Eq, Structural, Debug)]
pub enum KeyInput {
    /// `q`: leave the loop.
    Quit,
    /// Arrow down: move the selection down one record.
    Down,
    /// Arrow up: move the selection up one record.
    Up,
    /// Page down: advance to the next page.
    PageDown,
    /// Page up: go back one page, if not already on the first.
    PageUp,
    /// `j`: scroll the detail pane down.
    ScrollDown,
    /// `k`: scroll the detail pane up.
    ScrollUp,
    /// `l`: scroll the detail pane right.
    ScrollRight,
    /// `h`: scroll the detail pane left.
    ScrollLeft,
    /// Any other key: ignored.
    Other,
}

/// The navigation counters: which record is selected, which page is
/// shown, and how far the detail pane is scrolled.
#[derive(Clone, Copy, PartialEq, Eq, Structural, Debug)]
pub struct NavState {
    pub selected_index: usize,
    pub current_page: usize,
    pub vertical_scroll: usize,
    pub horizontal_scroll: usize,
}

/// The mathematical shadow of `NavState`: the same four counters as
/// unbounded naturals.
pub struct NavModel {
    pub selected_index: nat,
    pub current_page: nat,
    pub vertical_scroll: nat,
    pub horizontal_scroll: nat,
}

impl View for NavState {
    type V = NavModel;

    open spec fn view(&self) -> NavModel {
        NavModel {
            selected_index: self.selected_index as nat,
            current_page: self.current_page as nat,
            vertical_scroll: self.vertical_scroll as nat,
            horizontal_scroll: self.horizontal_scroll as nat,
        }
    }
}

impl NavState {
    /// The initial state: first record of the first page, nothing scrolled.
    pub fn new() -> (r: NavState)
        ensures
            r.selected_index == 0,
            r.current_page == 0,
            r.vertical_scroll == 0,
            r.horizontal_scroll == 0,
    {
        NavState { selected_index: 0, current_page: 0, vertical_scroll: 0, horizontal_scroll: 0 }
    }
}

/// Where the selection lands after one down press on a page of `len`
/// records: one step down, clamped to the last record; zero on an
/// empty page.
pub open spec fn sel_after_down(sel: nat, len: nat) -> nat {
    if len == 0 {
        0
    } else if sel + 1 < len {
        sel + 1
    } else {
        (len - 1) as nat
    }
}

/// Where the selection lands after one up press: one step up, floored
/// at zero.
pub open spec fn sel_after_up(sel: nat) -> nat {
    if sel == 0 {
        0
    } else {
        (sel - 1) as nat
    }
}

/// A scroll offset after one step forward: add `SCROLL_STEP`,
/// saturating at the machine maximum.
pub open spec fn scroll_after_add(v: nat) -> nat {
    if v + SCROLL_STEP <= usize::MAX {
        (v + SCROLL_STEP) as nat
    } else {
        usize::MAX as nat
    }
}

/// A scroll offset after one step back: subtract `SCROLL_STEP`,
/// floored at zero.
pub open spec fn scroll_after_sub(v: nat) -> nat {
    if v >= SCROLL_STEP {
        (v - SCROLL_STEP) as nat
    } else {
        0
    }
}

/// One selection step down, executable form.
pub fn step_selection_down(sel: usize, len: usize) -> (r: usize)
    ensures
        r as nat == sel_after_down(sel as nat, len as nat),
{
    if len == 0 {
        0
    } else if sel < len - 1 {
        sel + 1
    } else {
        len - 1
    }
}

/// One selection step up, executable form.
pub fn step_selection_up(sel: usize) -> (r: usize)
    ensures
        r as nat == sel_after_up(sel as nat),
{
    if sel == 0 {
        0
    } else {
        sel - 1
    }
}

/// One scroll step forward, executable form.
pub fn step_scroll_add(v: usize) -> (r: usize)
    ensures
        r as nat == scroll_after_add(v as nat),
{
    if v <= usize::MAX - SCROLL_STEP {
        v + SCROLL_STEP
    } else {
        usize::MAX
    }
}

/// One scroll step back, executable form.
pub fn step_scroll_sub(v: usize) -> (r: usize)
    ensures
        r as nat == scroll_after_sub(v as nat),
{
    if v >= SCROLL_STEP {
        v - SCROLL_STEP
    } else {
        0
    }
}

/// The selection after `n` down presses in a row.
pub open spec fn sel_after_downs(sel: nat, len: nat, n: nat) -> nat
    decreases n,
{
    if n == 0 {
        sel
    } else {
        sel_after_down(sel_after_downs(sel, len, (n - 1) as nat), len)
    }
}

/// The selection after `n` up presses in a row.
pub open spec fn sel_after_ups(sel: nat, n: nat) -> nat
    decreases n,
{
    if n == 0 {
        sel
    } else {
        sel_after_up(sel_after_ups(sel, (n - 1) as nat))
    }
}

/// A scroll offset after `n` backward steps in a row.
pub open spec fn scroll_after_subs(v: nat, n: nat) -> nat
    decreases n,
{
    if n == 0 {
        v
    } else {
        scroll_after_sub(scroll_after_subs(v, (n - 1) as nat))
    }
}

/// One more down press before a run of `n` is the same as a run of
/// `n + 1`.
pub proof fn lemma_downs_shift(sel: nat, len: nat, n: nat)
    ensures
        sel_after_downs(sel_after_down(sel, len), len, n) == sel_after_downs(sel, len, n + 1),
    decreases n,
{
    reveal_with_fuel(sel_after_downs, 3);
    if n > 0 {
        lemma_downs_shift(sel, len, (n - 1) as nat);
    }
}

/// One more up press before a run of `n` is the same as a run of
/// `n + 1`.
pub proof fn lemma_ups_shift(sel: nat, n: nat)
    ensures
        sel_after_ups(sel_after_up(sel), n) == sel_after_ups(sel, n + 1),
    decreases n,
{
    reveal_with_fuel(sel_after_ups, 3);
    if n > 0 {
        lemma_ups_shift(sel, (n - 1) as nat);
    }
}

/// One more backward scroll step before a run of `n` is the same as a
/// run of `n + 1`.
pub proof fn lemma_scroll_subs_shift(v: nat, n: nat)
    ensures
        scroll_after_subs(scroll_after_sub(v), n) == scroll_after_subs(v, n + 1),
    decreases n,
{
    reveal_with_fuel(scroll_after_subs, 3);
    if n > 0 {
        lemma_scroll_subs_shift(v, (n - 1) as nat);
    }
}

/// Law: starting from the top of a page of `len` records, `n` down
/// presses leave the selection at `min(n, len - 1)` — it walks down one
/// record per press and then stays clamped at the last record.
pub proof fn lemma_down_presses_clamp(len: nat, n: nat)
    requires
        len >= 1,
    ensures
        sel_after_downs(0, len, n) == if n < len { n } else { (len - 1) as nat },
    decreases n,
{
    if n > 0 {
        lemma_down_presses_clamp(len, (n - 1) as nat);
    }
}

/// Law: `n` up presses take the selection down by exactly `n`, floored
/// at zero; in particular it never goes below zero.
pub proof fn lemma_up_presses_floor(sel: nat, n: nat)
    ensures
        sel_after_ups(sel, n) == if n <= sel { (sel - n) as nat } else { 0 },
        sel_after_ups(sel, n) >= 0,
    decreases n,
{
    if n > 0 {
        lemma_up_presses_floor(sel, (n - 1) as nat);
    }
}

/// Law: scrolling never moves an offset the wrong way — one step
/// forward never decreases it and one step back never increases it —
/// and both directions stay non-negative.
pub proof fn lemma_scroll_steps_monotone(v: nat)
    requires
        v <= usize::MAX,
    ensures
        scroll_after_add(v) >= v,
        scroll_after_sub(v) <= v,
        scroll_after_add(v) >= 0,
        scroll_after_sub(v) >= 0,
{
}

/// Law: `n` backward scroll steps subtract exactly `n * SCROLL_STEP`,
/// floored at zero. Enough presses from any offset reach exactly zero,
/// and once at zero the offset stays there.
pub proof fn lemma_scroll_sub_reaches_zero(v: nat, n: nat)
    ensures
        scroll_after_subs(v, n) == if n * SCROLL_STEP <= v {
            (v - n * SCROLL_STEP) as nat
        } else {
            0
        },
        n * SCROLL_STEP >= v ==> scroll_after_subs(v, n) == 0,
        scroll_after_subs(0, n) == 0,
    decreases n,
{
    if n > 0 {
        lemma_scroll_sub_reaches_zero(v, (n - 1) as nat);
        assert(n * SCROLL_STEP == (n - 1) * SCROLL_STEP + SCROLL_STEP) by (nonlinear_arith);
    }
}

} // verus!
