//! The computed half of the render pipeline.
//!
//! Each frame is drawn from plain data: one line of text per record in
//! the list pane, the selected record's detail text, the scrollbar
//! position and content length, and the static command bar. This
//! module computes all of it from the current page and navigation
//! state; the unverified front end only lays the values into widgets
//! and draws them. An empty page yields no detail text rather than an
//! out-of-bounds read.

use vstd::prelude::*;
use vstd::string::{StrSliceExecFns, StringExecFns};
use crate::nav::NavState;
use crate::records::{Conversation, details_text};

verus! {

/// The fixed height of the list pane, in rows.
pub const LIST_HEIGHT: u16 = 8;

/// The minimum height of the detail pane, in rows.
pub const DETAIL_MIN_HEIGHT: u16 = 8;

/// The maximum height of the command bar, in rows.
pub const COMMAND_BAR_MAX_HEIGHT: u16 = 3;

/// The content length reported for the horizontal scrollbar.
pub const HORIZONTAL_CONTENT_LENGTH: u16 = 1024;

/// The one line the list pane shows for a record with the given title
/// and identifier.
pub open spec fn list_line_text(title: Seq<char>, id: Seq<char>) -> Seq<char> {
    "Title: "@ + title + " ID: "@ + id
}

/// The static label row of the command bar.
pub open spec fn command_bar_label() -> Seq<char> {
    "History    |     Config    |     History    |     New    |     Shared"@
}

/// Renders one record as its list-pane line.
pub fn list_line(c: &Conversation) -> (r: String)
    ensures
        r@ == list_line_text(c.title@, c.id@),
{
    let mut r = String::from_str("Title: ");
    r.append(c.title.as_str());
    r.append(" ID: ");
    r.append(c.id.as_str());
    proof {
        assert(r@ =~= list_line_text(c.title@, c.id@));
    }
    r
}

/// Renders every record of a page as its list-pane line, in order.
pub fn list_lines(page: &Vec<Conversation>) -> (r: Vec<String>)
    ensures
        r@.len() == page@.len(),
        forall|k: int|
            0 <= k < page@.len() ==> (#[trigger] r@[k])@ == list_line_text(
                page@[k].title@,
                page@[k].id@,
            ),
{
    let mut out: Vec<String> = Vec::new();
    let mut i: usize = 0;
    while i < page.len()
        invariant
            i <= page@.len(),
            out@.len() == i,
            forall|k: int|
                0 <= k < i ==> (#[trigger] out@[k])@ == list_line_text(
                    page@[k].title@,
                    page@[k].id@,
                ),
        decreases page@.len() - i,
    {
        out.push(list_line(&page[i]));
        i = i + 1;
    }
    out
}

/// The detail text for the selected record: the record's full details,
/// or nothing when the selection points past the page (in particular on
/// an empty page).
pub fn detail_for(page: &Vec<Conversation>, selected: usize) -> (r: Option<String>)
    ensures
        selected < page@.len() ==> r is Some && r->0@ == details_text(
            page@[selected as int].title@,
            page@[selected as int].id@,
        ),
        selected >= page@.len() ==> r is None,
{
    if selected < page.len() {
        Some(page[selected].details())
    } else {
        None
    }
}

/// The static command bar row.
pub fn command_bar_text() -> (r: &'static str)
    ensures
        r@ == command_bar_label(),
{
    "History    |     Config    |     History    |     New    |     Shared"
}

/// A scrollbar coordinate as the terminal widget takes it: the low
/// sixteen bits of the offset.
pub fn scrollbar_coord(v: usize) -> (r: u16)
    ensures
        r as nat == (v as nat) % 0x10000,
{
    (v % 0x10000) as u16
}

/// Everything one frame is drawn from.
pub struct FramePlan {
    /// One line per record in the list pane.
    pub list_lines: Vec<String>,
    /// The selected record's detail text; nothing on an empty page.
    pub detail: Option<String>,
    /// The detail pane's vertical scroll position, as the widget takes it.
    pub vertical_position: u16,
    /// The vertical scrollbar's content length: the detail text's
    /// length, recomputed this frame.
    pub content_length: u16,
    /// The detail pane's horizontal scroll position, as the widget takes it.
    pub horizontal_position: u16,
    /// The horizontal scrollbar's content length.
    pub horizontal_content_length: u16,
}

/// The detail text's length for the vertical scrollbar: zero when
/// there is nothing to show.
pub open spec fn detail_len(page: Seq<Conversation>, selected: nat) -> nat {
    if selected < page.len() {
        details_text(page[selected as int].title@, page[selected as int].id@).len()
    } else {
        0
    }
}

/// Computes everything the next frame is drawn from: the list lines,
/// the selected record's details, and the scrollbar coordinates with
/// the content length recomputed from the live detail text.
pub fn build_frame_plan(page: &Vec<Conversation>, nav: &NavState) -> (r: FramePlan)
    ensures
        r.list_lines@.len() == page@.len(),
        forall|k: int|
            0 <= k < page@.len() ==> (#[trigger] r.list_lines@[k])@ == list_line_text(
                page@[k].title@,
                page@[k].id@,
            ),
        nav.selected_index < page@.len() ==> r.detail is Some && r.detail->0@ == details_text(
            page@[nav.selected_index as int].title@,
            page@[nav.selected_index as int].id@,
        ),
        nav.selected_index >= page@.len() ==> r.detail is None,
        r.vertical_position as nat == (nav.vertical_scroll as nat) % 0x10000,
        r.content_length as nat == detail_len(page@, nav.selected_index as nat) % 0x10000,
        r.horizontal_position as nat == (nav.horizontal_scroll as nat) % 0x10000,
        r.horizontal_content_length == HORIZONTAL_CONTENT_LENGTH,
{
    let detail = detail_for(page, nav.selected_index);
    let content_length: u16 = match &detail {
        Some(d) => scrollbar_coord(d.as_str().unicode_len()),
        None => 0,
    };
    FramePlan {
        list_lines: list_lines(page),
        detail,
        vertical_position: scrollbar_coord(nav.vertical_scroll),
        content_length,
        horizontal_position: scrollbar_coord(nav.horizontal_scroll),
        horizontal_content_length: HORIZONTAL_CONTENT_LENGTH,
    }
}

} // verus!
