//! Conversation records and the page-based source that supplies them.
//!
//! A `Conversation` is a title and an identifier; `details` expands one
//! into the full text shown in the detail pane. Pages of records come
//! from a `RecordSource`: a pluggable capability with a single fetch
//! method, so a real backend can replace the built-in stub without
//! touching the navigation machinery. The stub, `fetch_conversations`,
//! synthesizes records deterministically from the page index.

use vstd::prelude::*;
use vstd::string::StringExecFns;

verus! {

/// How many records one page holds.
pub const PAGE_SIZE: usize = 5;

/// The decimal digit character for `d`.
pub open spec fn digit_char(d: nat) -> char {
    if d == 0 {
        '0'
    } else if d == 1 {
        '1'
    } else if d == 2 {
        '2'
    } else if d == 3 {
        '3'
    } else if d == 4 {
        '4'
    } else if d == 5 {
        '5'
    } else if d == 6 {
        '6'
    } else if d == 7 {
        '7'
    } else if d == 8 {
        '8'
    } else {
        '9'
    }
}

/// The decimal digit string of `n`, most significant digit first, with
/// no leading zeros (`0` itself is the single digit `0`).
pub open spec fn decimal_digits(n: nat) -> Seq<char>
    decreases n,
{
    if n < 10 {
        seq![digit_char(n)]
    } else {
        decimal_digits(n / 10).push(digit_char(n % 10))
    }
}

/// The one-character string for a single decimal digit.
fn digit_str(d: u8) -> (r: &'static str)
    requires
        d < 10,
    ensures
        r@ == seq![digit_char(d as nat)],
{
    let r: &'static str = if d == 0 {
        "0"
    } else if d == 1 {
        "1"
    } else if d == 2 {
        "2"
    } else if d == 3 {
        "3"
    } else if d == 4 {
        "4"
    } else if d == 5 {
        "5"
    } else if d == 6 {
        "6"
    } else if d == 7 {
        "7"
    } else if d == 8 {
        "8"
    } else {
        "9"
    };
    proof {
        reveal_strlit("0");
        reveal_strlit("1");
        reveal_strlit("2");
        reveal_strlit("3");
        reveal_strlit("4");
        reveal_strlit("5");
        reveal_strlit("6");
        reveal_strlit("7");
        reveal_strlit("8");
        reveal_strlit("9");
        assert(r@ =~= seq![digit_char(d as nat)]);
    }
    r
}

/// Appends the decimal digits of `n` to `out`.
pub fn push_decimal(out: &mut String, n: u128)
    ensures
        final(out)@ == old(out)@ + decimal_digits(n as nat),
    decreases n,
{
    if n >= 10 {
        push_decimal(out, n / 10);
    }
    let d: u8 = (n % 10) as u8;
    out.append(digit_str(d));
    proof {
        assert(final(out)@ =~= old(out)@ + decimal_digits(n as nat));
    }
}

/// The decimal digit string of `n` as an owned `String`.
pub fn decimal_string(n: u128) -> (r: String)
    ensures
        r@ == decimal_digits(n as nat),
{
    let mut s = String::new();
    push_decimal(&mut s, n);
    proof {
        assert(s@ =~= decimal_digits(n as nat));
    }
    s
}

/// One conversation record: a title and an identifier.
pub struct Conversation {
    pub title: String,
    pub id: String,
}

/// The canned body text that pads out every record's detail view.
pub open spec fn detail_filler_text() -> Seq<char> {
    r#"""
        Some details about the conversation...

        Some details about the conversation...

        Some details about the conversation...

        Some details about the conversation...

        Some details about the conversation...

        Some details about the conversation...

        Some details about the conversation...

        Some details about the conversation...

        ----------------------------------------------------------------------------------------------------------------------------------------------------->

        Some details about the conversation...

        Some details about the conversation...

        Some details about the conversation...

        Some details about the conversation...

        Some details about the conversation...

        Some details about the conversation...

        Some details about the conversation...

        Some details about the conversation...

        ----------------------------------------------------------------------------------------------------------------------------------------------------->

        Some details about the conversation...

        Some details about the conversation...

        Some details about the conversation...

        Some details about the conversation...

        Some details about the conversation...

        Some details about the conversation...

        Some details about the conversation...

        Some details about the conversation...

        ----------------------------------------------------------------------------------------------------------------------------------------------------->

        Some details about the conversation...

        Some details about the conversation...

        Some details about the conversation...

        Some details about the conversation...

        Some details about the conversation...

        Some details about the conversation...

        Some details about the conversation...

        Some details about the conversation...

        ----------------------------------------------------------------------------------------------------------------------------------------------------->

        Some details about the conversation...

        Some details about the conversation...

        Some details about the conversation...

        Some details about the conversation...

        Some details about the conversation...

        Some details about the conversation...

        Some details about the conversation...

        Some details about the conversation...

        ----------------------------------------------------------------------------------------------------------------------------------------------------->

        Some details about the conversation...

        Some details about the conversation...

        Some details about the conversation...

        Some details about the conversation...

        Some details about the conversation...

        Some details about the conversation...

        Some details about the conversation...

        Some details about the conversation...

        ----------------------------------------------------------------------------------------------------------------------------------------------------->
        """#@
}

/// The canned body text, executable form.
pub fn detail_filler() -> (r: &'static str)
    ensures
        r@ == detail_filler_text(),
{
    r#"""
        Some details about the conversation...

        Some details about the conversation...

        Some details about the conversation...

        Some details about the conversation...

        Some details about the conversation...

        Some details about the conversation...

        Some details about the conversation...

        Some details about the conversation...

        ----------------------------------------------------------------------------------------------------------------------------------------------------->

        Some details about the conversation...

        Some details about the conversation...

        Some details about the conversation...

        Some details about the conversation...

        Some details about the conversation...

        Some details about the conversation...

        Some details about the conversation...

        Some details about the conversation...

        ----------------------------------------------------------------------------------------------------------------------------------------------------->

        Some details about the conversation...

        Some details about the conversation...

        Some details about the conversation...

        Some details about the conversation...

        Some details about the conversation...

        Some details about the conversation...

        Some details about the conversation...

        Some details about the conversation...

        ----------------------------------------------------------------------------------------------------------------------------------------------------->

        Some details about the conversation...

        Some details about the conversation...

        Some details about the conversation...

        Some details about the conversation...

        Some details about the conversation...

        Some details about the conversation...

        Some details about the conversation...

        Some details about the conversation...

        ----------------------------------------------------------------------------------------------------------------------------------------------------->

        Some details about the conversation...

        Some details about the conversation...

        Some details about the conversation...

        Some details about the conversation...

        Some details about the conversation...

        Some details about the conversation...

        Some details about the conversation...

        Some details about the conversation...

        ----------------------------------------------------------------------------------------------------------------------------------------------------->

        Some details about the conversation...

        Some details about the conversation...

        Some details about the conversation...

        Some details about the conversation...

        Some details about the conversation...

        Some details about the conversation...

        Some details about the conversation...

        Some details about the conversation...

        ----------------------------------------------------------------------------------------------------------------------------------------------------->
        """#
}

/// The full detail text for a record with the given title and
/// identifier: a header naming both, then the canned body.
pub open spec fn details_text(title: Seq<char>, id: Seq<char>) -> Seq<char> {
    "Conversation Title: "@ + title + "\nConversation ID: "@ + id
        + "\n\nConversation Details:\n"@ + detail_filler_text()
}

impl Conversation {
    /// The full text shown in the detail pane for this record.
    pub fn details(&self) -> (r: String)
        ensures
            r@ == details_text(self.title@, self.id@),
    {
        let mut r = String::from_str("Conversation Title: ");
        r.append(self.title.as_str());
        r.append("\nConversation ID: ");
        r.append(self.id.as_str());
        r.append("\n\nConversation Details:\n");
        r.append(detail_filler());
        proof {
            assert(r@ =~= details_text(self.title@, self.id@));
        }
        r
    }
}

/// A source of pages of conversation records. The navigation machinery
/// depends only on this contract, so a real backend can stand in for
/// the stub. Nothing here promises how long a page is: a consumer must
/// tolerate short and empty pages.
pub trait RecordSource: Sized {
    /// The title of record `k` on page `page`.
    spec fn page_title(&self, page: int, k: int) -> Seq<char>;

    /// The identifier of record `k` on page `page`.
    spec fn page_id(&self, page: int, k: int) -> Seq<char>;

    /// How many records page `page` holds.
    spec fn page_len(&self, page: int) -> nat;

    /// Fetches page `page`: deterministic, synchronous and total.
    fn fetch_page(&self, page: usize) -> (r: Vec<Conversation>)
        ensures
            r@.len() == self.page_len(page as int),
            forall|k: int|
                0 <= k < r@.len() ==> (#[trigger] r@[k]).title@ == self.page_title(
                    page as int,
                    k,
                ) && r@[k].id@ == self.page_id(page as int, k),
    ;
}

/// The one-based ordinal of record `k` on page `page` in the stub's
/// numbering: pages are consecutive windows of `PAGE_SIZE` records.
pub open spec fn stub_ordinal(page: int, k: int) -> nat {
    (page * PAGE_SIZE + k + 1) as nat
}

/// The stub's title for record `k` on page `page`.
pub open spec fn stub_title(page: int, k: int) -> Seq<char> {
    "Conversation "@ + decimal_digits(stub_ordinal(page, k))
}

/// The stub's identifier for record `k` on page `page`.
pub open spec fn stub_id(page: int, k: int) -> Seq<char> {
    "conv-"@ + decimal_digits(stub_ordinal(page, k))
}

/// Fetches one page of synthetic conversation records: always
/// `PAGE_SIZE` of them, numbered consecutively across pages.
pub fn fetch_conversations(page: usize) -> (r: Vec<Conversation>)
    ensures
        r@.len() == PAGE_SIZE,
        forall|k: int|
            0 <= k < r@.len() ==> (#[trigger] r@[k]).title@ == stub_title(page as int, k)
                && r@[k].id@ == stub_id(page as int, k),
{
    let base: u128 = (page as u128) * (PAGE_SIZE as u128);
    let mut out: Vec<Conversation> = Vec::new();
    let mut k: usize = 0;
    while k < PAGE_SIZE
        invariant
            k <= PAGE_SIZE,
            out@.len() == k,
            base == page as int * PAGE_SIZE as int,
            forall|j: int|
                0 <= j < k ==> (#[trigger] out@[j]).title@ == stub_title(page as int, j)
                    && out@[j].id@ == stub_id(page as int, j),
        decreases PAGE_SIZE - k,
    {
        let ord: u128 = base + (k as u128) + 1;
        assert(ord as nat == stub_ordinal(page as int, k as int));
        let mut title = String::from_str("Conversation ");
        push_decimal(&mut title, ord);
        let mut id = String::from_str("conv-");
        push_decimal(&mut id, ord);
        out.push(Conversation { title, id });
        k = k + 1;
    }
    out
}

/// The built-in record source: synthesizes records from the page index.
pub struct StubSource;

impl RecordSource for StubSource {
    open spec fn page_title(&self, page: int, k: int) -> Seq<char> {
        stub_title(page, k)
    }

    open spec fn page_id(&self, page: int, k: int) -> Seq<char> {
        stub_id(page, k)
    }

    open spec fn page_len(&self, page: int) -> nat {
        PAGE_SIZE as nat
    }

    fn fetch_page(&self, page: usize) -> (r: Vec<Conversation>) {
        fetch_conversations(page)
    }
}

} // verus!
