//! What the views show, apart from colours and sizes: the rows of the page
//! list, the icons, the counts, and the texts of the editor and the input.

use vstd::prelude::*;
use vstd::string::*;
use crate::pages::{PageItem, PageView};
use crate::text::{trim_text, trimmed};

verus! {

/// The indentation, in pixels, of one level of page depth.
pub const INDENT_PER_LEVEL: usize = 24;

/// How one row of the page list is laid out.
#[derive(Clone, Copy, PartialEq, Eq, Structural, Debug)]
pub struct PageRow {
    /// Indentation in pixels: the page's depth times the indentation of a level.
    pub indent: usize,
    /// A branch connector is drawn: the page is a sub-flow (depth above 0).
    pub branch: bool,
    /// The row has the card background: every second row.
    pub striped: bool,
}

/// How row `i` of the page list is laid out.
pub open spec fn row_of(pages: Seq<PageView>, i: int) -> PageRow {
    PageRow {
        indent: (pages[i].depth * INDENT_PER_LEVEL) as usize,
        branch: pages[i].depth > 0,
        striped: i % 2 == 1,
    }
}

/// Every page's indentation fits in a `usize`.
pub open spec fn indents_fit(pages: Seq<PageView>) -> bool {
    forall|i: int| 0 <= i < pages.len() ==> #[trigger] pages[i].depth * INDENT_PER_LEVEL <= usize::MAX
}

/// The layout of the rows of the page list.
pub fn page_rows(pages: &Vec<PageItem>) -> (rows: Vec<PageRow>)
    requires
        indents_fit(pages@.map_values(|p: PageItem| p@)),
    ensures
        rows@.len() == pages@.len(),
        forall|i: int| 0 <= i < rows@.len() ==> #[trigger] rows@[i] == row_of(pages@.map_values(|p: PageItem| p@), i),
{
    let ghost v = pages@.map_values(|p: PageItem| p@);
    let mut rows: Vec<PageRow> = Vec::new();
    let n = pages.len();
    let mut i: usize = 0;
    while i < n
        invariant
            n == pages@.len(),
            v == pages@.map_values(|p: PageItem| p@),
            indents_fit(v),
            i <= n,
            rows@.len() == i,
            forall|j: int| 0 <= j < i ==> #[trigger] rows@[j] == row_of(v, j),
        decreases n - i,
    {
        let depth = pages[i].depth;
        assert(v[i as int].depth * INDENT_PER_LEVEL <= usize::MAX);
        rows.push(PageRow { indent: depth * INDENT_PER_LEVEL, branch: depth > 0, striped: i % 2 == 1 });
        i = i + 1;
    }
    rows
}

/// The number of generated pages.
pub open spec fn done_count(pages: Seq<PageView>) -> nat
    decreases pages.len(),
{
    if pages.len() == 0 {
        0
    } else {
        done_count(pages.drop_last()) + if pages.last().done { 1nat } else { 0nat }
    }
}

/// The number of selected pages.
pub open spec fn selected_count(pages: Seq<PageView>) -> nat
    decreases pages.len(),
{
    if pages.len() == 0 {
        0
    } else {
        selected_count(pages.drop_last()) + if pages.last().selected { 1nat } else { 0nat }
    }
}

/// A count of pages is at most the number of pages.
pub proof fn lemma_counts_bounded(pages: Seq<PageView>)
    ensures
        done_count(pages) <= pages.len(),
        selected_count(pages) <= pages.len(),
    decreases pages.len(),
{
    if pages.len() > 0 {
        lemma_counts_bounded(pages.drop_last());
    }
}

/// The number of generated pages, shown as "done/total pages completed".
pub fn count_done(pages: &Vec<PageItem>) -> (r: usize)
    ensures
        r == done_count(pages@.map_values(|p: PageItem| p@)),
{
    let ghost v = pages@.map_values(|p: PageItem| p@);
    let n = pages.len();
    let mut c: usize = 0;
    let mut i: usize = 0;
    while i < n
        invariant
            n == pages@.len(),
            v == pages@.map_values(|p: PageItem| p@),
            i <= n,
            c == done_count(v.take(i as int)),
        decreases n - i,
    {
        proof {
            assert(v.take(i + 1).drop_last() =~= v.take(i as int));
            lemma_counts_bounded(v.take(i as int));
        }
        if pages[i].done {
            c = c + 1;
        }
        i = i + 1;
    }
    assert(v.take(n as int) =~= v);
    c
}

/// The number of selected pages, shown as "Generate N pages".
pub fn count_selected(pages: &Vec<PageItem>) -> (r: usize)
    ensures
        r == selected_count(pages@.map_values(|p: PageItem| p@)),
{
    let ghost v = pages@.map_values(|p: PageItem| p@);
    let n = pages.len();
    let mut c: usize = 0;
    let mut i: usize = 0;
    while i < n
        invariant
            n == pages@.len(),
            v == pages@.map_values(|p: PageItem| p@),
            i <= n,
            c == selected_count(v.take(i as int)),
        decreases n - i,
    {
        proof {
            assert(v.take(i + 1).drop_last() =~= v.take(i as int));
            lemma_counts_bounded(v.take(i as int));
        }
        if pages[i].selected {
            c = c + 1;
        }
        i = i + 1;
    }
    assert(v.take(n as int) =~= v);
    c
}

/// The icon of the page in row `i`: one of ten, then a document for the rest.
pub open spec fn icon_of(i: usize) -> Seq<char> {
    if i == 0 { "🛒"@ }
    else if i == 1 { "📄"@ }
    else if i == 2 { "🛵"@ }
    else if i == 3 { "💳"@ }
    else if i == 4 { "👤"@ }
    else if i == 5 { "📦"@ }
    else if i == 6 { "⚙️"@ }
    else if i == 7 { "🏠"@ }
    else if i == 8 { "📊"@ }
    else if i == 9 { "🔐"@ }
    else { "📄"@ }
}

/// The icon of the page in row `i`.
pub fn page_icon(i: usize) -> (r: &'static str)
    ensures
        r@ == icon_of(i),
{
    if i == 0 { "🛒" }
    else if i == 1 { "📄" }
    else if i == 2 { "🛵" }
    else if i == 3 { "💳" }
    else if i == 4 { "👤" }
    else if i == 5 { "📦" }
    else if i == 6 { "⚙️" }
    else if i == 7 { "🏠" }
    else if i == 8 { "📊" }
    else if i == 9 { "🔐" }
    else { "📄" }
}

/// The title of the editor: the edited page's name, or "Unknown".
pub open spec fn editor_title_of(pages: Seq<PageView>, idx: usize) -> Seq<char> {
    if idx < pages.len() {
        pages[idx as int].name
    } else {
        "Unknown"@
    }
}

/// The title of the editor.
pub fn editor_title(pages: &Vec<PageItem>, idx: usize) -> (r: String)
    ensures
        r@ == editor_title_of(pages@.map_values(|p: PageItem| p@), idx),
{
    if idx < pages.len() {
        pages[idx].name.clone()
    } else {
        String::from_str("Unknown")
    }
}

/// The design preview in the editor: the edited page's preview, or nothing.
pub open spec fn editor_preview_of(pages: Seq<PageView>, idx: usize) -> Seq<char> {
    if idx < pages.len() {
        pages[idx as int].design_preview
    } else {
        Seq::empty()
    }
}

/// The design preview in the editor; an empty one is not shown.
pub fn editor_preview(pages: &Vec<PageItem>, idx: usize) -> (r: String)
    ensures
        r@ == editor_preview_of(pages@.map_values(|p: PageItem| p@), idx),
{
    if idx < pages.len() {
        pages[idx].design_preview.clone()
    } else {
        String::new()
    }
}

/// What a text field shows: its text, or the placeholder when it is empty.
pub fn field_display<'a>(text: &'a str, placeholder: &'a str) -> (r: &'a str)
    ensures
        r@ == if text@.len() == 0 { placeholder@ } else { text@ },
{
    if text.is_empty() {
        placeholder
    } else {
        text
    }
}

/// The "Split" button is active: the description is not blank.
pub fn can_split(text: &str) -> (r: bool)
    ensures
        r == (trimmed(text@).len() > 0),
{
    !trim_text(text).is_empty()
}

} // verus!
