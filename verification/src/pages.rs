//! The page list: what the scripting side sets, what the page list view
//! shows, and the per-page changes.

use vstd::prelude::*;
use vstd::string::*;
use crate::json::{json_page_entries, json_string_list, parse_page_entries, parse_string_list, JsonPageEntry};

verus! {

/// One page of the project.
pub struct PageItem {
    pub name: String,
    pub selected: bool,
    pub done: bool,
    pub prompt: String,
    pub design_preview: String,
    pub depth: usize,
}

/// A page as a mathematical value.
pub struct PageView {
    pub name: Seq<char>,
    pub selected: bool,
    pub done: bool,
    pub prompt: Seq<char>,
    pub design_preview: Seq<char>,
    pub depth: usize,
}

impl View for PageItem {
    type V = PageView;

    open spec fn view(&self) -> PageView {
        PageView {
            name: self.name@,
            selected: self.selected,
            done: self.done,
            prompt: self.prompt@,
            design_preview: self.design_preview@,
            depth: self.depth,
        }
    }
}

/// The page list that the scripting side fills and the GUI reads.
pub struct GuiApp {
    pub pages: Vec<PageItem>,
}

impl View for GuiApp {
    type V = Seq<PageView>;

    open spec fn view(&self) -> Seq<PageView> {
        self.pages@.map_values(|p: PageItem| p@)
    }
}

/// A page as it is first listed: selected, not generated, with no prompt and
/// no preview.
pub open spec fn fresh_page(name: Seq<char>, depth: usize) -> PageView {
    PageView {
        name: name,
        selected: true,
        done: false,
        prompt: Seq::empty(),
        design_preview: Seq::empty(),
        depth: depth,
    }
}

/// The name given to an entry without a string `"name"`.
pub open spec fn default_page_name() -> Seq<char> {
    "Page"@
}

/// The pages listed by a JSON array of names: all at depth 0.
pub open spec fn pages_of_names(names: Seq<Seq<char>>) -> Seq<PageView> {
    names.map_values(|n: Seq<char>| fresh_page(n, 0))
}

/// The page listed by one JSON entry.
pub open spec fn page_of_entry(e: (Option<Seq<char>>, Option<u64>)) -> PageView {
    fresh_page(
        match e.0 {
            Some(n) => n,
            None => default_page_name(),
        },
        match e.1 {
            Some(d) => d as usize,
            None => 0,
        },
    )
}

/// The pages listed by JSON entries.
pub open spec fn pages_of_entries(entries: Seq<(Option<Seq<char>>, Option<u64>)>) -> Seq<PageView> {
    entries.map_values(|e: (Option<Seq<char>>, Option<u64>)| page_of_entry(e))
}

/// The page list after the scripting side sends `text`: an array of names,
/// else an array of entries read under the keys "name" and "depth", else
/// (not a JSON array) the list as it was.
pub open spec fn pages_after_json(pages: Seq<PageView>, text: Seq<char>) -> Seq<PageView> {
    match json_string_list(text) {
        Some(names) => pages_of_names(names),
        None => match json_page_entries(text, "name"@, "depth"@) {
            Some(entries) => pages_of_entries(entries),
            None => pages,
        },
    }
}

/// Whether `index` names a page of a list of `len` pages.
pub open spec fn index_in_range(index: i32, len: nat) -> bool {
    0 <= index && index < len
}

/// The pages with page `i` marked generated.
pub open spec fn pages_with_done(pages: Seq<PageView>, i: int) -> Seq<PageView> {
    pages.update(i, PageView { done: true, ..pages[i] })
}

/// The pages with the preview of page `i` replaced.
pub open spec fn pages_with_preview(pages: Seq<PageView>, i: int, text: Seq<char>) -> Seq<PageView> {
    pages.update(i, PageView { design_preview: text, ..pages[i] })
}

/// The pages with the prompt of page `i` replaced.
pub open spec fn pages_with_prompt(pages: Seq<PageView>, i: int, text: Seq<char>) -> Seq<PageView> {
    pages.update(i, PageView { prompt: text, ..pages[i] })
}

/// The pages with the selection of page `i` flipped, where there is one.
pub open spec fn pages_with_toggled(pages: Seq<PageView>, i: int) -> Seq<PageView> {
    if 0 <= i < pages.len() {
        pages.update(i, PageView { selected: !pages[i].selected, ..pages[i] })
    } else {
        pages
    }
}

/// Creates an empty page list; the configuration text is not read.
pub fn gui_app_create(config_json: &str) -> (app: GuiApp)
    ensures
        app@ == Seq::<PageView>::empty(),
{
    GuiApp { pages: Vec::new() }
}

/// The pages listed by a JSON array of names.
pub fn pages_from_names(names: &Vec<String>) -> (pages: Vec<PageItem>)
    ensures
        pages@.map_values(|p: PageItem| p@) == pages_of_names(names@.map_values(|n: String| n@)),
{
    let mut pages: Vec<PageItem> = Vec::new();
    let n = names.len();
    let mut i: usize = 0;
    while i < n
        invariant
            n == names@.len(),
            i <= n,
            pages@.len() == i,
            forall|j: int| 0 <= j < i ==> #[trigger] pages@[j]@ == fresh_page(names@[j]@, 0),
        decreases n - i,
    {
        pages.push(PageItem {
            name: names[i].clone(),
            selected: true,
            done: false,
            prompt: String::new(),
            design_preview: String::new(),
            depth: 0,
        });
        i = i + 1;
    }
    assert(pages@.map_values(|p: PageItem| p@) =~= pages_of_names(names@.map_values(|n: String| n@)));
    pages
}

/// The pages listed by JSON entries: a missing name is "Page", a missing
/// depth is 0.
pub fn pages_from_entries(entries: &Vec<JsonPageEntry>) -> (pages: Vec<PageItem>)
    ensures
        pages@.map_values(|p: PageItem| p@) == pages_of_entries(entries@.map_values(|e: JsonPageEntry| e@)),
{
    let mut pages: Vec<PageItem> = Vec::new();
    let n = entries.len();
    let mut i: usize = 0;
    while i < n
        invariant
            n == entries@.len(),
            i <= n,
            pages@.len() == i,
            forall|j: int| 0 <= j < i ==> #[trigger] pages@[j]@ == page_of_entry(entries@[j]@),
        decreases n - i,
    {
        let entry = &entries[i];
        let name = match &entry.name {
            Some(n) => n.clone(),
            None => String::from_str("Page"),
        };
        let depth: usize = match entry.depth {
            Some(d) => d as usize,
            None => 0,
        };
        pages.push(PageItem {
            name: name,
            selected: true,
            done: false,
            prompt: String::new(),
            design_preview: String::new(),
            depth: depth,
        });
        i = i + 1;
    }
    assert(pages@.map_values(|p: PageItem| p@) =~= pages_of_entries(entries@.map_values(|e: JsonPageEntry| e@)));
    pages
}

/// Replaces the page list with the one that `pages_json` lists: a JSON array
/// of names (all at depth 0), or a JSON array of objects with a `"name"` and
/// a `"depth"`. Any other text leaves the list as it was.
pub fn gui_set_pages(app: &mut GuiApp, pages_json: &str)
    ensures
        final(app)@ == pages_after_json(old(app)@, pages_json@),
        json_page_entries(pages_json@, "name"@, "depth"@) matches Some(entries)
            ==> final(app)@.len() == entries.len(),
{
    match parse_string_list(pages_json) {
        Some(names) => {
            app.pages = pages_from_names(&names);
        },
        None => match parse_page_entries(pages_json, "name", "depth") {
            Some(entries) => {
                app.pages = pages_from_entries(&entries);
            },
            None => {},
        },
    }
}

/// Marks page `index` generated; an index outside the list changes nothing.
pub fn gui_set_page_done(app: &mut GuiApp, index: i32)
    ensures
        final(app)@ == if index_in_range(index, old(app)@.len()) {
            pages_with_done(old(app)@, index as int)
        } else {
            old(app)@
        },
{
    if index >= 0 && (index as usize) < app.pages.len() {
        let i = index as usize;
        app.pages[i].done = true;
        assert(app@ =~= pages_with_done(old(app)@, index as int));
    }
}

/// Sets the design preview of page `index`; an index outside the list
/// changes nothing.
pub fn gui_set_page_preview(app: &mut GuiApp, index: i32, text: String)
    ensures
        final(app)@ == if index_in_range(index, old(app)@.len()) {
            pages_with_preview(old(app)@, index as int, text@)
        } else {
            old(app)@
        },
{
    if index >= 0 && (index as usize) < app.pages.len() {
        let i = index as usize;
        app.pages[i].design_preview = text;
        assert(app@ =~= pages_with_preview(old(app)@, index as int, text@));
    }
}

/// Sets the prompt of page `index`; an index outside the list changes
/// nothing.
pub fn gui_set_page_prompt(app: &mut GuiApp, index: i32, prompt: String)
    ensures
        final(app)@ == if index_in_range(index, old(app)@.len()) {
            pages_with_prompt(old(app)@, index as int, prompt@)
        } else {
            old(app)@
        },
{
    if index >= 0 && (index as usize) < app.pages.len() {
        let i = index as usize;
        app.pages[i].prompt = prompt;
        assert(app@ =~= pages_with_prompt(old(app)@, index as int, prompt@));
    }
}

/// Flips whether page `idx` takes part in "generate all"; an index outside
/// the list changes nothing.
pub fn toggle_page_selected(app: &mut GuiApp, idx: usize)
    ensures
        final(app)@ == pages_with_toggled(old(app)@, idx as int),
{
    if idx < app.pages.len() {
        let flipped = !app.pages[idx].selected;
        app.pages[idx].selected = flipped;
        assert(app@ =~= pages_with_toggled(old(app)@, idx as int));
    }
}

} // verus!
