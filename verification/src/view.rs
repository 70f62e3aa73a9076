//! The view state machine of the design window: which view is shown, the
//! text being typed, the page being edited, and the commands sent to the
//! scripting side.

use vstd::prelude::*;
use vstd::string::*;
use vstd::utf8::{encode_scalar, encode_utf8};
use crate::pages::{
    pages_with_prompt, GuiApp, PageItem, PageView,
};
use crate::text::{decimal, pop_char, push_decimal, same_text, trim_text, trimmed};

verus! {

/// The view shown in the main area.
#[derive(Clone, Copy, PartialEq, Eq, Structural, Debug)]
pub enum ViewState {
    Input,
    PageList,
    SingleEditor,
    BatchGenerate,
}

/// A request to the scripting side.
pub enum Command {
    /// Split the project description into pages.
    Split(String),
    /// Generate the design of one page: its index and name.
    GeneratePage(usize, String),
    /// Generate every selected page.
    GenerateAll,
}

/// A command as a mathematical value.
pub enum CommandView {
    Split(Seq<char>),
    GeneratePage(usize, Seq<char>),
    GenerateAll,
}

impl View for Command {
    type V = CommandView;

    open spec fn view(&self) -> CommandView {
        match self {
            Command::Split(req) => CommandView::Split(req@),
            Command::GeneratePage(i, name) => CommandView::GeneratePage(*i, name@),
            Command::GenerateAll => CommandView::GenerateAll,
        }
    }
}

/// An optional command as an optional mathematical value.
pub open spec fn command_of(c: Option<Command>) -> Option<CommandView> {
    match c {
        Some(c) => Some(c@),
        None => None,
    }
}

/// The text of a command as the scripting side reads it.
pub open spec fn command_text_of(c: CommandView) -> Seq<char> {
    match c {
        CommandView::Split(req) => "/split "@ + req,
        CommandView::GeneratePage(i, name) => "/generate_page "@ + decimal(i as nat) + " "@ + name,
        CommandView::GenerateAll => "/generate_all"@,
    }
}

/// The text of a command as the scripting side reads it.
pub fn command_text(c: &Command) -> (r: String)
    ensures
        r@ == command_text_of(c@),
{
    match c {
        Command::Split(req) => {
            let mut s = String::from_str("/split ");
            s.append(req.as_str());
            s
        },
        Command::GeneratePage(i, name) => {
            let mut s = String::from_str("/generate_page ");
            push_decimal(&mut s, *i);
            s.append(" ");
            s.append(name.as_str());
            s
        },
        Command::GenerateAll => String::from_str("/generate_all"),
    }
}

/// The state of the design window.
pub struct DesignView {
    pub input_text: String,
    pub view: ViewState,
    pub edit_idx: usize,
    pub edit_prompt: String,
}

/// The state of the design window as a mathematical value.
pub struct DesignModel {
    pub input_text: Seq<char>,
    pub view: ViewState,
    pub edit_idx: usize,
    pub edit_prompt: Seq<char>,
}

impl View for DesignView {
    type V = DesignModel;

    open spec fn view(&self) -> DesignModel {
        DesignModel {
            input_text: self.input_text@,
            view: self.view,
            edit_idx: self.edit_idx,
            edit_prompt: self.edit_prompt@,
        }
    }
}

/// The window as it opens: the input view with nothing typed.
pub open spec fn initial_model() -> DesignModel {
    DesignModel {
        input_text: Seq::empty(),
        view: ViewState::Input,
        edit_idx: 0,
        edit_prompt: Seq::empty(),
    }
}

/// A key that deletes the last character.
pub open spec fn is_delete_key(key: Seq<char>) -> bool {
    key == "backspace"@ || key == "delete"@
}

/// The key that submits the project description.
pub open spec fn is_enter_key(key: Seq<char>) -> bool {
    key == "enter"@
}

/// The key that types a space.
pub open spec fn is_space_key(key: Seq<char>) -> bool {
    key == "space"@
}

/// A key whose text is one byte long in UTF-8 (a single ASCII character),
/// and is typed as it is.
pub open spec fn is_char_key(key: Seq<char>) -> bool {
    key.len() == 1 && (key[0] as u32) < 0x80
}

proof fn lemma_encoded_len_at_least(k: Seq<char>)
    ensures
        encode_utf8(k).len() >= k.len(),
    decreases k.len(),
{
    if k.len() > 0 {
        lemma_encoded_len_at_least(k.drop_first());
    }
}

/// A key is typed as it is exactly when its text is one byte long in UTF-8.
pub proof fn lemma_char_key_is_one_byte(k: Seq<char>)
    ensures
        is_char_key(k) <==> encode_utf8(k).len() == 1,
{
    if k.len() > 0 {
        lemma_encoded_len_at_least(k.drop_first());
        assert(encode_utf8(k) == encode_scalar(k[0] as u32) + encode_utf8(k.drop_first()));
        if k.len() == 1 {
            assert(k.drop_first().len() == 0);
            assert(encode_utf8(k.drop_first()).len() == 0);
        }
    }
}

/// A text after a key press in a text field.
pub open spec fn text_after_key(text: Seq<char>, key: Seq<char>) -> Seq<char> {
    if is_delete_key(key) {
        if text.len() > 0 {
            text.drop_last()
        } else {
            text
        }
    } else if is_space_key(key) {
        text.push(' ')
    } else if is_char_key(key) {
        text + key
    } else {
        text
    }
}

/// The request that submitting the description sends: none when it is blank.
pub open spec fn split_command(m: DesignModel) -> Option<CommandView> {
    if trimmed(m.input_text).len() == 0 {
        None
    } else {
        Some(CommandView::Split(trimmed(m.input_text)))
    }
}

/// The window after submitting the description: the page list, unless the
/// description is blank.
pub open spec fn after_split(m: DesignModel) -> DesignModel {
    if trimmed(m.input_text).len() == 0 {
        m
    } else {
        DesignModel { view: ViewState::PageList, ..m }
    }
}

/// Whether a key press in the input field submits the description.
pub open spec fn key_submits(m: DesignModel, key: Seq<char>) -> bool {
    is_enter_key(key) && m.view == ViewState::Input
}

/// The window after a key press in the input field.
pub open spec fn after_key(m: DesignModel, key: Seq<char>) -> DesignModel {
    if key_submits(m, key) {
        after_split(m)
    } else {
        DesignModel { input_text: text_after_key(m.input_text, key), ..m }
    }
}

/// The request that a key press in the input field sends.
pub open spec fn key_command(m: DesignModel, key: Seq<char>) -> Option<CommandView> {
    if key_submits(m, key) {
        split_command(m)
    } else {
        None
    }
}

/// The window after a key press in the prompt editor.
pub open spec fn after_editor_key(m: DesignModel, key: Seq<char>) -> DesignModel {
    DesignModel { edit_prompt: text_after_key(m.edit_prompt, key), ..m }
}

/// The window after choosing page `idx` to edit: its prompt is loaded into
/// the editor, unless there is no such page.
pub open spec fn after_edit_page(m: DesignModel, pages: Seq<PageView>, idx: usize) -> DesignModel {
    if idx < pages.len() {
        DesignModel {
            edit_idx: idx,
            edit_prompt: pages[idx as int].prompt,
            view: ViewState::SingleEditor,
            ..m
        }
    } else {
        m
    }
}

/// The pages after leaving the editor: the edited prompt is stored in the
/// page being edited, where there is one.
pub open spec fn pages_after_save(m: DesignModel, pages: Seq<PageView>) -> Seq<PageView> {
    if m.edit_idx < pages.len() {
        pages_with_prompt(pages, m.edit_idx as int, m.edit_prompt)
    } else {
        pages
    }
}

/// The window after leaving the editor: the page list.
pub open spec fn after_save(m: DesignModel) -> DesignModel {
    DesignModel { view: ViewState::PageList, ..m }
}

/// The request that generating the edited page sends, given the pages after
/// the prompt was stored.
pub open spec fn generate_page_command(m: DesignModel, pages: Seq<PageView>) -> Option<CommandView> {
    if m.edit_idx < pages.len() {
        Some(CommandView::GeneratePage(m.edit_idx, pages[m.edit_idx as int].name))
    } else {
        None
    }
}

/// The window after "New Project": the input view with nothing typed.
pub open spec fn after_new_project(m: DesignModel) -> DesignModel {
    DesignModel { input_text: Seq::empty(), view: ViewState::Input, ..m }
}

/// Whether some page is selected.
pub open spec fn any_selected(pages: Seq<PageView>) -> bool {
    exists|i: int| 0 <= i < pages.len() && #[trigger] pages[i].selected
}

/// The window after "Generate all": the batch view, if some page is selected.
pub open spec fn after_generate_all(m: DesignModel, pages: Seq<PageView>) -> DesignModel {
    if any_selected(pages) {
        DesignModel { view: ViewState::BatchGenerate, ..m }
    } else {
        m
    }
}

/// The request that "Generate all" sends.
pub open spec fn generate_all_command(pages: Seq<PageView>) -> Option<CommandView> {
    if any_selected(pages) {
        Some(CommandView::GenerateAll)
    } else {
        None
    }
}

/// Every selected page is generated.
pub open spec fn selected_all_done(pages: Seq<PageView>) -> bool {
    forall|i: int| 0 <= i < pages.len() && (#[trigger] pages[i]).selected ==> pages[i].done
}

/// The window after the page list changed: the batch view gives way to the
/// page list once every selected page is generated.
pub open spec fn after_pages_updated(m: DesignModel, pages: Seq<PageView>) -> DesignModel {
    if m.view == ViewState::BatchGenerate && selected_all_done(pages) {
        DesignModel { view: ViewState::PageList, ..m }
    } else {
        m
    }
}

/// Whether every selected page is generated.
pub fn all_selected_done(pages: &Vec<PageItem>) -> (r: bool)
    ensures
        r == selected_all_done(pages@.map_values(|p: PageItem| p@)),
{
    let ghost v = pages@.map_values(|p: PageItem| p@);
    let n = pages.len();
    let mut i: usize = 0;
    while i < n
        invariant
            n == pages@.len(),
            v == pages@.map_values(|p: PageItem| p@),
            i <= n,
            forall|j: int| 0 <= j < i && (#[trigger] v[j]).selected ==> v[j].done,
        decreases n - i,
    {
        if pages[i].selected && !pages[i].done {
            assert(v[i as int].selected && !v[i as int].done);
            return false;
        }
        i = i + 1;
    }
    true
}

/// The text of a pressed key: the character it types where it types one,
/// else the key's name.
pub fn pressed_key<'a>(key_char: &'a Option<String>, key: &'a String) -> (r: &'a str)
    ensures
        r@ == match key_char {
            Some(c) => c@,
            None => key@,
        },
{
    match key_char {
        Some(c) => c.as_str(),
        None => key.as_str(),
    }
}

/// Whether some page is selected.
pub fn has_selected(pages: &Vec<PageItem>) -> (r: bool)
    ensures
        r == any_selected(pages@.map_values(|p: PageItem| p@)),
{
    let ghost v = pages@.map_values(|p: PageItem| p@);
    let n = pages.len();
    let mut i: usize = 0;
    while i < n
        invariant
            n == pages@.len(),
            v == pages@.map_values(|p: PageItem| p@),
            i <= n,
            forall|j: int| 0 <= j < i ==> !(#[trigger] v[j]).selected,
        decreases n - i,
    {
        if pages[i].selected {
            assert(v[i as int].selected);
            return true;
        }
        i = i + 1;
    }
    false
}

impl DesignView {
    /// The window as it opens.
    pub fn new() -> (r: DesignView)
        ensures
            r@ == initial_model(),
    {
        DesignView {
            input_text: String::new(),
            view: ViewState::Input,
            edit_idx: 0,
            edit_prompt: String::new(),
        }
    }

    /// Submits the project description: a non-blank description, trimmed,
    /// is sent to be split into pages and the page list is shown.
    pub fn start_split(&mut self) -> (cmd: Option<Command>)
        ensures
            final(self)@ == after_split(old(self)@),
            command_of(cmd) == split_command(old(self)@),
    {
        let req = trim_text(self.input_text.as_str());
        if req.is_empty() {
            return None;
        }
        self.view = ViewState::PageList;
        Some(Command::Split(String::from_str(req)))
    }

    /// A key press in the project description field.
    pub fn handle_key(&mut self, key: &str) -> (cmd: Option<Command>)
        ensures
            final(self)@ == after_key(old(self)@, key@),
            command_of(cmd) == key_command(old(self)@, key@),
    {
        if same_text(key, "enter") && self.view == ViewState::Input {
            return self.start_split();
        }
        type_key(&mut self.input_text, key);
        None
    }

    /// The page list changed: leaves the batch view for the page list once
    /// every selected page is generated.
    pub fn pages_updated(&mut self, app: &GuiApp)
        ensures
            final(self)@ == after_pages_updated(old(self)@, app@),
    {
        if self.view == ViewState::BatchGenerate && all_selected_done(&app.pages) {
            self.view = ViewState::PageList;
        }
    }

    /// A key press in the prompt editor.
    pub fn handle_editor_key(&mut self, key: &str)
        ensures
            final(self)@ == after_editor_key(old(self)@, key@),
    {
        type_key(&mut self.edit_prompt, key);
    }

    /// Opens page `idx` in the editor, where there is one.
    pub fn edit_page(&mut self, app: &GuiApp, idx: usize)
        ensures
            final(self)@ == after_edit_page(old(self)@, app@, idx),
    {
        if idx < app.pages.len() {
            self.edit_idx = idx;
            self.edit_prompt = app.pages[idx].prompt.clone();
            self.view = ViewState::SingleEditor;
        }
    }

    /// Leaves the editor: stores the edited prompt in its page and shows the
    /// page list.
    pub fn save_and_back(&mut self, app: &mut GuiApp)
        ensures
            final(self)@ == after_save(old(self)@),
            final(app)@ == pages_after_save(old(self)@, old(app)@),
    {
        if self.edit_idx < app.pages.len() {
            let i = self.edit_idx;
            app.pages[i].prompt = self.edit_prompt.clone();
            assert(app@ =~= pages_after_save(old(self)@, old(app)@));
        }
        self.view = ViewState::PageList;
    }

    /// Leaves the editor as `save_and_back` does, then asks for the edited
    /// page to be generated.
    pub fn generate_page(&mut self, app: &mut GuiApp) -> (cmd: Option<Command>)
        ensures
            final(self)@ == after_save(old(self)@),
            final(app)@ == pages_after_save(old(self)@, old(app)@),
            command_of(cmd) == generate_page_command(old(self)@, final(app)@),
    {
        self.save_and_back(app);
        if self.edit_idx < app.pages.len() {
            let i = self.edit_idx;
            Some(Command::GeneratePage(i, app.pages[i].name.clone()))
        } else {
            None
        }
    }

    /// "New Project": clears the description and the page list and shows the
    /// input view.
    pub fn new_project(&mut self, app: &mut GuiApp)
        ensures
            final(self)@ == after_new_project(old(self)@),
            final(app)@ == Seq::<PageView>::empty(),
    {
        self.input_text = String::new();
        self.view = ViewState::Input;
        app.pages = Vec::new();
        assert(app@ =~= Seq::<PageView>::empty());
    }

    /// "Generate all": shows the batch view and asks for every selected page
    /// to be generated, if some page is selected; otherwise nothing happens.
    pub fn generate_all(&mut self, app: &GuiApp) -> (cmd: Option<Command>)
        ensures
            final(self)@ == after_generate_all(old(self)@, app@),
            command_of(cmd) == generate_all_command(app@),
    {
        if has_selected(&app.pages) {
            self.view = ViewState::BatchGenerate;
            Some(Command::GenerateAll)
        } else {
            None
        }
    }
}

/// Applies a key press to the text of a field.
fn type_key(text: &mut String, key: &str)
    ensures
        final(text)@ == text_after_key(old(text)@, key@),
{
    if same_text(key, "backspace") || same_text(key, "delete") {
        let _ = pop_char(text);
    } else if same_text(key, "space") {
        text.append(" ");
        proof {
            reveal_strlit(" ");
        }
        assert(final(text)@ =~= old(text)@.push(' '));
    } else if key.unicode_len() == 1 && (key.get_char(0) as u32) < 0x80 {
        text.append(key);
    }
}

} // verus!
