//! Properties that relate the operations of the page list and of the view
//! state machine to one another.

use vstd::prelude::*;
use crate::layout::{done_count, selected_count};
use crate::pages::{
    pages_after_json, pages_of_entries, pages_of_names, pages_with_done, pages_with_preview,
    pages_with_prompt, pages_with_toggled, PageView,
};
use crate::text::{decimal, digit_char, is_blank, lemma_trimmed_empty_iff_blank, trimmed};
use crate::view::{
    after_edit_page, after_save, after_split, any_selected, command_text_of, generate_all_command,
    generate_page_command, is_char_key, pages_after_save, split_command, text_after_key,
    CommandView, DesignModel, ViewState,
};

verus! {

/// Flipping the selection of a page twice leaves the page list as it was.
pub proof fn law_toggle_twice_restores(pages: Seq<PageView>, i: int)
    ensures
        pages_with_toggled(pages_with_toggled(pages, i), i) == pages,
{
    assert(pages_with_toggled(pages_with_toggled(pages, i), i) =~= pages);
}

/// The prompt stored when leaving the editor is the prompt loaded when the
/// same page is opened again.
pub proof fn law_saved_prompt_reloads(m: DesignModel, pages: Seq<PageView>)
    requires
        m.edit_idx < pages.len(),
    ensures
        after_edit_page(after_save(m), pages_after_save(m, pages), m.edit_idx).edit_prompt
            == m.edit_prompt,
{
}

/// Opening a page and leaving the editor without typing leaves the page list
/// as it was.
pub proof fn law_open_and_leave_keeps_pages(m: DesignModel, pages: Seq<PageView>, idx: usize)
    requires
        idx < pages.len(),
    ensures
        pages_after_save(after_edit_page(m, pages, idx), pages) == pages,
{
    let m2 = after_edit_page(m, pages, idx);
    assert(pages_with_prompt(pages, idx as int, m2.edit_prompt) =~= pages);
}

/// A prompt that the scripting side sets for a page is the prompt that the
/// editor loads for it.
pub proof fn law_set_prompt_then_edit(m: DesignModel, pages: Seq<PageView>, i: usize, text: Seq<char>)
    requires
        i < pages.len(),
    ensures
        after_edit_page(m, pages_with_prompt(pages, i as int, text), i).edit_prompt == text,
        after_edit_page(m, pages_with_prompt(pages, i as int, text), i).view
            == ViewState::SingleEditor,
{
}

/// Typing a character, or a space, and then deleting gives back the text.
pub proof fn law_type_then_delete_restores(text: Seq<char>, key: Seq<char>)
    requires
        is_char_key(key) || key == "space"@,
    ensures
        text_after_key(text_after_key(text, key), "backspace"@) == text,
{
    reveal_strlit("space");
    reveal_strlit("backspace");
    reveal_strlit("delete");
    if key == "space"@ {
        assert(key.len() == 5 && "backspace"@.len() == 9 && "delete"@.len() == 6);
        assert(text_after_key(text, key) == text.push(' '));
        assert(text.push(' ').drop_last() =~= text);
    } else {
        assert(key.len() == 1 && "backspace"@.len() == 9 && "delete"@.len() == 6);
        assert(key != "backspace"@ && key != "delete"@);
        assert((text + key).drop_last() =~= text);
    }
}

/// A blank description sends nothing and changes nothing; any other is sent
/// trimmed and leads to the page list.
pub proof fn law_split_only_when_not_blank(m: DesignModel)
    ensures
        is_blank(m.input_text) ==> split_command(m) is None && after_split(m) == m,
        !is_blank(m.input_text) ==> split_command(m) == Some(CommandView::Split(trimmed(m.input_text)))
            && after_split(m).view == ViewState::PageList,
{
    lemma_trimmed_empty_iff_blank(m.input_text);
}

proof fn lemma_selected_count_positive(pages: Seq<PageView>)
    ensures
        selected_count(pages) > 0 <==> any_selected(pages),
    decreases pages.len(),
{
    if pages.len() > 0 {
        let init = pages.drop_last();
        lemma_selected_count_positive(init);
        if any_selected(init) {
            let j = choose|j: int| 0 <= j < init.len() && #[trigger] init[j].selected;
            assert(pages[j].selected);
        }
        if any_selected(pages) {
            let j = choose|j: int| 0 <= j < pages.len() && #[trigger] pages[j].selected;
            if j < init.len() {
                assert(init[j].selected);
            }
        }
        if pages.last().selected {
            assert(pages[pages.len() - 1].selected);
        }
    }
}

/// "Generate all" sends its request exactly when the count it shows is not zero.
pub proof fn law_generate_all_iff_count(pages: Seq<PageView>)
    ensures
        generate_all_command(pages) is Some <==> selected_count(pages) > 0,
{
    lemma_selected_count_positive(pages);
}

proof fn lemma_done_count_update(pages: Seq<PageView>, i: int, p: PageView)
    requires
        0 <= i < pages.len(),
    ensures
        done_count(pages.update(i, p)) + (if pages[i].done { 1int } else { 0int })
            == done_count(pages) + (if p.done { 1int } else { 0int }),
    decreases pages.len(),
{
    let q = pages.update(i, p);
    if i == pages.len() - 1 {
        assert(q.drop_last() =~= pages.drop_last());
    } else {
        lemma_done_count_update(pages.drop_last(), i, p);
        assert(q.drop_last() =~= pages.drop_last().update(i, p));
    }
}

/// Marking a page generated that was not raises the completed count by one;
/// marking one that was leaves it as it was.
pub proof fn law_done_raises_count(pages: Seq<PageView>, i: int)
    requires
        0 <= i < pages.len(),
    ensures
        done_count(pages_with_done(pages, i)) == done_count(pages) + if pages[i].done { 0nat } else { 1nat },
{
    lemma_done_count_update(pages, i, PageView { done: true, ..pages[i] });
}

/// A JSON array of names lists one page per name, in order, each at depth 0,
/// selected, not generated, with no prompt and no preview.
pub proof fn law_name_list_pages_fresh(names: Seq<Seq<char>>)
    ensures
        pages_of_names(names).len() == names.len(),
        forall|i: int| 0 <= i < names.len() ==> {
            let p = #[trigger] pages_of_names(names)[i];
            &&& p.name == names[i]
            &&& p.depth == 0
            &&& p.selected
            &&& !p.done
            &&& p.prompt.len() == 0
            &&& p.design_preview.len() == 0
        },
{
}

/// Sending the same page list twice has the effect of sending it once.
pub proof fn law_set_pages_idempotent(pages: Seq<PageView>, text: Seq<char>)
    ensures
        pages_after_json(pages_after_json(pages, text), text) == pages_after_json(pages, text),
{
}

/// Every page read from a JSON array of entries starts fresh: selected, not
/// generated, with an empty prompt and an empty preview; its name is the
/// entry's name or "Page", its depth the entry's depth or 0.
pub proof fn law_entry_pages_fresh(entries: Seq<(Option<Seq<char>>, Option<u64>)>)
    ensures
        pages_of_entries(entries).len() == entries.len(),
        forall|i: int| 0 <= i < entries.len() ==> {
            let p = #[trigger] pages_of_entries(entries)[i];
            &&& p.prompt.len() == 0
            &&& p.design_preview.len() == 0
            &&& p.selected
            &&& !p.done
            &&& p.name == match entries[i].0 {
                Some(n) => n,
                None => "Page"@,
            }
            &&& p.depth == match entries[i].1 {
                Some(d) => d as usize,
                None => 0usize,
            }
        },
{
}

/// A key that is one ASCII character is typed exactly as it is, whatever the
/// text before it.
pub proof fn law_char_key_appends_itself(text: Seq<char>, key: Seq<char>)
    requires
        key.len() == 1,
        (key[0] as u32) < 0x80,
    ensures
        text_after_key(text, key) == text.push(key[0]),
        text_after_key(text, key).len() == text.len() + 1,
        text_after_key(text, key).last() == key[0],
{
    reveal_strlit("backspace");
    reveal_strlit("delete");
    reveal_strlit("space");
    assert("backspace"@.len() == 9 && "delete"@.len() == 6 && "space"@.len() == 5);
    assert(key != "backspace"@ && key != "delete"@ && key != "space"@);
    assert(is_char_key(key));
    assert(text + key =~= text.push(key[0]));
}

/// The space key types one space; the delete keys remove the last character
/// and nothing else.
pub proof fn law_space_and_delete_keys(text: Seq<char>)
    ensures
        text_after_key(text, "space"@) == text.push(' '),
        text.len() > 0 ==> text_after_key(text, "backspace"@) == text.subrange(0, text.len() - 1),
        text.len() > 0 ==> text_after_key(text, "delete"@) == text.subrange(0, text.len() - 1),
        text.len() == 0 ==> text_after_key(text, "backspace"@) == text,
{
    reveal_strlit("backspace");
    reveal_strlit("delete");
    reveal_strlit("space");
    assert("backspace"@.len() == 9 && "delete"@.len() == 6 && "space"@.len() == 5);
    assert("space"@ != "backspace"@ && "space"@ != "delete"@);
}

/// Generating the edited page asks for that very page, under its index and
/// its name (which storing the prompt leaves as it was).
pub proof fn law_generate_page_names_edited_page(m: DesignModel, pages: Seq<PageView>)
    requires
        m.edit_idx < pages.len(),
    ensures
        generate_page_command(m, pages_after_save(m, pages))
            == Some(CommandView::GeneratePage(m.edit_idx, pages[m.edit_idx as int].name)),
{
}

/// Generating with no page under the edit index asks for nothing.
pub proof fn law_generate_page_without_page(m: DesignModel, pages: Seq<PageView>)
    requires
        m.edit_idx >= pages.len(),
    ensures
        generate_page_command(m, pages_after_save(m, pages)) is None,
{
}

/// The value of a text of decimal digits.
pub open spec fn decimal_value(s: Seq<char>) -> int
    decreases s.len(),
{
    if s.len() == 0 {
        0
    } else {
        decimal_value(s.drop_last()) * 10 + ((s.last() as u32) - ('0' as u32))
    }
}

proof fn lemma_digit_value(d: nat)
    requires
        d < 10,
    ensures
        (digit_char(d) as u32) - ('0' as u32) == d,
        '0' <= digit_char(d) <= '9',
{
    assert('0' as u32 == 48 && '1' as u32 == 49 && '2' as u32 == 50 && '3' as u32 == 51
        && '4' as u32 == 52 && '5' as u32 == 53 && '6' as u32 == 54 && '7' as u32 == 55
        && '8' as u32 == 56 && '9' as u32 == 57);
}

/// The decimal notation of a number is a non-empty run of digits, without a
/// leading zero unless the number is zero, whose value is the number.
pub proof fn law_decimal_reads_back(n: nat)
    ensures
        decimal(n).len() > 0,
        forall|j: int| 0 <= j < decimal(n).len() ==> '0' <= #[trigger] decimal(n)[j] <= '9',
        decimal(n)[0] == '0' ==> n == 0,
        decimal_value(decimal(n)) == n,
    decreases n,
{
    if n < 10 {
        lemma_digit_value(n);
        assert(decimal(n) == seq![digit_char(n)]);
        assert(decimal(n).drop_last() =~= Seq::<char>::empty());
        assert(decimal(n).last() == digit_char(n));
        assert(decimal_value(decimal(n)) == decimal_value(decimal(n).drop_last()) * 10
            + ((decimal(n).last() as u32) - ('0' as u32)));
        assert(decimal_value(Seq::<char>::empty()) == 0);
    } else {
        lemma_digit_value(n % 10);
        law_decimal_reads_back(n / 10);
        let d = decimal(n);
        assert(d == decimal(n / 10) + seq![digit_char(n % 10)]);
        assert(d.drop_last() =~= decimal(n / 10));
        assert(d[0] == decimal(n / 10)[0]);
        assert forall|j: int| 0 <= j < d.len() implies '0' <= #[trigger] d[j] <= '9' by {
            if j < d.len() - 1 {
                assert(d[j] == decimal(n / 10)[j]);
            }
        }
        assert(d.last() == digit_char(n % 10));
        assert(decimal_value(d) == decimal_value(d.drop_last()) * 10
            + ((d.last() as u32) - ('0' as u32)));
        assert(decimal_value(d) == (n / 10) * 10 + n % 10);
        assert((n / 10) * 10 + n % 10 == n) by (nonlinear_arith);
    }
}

/// The text of a page request is "/generate_page ", then the decimal index,
/// a space, and the whole page name at its end.
pub proof fn law_generate_page_text(i: usize, name: Seq<char>)
    ensures
        ({
            let t = command_text_of(CommandView::GeneratePage(i, name));
            &&& t.len() == 16 + decimal(i as nat).len() + name.len()
            &&& t.subrange(0, 15) == "/generate_page "@
            &&& t.subrange(15, 15 + decimal(i as nat).len() as int) == decimal(i as nat)
            &&& t[15 + decimal(i as nat).len() as int] == ' '
            &&& t.subrange(t.len() - name.len(), t.len() as int) == name
        }),
{
    reveal_strlit("/generate_page ");
    reveal_strlit(" ");
    let d = decimal(i as nat);
    let t = command_text_of(CommandView::GeneratePage(i, name));
    assert("/generate_page "@.len() == 15);
    assert(t == "/generate_page "@ + d + " "@ + name);
    assert(t.subrange(0, 15) =~= "/generate_page "@);
    assert(t.subrange(15, 15 + d.len() as int) =~= d);
    assert(t.subrange(t.len() - name.len(), t.len() as int) =~= name);
}

/// The text of a split request is "/split " followed by the whole request.
pub proof fn law_split_text(req: Seq<char>)
    ensures
        ({
            let t = command_text_of(CommandView::Split(req));
            &&& t.len() == 7 + req.len()
            &&& t.subrange(0, 7) == "/split "@
            &&& t.subrange(7, t.len() as int) == req
        }),
{
    reveal_strlit("/split ");
    let t = command_text_of(CommandView::Split(req));
    assert(t.subrange(0, 7) =~= "/split "@);
    assert(t.subrange(7, t.len() as int) =~= req);
}

/// Setting a page's preview replaces it: the page then holds exactly the new
/// text, whatever it held before, and nothing else changes.
pub proof fn law_preview_replaces(pages: Seq<PageView>, i: int, text: Seq<char>)
    requires
        0 <= i < pages.len(),
    ensures
        pages_with_preview(pages, i, text).len() == pages.len(),
        pages_with_preview(pages, i, text)[i].design_preview == text,
        pages_with_preview(pages, i, text)[i].name == pages[i].name,
        pages_with_preview(pages, i, text)[i].prompt == pages[i].prompt,
        pages_with_preview(pages, i, text)[i].done == pages[i].done,
        pages_with_preview(pages, i, text)[i].selected == pages[i].selected,
        pages_with_preview(pages, i, text)[i].depth == pages[i].depth,
        forall|j: int| 0 <= j < pages.len() && j != i ==> #[trigger] pages_with_preview(pages, i, text)[j]
            == pages[j],
        forall|earlier: Seq<char>| #[trigger] pages_with_preview(pages_with_preview(pages, i, earlier), i, text)
            == pages_with_preview(pages, i, text),
{
    assert forall|earlier: Seq<char>| #[trigger] pages_with_preview(pages_with_preview(pages, i, earlier), i, text)
        == pages_with_preview(pages, i, text) by {
        assert(pages_with_preview(pages_with_preview(pages, i, earlier), i, text) =~= pages_with_preview(pages, i, text));
    }
}

/// Setting a page's prompt replaces it: the page then holds exactly the new
/// text, whatever it held before, and nothing else changes.
pub proof fn law_prompt_replaces(pages: Seq<PageView>, i: int, text: Seq<char>)
    requires
        0 <= i < pages.len(),
    ensures
        pages_with_prompt(pages, i, text).len() == pages.len(),
        pages_with_prompt(pages, i, text)[i].prompt == text,
        pages_with_prompt(pages, i, text)[i].name == pages[i].name,
        pages_with_prompt(pages, i, text)[i].design_preview == pages[i].design_preview,
        pages_with_prompt(pages, i, text)[i].done == pages[i].done,
        pages_with_prompt(pages, i, text)[i].selected == pages[i].selected,
        pages_with_prompt(pages, i, text)[i].depth == pages[i].depth,
        forall|j: int| 0 <= j < pages.len() && j != i ==> #[trigger] pages_with_prompt(pages, i, text)[j]
            == pages[j],
{
}

/// Marking a page generated sets its mark and changes nothing else.
pub proof fn law_done_marks_only_that_page(pages: Seq<PageView>, i: int)
    requires
        0 <= i < pages.len(),
    ensures
        pages_with_done(pages, i).len() == pages.len(),
        pages_with_done(pages, i)[i].done,
        pages_with_done(pages, i)[i].name == pages[i].name,
        pages_with_done(pages, i)[i].prompt == pages[i].prompt,
        pages_with_done(pages, i)[i].design_preview == pages[i].design_preview,
        pages_with_done(pages, i)[i].selected == pages[i].selected,
        pages_with_done(pages, i)[i].depth == pages[i].depth,
        forall|j: int| 0 <= j < pages.len() && j != i ==> #[trigger] pages_with_done(pages, i)[j] == pages[j],
{
}

} // verus!
