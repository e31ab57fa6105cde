//! The command palette and the model picker: lists narrowed by what is
//! typed, without regard to case.

use crate::clusters::text_views;
use crate::num::minus;
use crate::text::{contains, contains_text, is_blank, same_text};
use crate::tui::{
    App, ModelPickerState, PaletteAction, PaletteState, PaletteView, PickerView, SearchInput,
};
use vstd::prelude::*;

verus! {

/// The lower-case form of a text.
pub uninterp spec fn lowercased(s: Seq<char>) -> Seq<char>;

/// Calls `str::to_lowercase`: the lower-case form of the text, which
/// depends on the text alone.
#[verifier::external_body]
pub(crate) fn to_lower(s: &str) -> (r: String)
    ensures
        r@ == lowercased(s@),
{
    s.to_lowercase()
}

/// Every action of the palette, in the order in which it lists them.
pub open spec fn all_actions() -> Seq<PaletteAction> {
    seq![
        PaletteAction::ToggleSidebar,
        PaletteAction::ToggleContext,
        PaletteAction::NewSession,
        PaletteAction::RenameSession,
        PaletteAction::DeleteSession,
        PaletteAction::OpenSearch,
        PaletteAction::Quit,
    ]
}

/// Whether a label matches what was typed: its lower-case form holds the
/// lower-case form of the typed text.
pub open spec fn label_matches(label: Seq<char>, typed: Seq<char>) -> bool {
    contains_text(lowercased(label), lowercased(typed))
}

/// Those of the first `n` actions whose label matches what was typed.
pub open spec fn actions_matching(typed: Seq<char>, n: int) -> Seq<PaletteAction>
    decreases n,
{
    if n <= 0 {
        Seq::empty()
    } else if label_matches(all_actions()[n - 1].label_text(), typed) {
        actions_matching(typed, n - 1).push(all_actions()[n - 1])
    } else {
        actions_matching(typed, n - 1)
    }
}

/// The actions that the palette lists for what was typed: all of them
/// while the lower-case form of the typed text is empty.
pub open spec fn listed_actions(typed: Seq<char>) -> Seq<PaletteAction> {
    if lowercased(typed).len() == 0 {
        all_actions()
    } else {
        actions_matching(typed, 7)
    }
}

/// Those of the first `n` names that match what was typed.
pub open spec fn names_matching(all: Seq<Seq<char>>, typed: Seq<char>, n: int) -> Seq<Seq<char>>
    decreases n,
{
    if n <= 0 {
        Seq::empty()
    } else if label_matches(all[n - 1], typed) {
        names_matching(all, typed, n - 1).push(all[n - 1])
    } else {
        names_matching(all, typed, n - 1)
    }
}

/// The names that the picker lists for what was typed.
pub open spec fn listed_names(all: Seq<Seq<char>>, typed: Seq<char>) -> Seq<Seq<char>> {
    if lowercased(typed).len() == 0 {
        all
    } else {
        names_matching(all, typed, all.len() as int)
    }
}

/// A selection kept within a list of `len` entries.
pub open spec fn selection_within(selected: usize, len: nat) -> usize {
    if selected < minus(len as int, 1) {
        selected
    } else {
        minus(len as int, 1) as usize
    }
}

/// The models that are always offered, in order.
pub open spec fn known_models() -> Seq<Seq<char>> {
    seq![
        "gpt-5"@,
        "gpt-5-high"@,
        "gpt-5-medium"@,
        "gpt-5-low"@,
        "gpt-5-minimal"@,
        "gpt-4o"@,
        "gpt-4o-mini"@,
        "o3"@,
        "o3-mini"@,
    ]
}

/// The first `n` known models that are not the model in use.
pub open spec fn known_but(current: Seq<char>, n: int) -> Seq<Seq<char>>
    decreases n,
{
    if n <= 0 {
        Seq::empty()
    } else if known_models()[n - 1] == current {
        known_but(current, n - 1)
    } else {
        known_but(current, n - 1).push(known_models()[n - 1])
    }
}

/// The models offered: the model in use first, unless its name is blank,
/// then the known models, none twice.
pub open spec fn offered_models(current: Seq<char>) -> Seq<Seq<char>> {
    if crate::text::trim(current).len() == 0 {
        known_models()
    } else {
        seq![current] + known_but(current, 9)
    }
}

/// Narrows the palette to the actions that match what is typed, and
/// keeps the selection within them.
pub fn palette_filter(st: &mut PaletteState)
    ensures
        final(st)@ == (PaletteView {
            filtered: listed_actions(old(st)@.buffer),
            selected: selection_within(old(st).selected, listed_actions(old(st)@.buffer).len()),
            ..old(st)@
        }),
{
    let all: [PaletteAction; 7] = [
        PaletteAction::ToggleSidebar,
        PaletteAction::ToggleContext,
        PaletteAction::NewSession,
        PaletteAction::RenameSession,
        PaletteAction::DeleteSession,
        PaletteAction::OpenSearch,
        PaletteAction::Quit,
    ];
    assert(all@ =~= all_actions());
    let q = to_lower(st.buffer.as_str());
    let mut filtered: Vec<PaletteAction> = Vec::new();
    if q.as_str().unicode_len() == 0 {
        let mut i: usize = 0;
        while i < 7
            invariant
                i <= 7,
                all@ == all_actions(),
                filtered@ == all_actions().subrange(0, i as int),
            decreases 7 - i,
        {
            filtered.push(all[i]);
            assert(filtered@ =~= all_actions().subrange(0, i + 1));
            i = i + 1;
        }
        assert(filtered@ =~= all_actions());
    } else {
        let mut i: usize = 0;
        while i < 7
            invariant
                i <= 7,
                all@ == all_actions(),
                q@ == lowercased(st.buffer@),
                filtered@ == actions_matching(st.buffer@, i as int),
            decreases 7 - i,
        {
            let label = to_lower(all[i].label());
            if contains(label.as_str(), q.as_str()) {
                filtered.push(all[i]);
            }
            i = i + 1;
        }
    }
    let last = filtered.len().saturating_sub(1);
    if st.selected > last {
        st.selected = last;
    }
    st.filtered = filtered;
}

/// Narrows the picker to the models that match what is typed, and keeps
/// the selection within them.
pub fn model_filter(all: &Vec<String>, st: &mut ModelPickerState)
    ensures
        final(st)@ == (PickerView {
            filtered: listed_names(text_views(all@), old(st)@.buffer),
            selected: selection_within(
                old(st).selected,
                listed_names(text_views(all@), old(st)@.buffer).len(),
            ),
            ..old(st)@
        }),
{
    let q = to_lower(st.buffer.as_str());
    let mut filtered: Vec<String> = Vec::new();
    assert(text_views(filtered@) =~= Seq::<Seq<char>>::empty());
    if q.as_str().unicode_len() == 0 {
        let mut i: usize = 0;
        assert(text_views(filtered@) =~= text_views(all@).subrange(0, 0));
        while i < all.len()
            invariant
                i <= all@.len(),
                text_views(filtered@) == text_views(all@).subrange(0, i as int),
            decreases all@.len() - i,
        {
            let ghost before = filtered@;
            filtered.push(all[i].clone());
            assert(text_views(filtered@) =~= text_views(before).push(all@[i as int]@));
            assert(text_views(filtered@) =~= text_views(all@).subrange(0, i + 1));
            i = i + 1;
        }
        assert(text_views(all@).subrange(0, all@.len() as int) =~= text_views(all@));
    } else {
        let mut i: usize = 0;
        while i < all.len()
            invariant
                i <= all@.len(),
                q@ == lowercased(st.buffer@),
                text_views(filtered@) == names_matching(
                    text_views(all@),
                    st.buffer@,
                    i as int,
                ),
            decreases all@.len() - i,
        {
            let ghost before = filtered@;
            let name = to_lower(all[i].as_str());
            if contains(name.as_str(), q.as_str()) {
                filtered.push(all[i].clone());
                assert(text_views(filtered@) =~= text_views(before).push(all@[i as int]@));
            }
            i = i + 1;
        }
    }
    let last = filtered.len().saturating_sub(1);
    if st.selected > last {
        st.selected = last;
    }
    st.filtered = filtered;
}

/// The models offered for picking: the model in use first, unless its
/// name is blank, then the known models, none twice.
pub fn recommended_models(current: &str) -> (out: Vec<String>)
    ensures
        text_views(out@) == offered_models(current@),
{
    let known: [&'static str; 9] = [
        "gpt-5",
        "gpt-5-high",
        "gpt-5-medium",
        "gpt-5-low",
        "gpt-5-minimal",
        "gpt-4o",
        "gpt-4o-mini",
        "o3",
        "o3-mini",
    ];
    assert(known@.map_values(|s: &'static str| s@) =~= known_models());
    let mut out: Vec<String> = Vec::new();
    let listed = !is_blank(current);
    if listed {
        out.push(current.to_owned());
    }
    let ghost head = text_views(out@);
    assert(head =~= if listed {
        seq![current@]
    } else {
        Seq::<Seq<char>>::empty()
    });
    let mut i: usize = 0;
    assert(text_views(out@) =~= head + known_but(current@, 0));
    assert(text_views(out@) =~= head + known_models().subrange(0, 0));
    while i < 9
        invariant
            i <= 9,
            known@.map_values(|s: &'static str| s@) == known_models(),
            listed ==> text_views(out@) == head + known_but(current@, i as int),
            !listed ==> text_views(out@) == known_models().subrange(0, i as int),
        decreases 9 - i,
    {
        let ghost before = out@;
        let name = known[i];
        assert(name@ == known_models()[i as int]) by {
            assert(known@.map_values(|s: &'static str| s@)[i as int] == name@);
        }
        if !(listed && same_text(name, current)) {
            out.push(name.to_owned());
            assert(text_views(out@) =~= text_views(before).push(name@));
            assert(!listed ==> text_views(out@) =~= known_models().subrange(0, i + 1));
        }
        i = i + 1;
    }
    assert(known_models().subrange(0, 9) =~= known_models());
    out
}

impl App {
    /// Opens the command palette: nothing typed, every action listed, the
    /// first selected.
    pub fn open_palette(&mut self)
        ensures
            *final(self) == (App { palette: final(self).palette, ..*old(self) }),
            final(self).palette is Some,
            final(self).palette.unwrap()@ == (PaletteView {
                buffer: Seq::empty(),
                cursor: 0,
                filtered: listed_actions(Seq::empty()),
                selected: 0,
            }),
    {
        let mut st = PaletteState {
            buffer: String::new(),
            cursor: 0,
            filtered: Vec::new(),
            selected: 0,
        };
        palette_filter(&mut st);
        self.palette = Some(st);
    }

    /// Opens the model picker: nothing typed, the offered models listed,
    /// the first selected.
    pub fn open_model_picker(&mut self)
        ensures
            *final(self) == (App { model_picker: final(self).model_picker, ..*old(self) }),
            final(self).model_picker is Some,
            final(self).model_picker.unwrap()@ == (PickerView {
                buffer: Seq::empty(),
                cursor: 0,
                filtered: offered_models(old(self).model_label@),
                selected: 0,
            }),
    {
        let filtered = recommended_models(self.model_label.as_str());
        self.model_picker = Some(
            ModelPickerState { buffer: String::new(), cursor: 0, filtered, selected: 0 },
        );
    }

    /// Opens the line editor for a new entry of the context pane.
    pub fn open_context_add(&mut self)
        ensures
            *final(self) == (App { search_input: final(self).search_input, ..*old(self) }),
            final(self).search_input is Some,
            final(self).search_input.unwrap()@.buffer == Seq::<char>::empty(),
            final(self).search_input.unwrap()@.cursor == 0,
    {
        self.search_input = Some(SearchInput { buffer: String::new(), cursor: 0 });
    }
}

} // verus!
