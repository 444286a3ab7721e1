//! The decisions of the terminal screens: the login menu, the vault browser
//! with its entry editor and delete confirmation, and the one-line input and
//! message boxes. Each screen is a state that a key press moves to the next
//! state; drawing and reading keys happen outside this module.
use vstd::prelude::*;

use crate::models::{Entry, EntryView, UserIndex, Vault};
use crate::text::{is_blank, trim_spec};
use crate::util::{is_generated_password, printable_password};

verus! {

/// A key press, as the screens read it.
#[derive(Debug, Clone, Copy, PartialEq, Eq)]
pub enum Key {
    Char(char),
    Up,
    Down,
    Enter,
    Esc,
    Tab,
    Backspace,
    Other,
}

/// What the user chose on the login screen.
#[derive(Debug, Clone, Copy, PartialEq, Eq)]
pub enum LoginSelection {
    Existing(usize),
    CreateNew,
    DeleteUser,
}

/// The control of the entry editor that has the focus.
#[derive(Debug, Clone, Copy, PartialEq, Eq)]
pub enum Focus {
    Title,
    Username,
    Password,
    GenPassword,
    ShowPassword,
    Notes,
    Save,
    Cancel,
}

/// The control that follows `f` in the editor's tab order.
pub open spec fn focus_after(f: Focus) -> Focus {
    match f {
        Focus::Title => Focus::Username,
        Focus::Username => Focus::Password,
        Focus::Password => Focus::ShowPassword,
        Focus::ShowPassword => Focus::GenPassword,
        Focus::GenPassword => Focus::Notes,
        Focus::Notes => Focus::Save,
        Focus::Save => Focus::Cancel,
        Focus::Cancel => Focus::Title,
    }
}

/// The control that precedes `f` in the editor's tab order.
pub open spec fn focus_before(f: Focus) -> Focus {
    match f {
        Focus::Title => Focus::Cancel,
        Focus::Username => Focus::Title,
        Focus::Password => Focus::Username,
        Focus::ShowPassword => Focus::Password,
        Focus::GenPassword => Focus::ShowPassword,
        Focus::Notes => Focus::GenPassword,
        Focus::Save => Focus::Notes,
        Focus::Cancel => Focus::Save,
    }
}

/// The control reached from `f` after `n` steps forward.
pub open spec fn focus_advance(f: Focus, n: nat) -> Focus
    decreases n,
{
    if n == 0 {
        f
    } else {
        focus_after(focus_advance(f, (n - 1) as nat))
    }
}

/// The next control in the editor's tab order.
pub fn next_focus(f: Focus) -> (r: Focus)
    ensures
        r == focus_after(f),
{
    match f {
        Focus::Title => Focus::Username,
        Focus::Username => Focus::Password,
        Focus::Password => Focus::ShowPassword,
        Focus::ShowPassword => Focus::GenPassword,
        Focus::GenPassword => Focus::Notes,
        Focus::Notes => Focus::Save,
        Focus::Save => Focus::Cancel,
        Focus::Cancel => Focus::Title,
    }
}

/// The previous control in the editor's tab order.
pub fn prev_focus(f: Focus) -> (r: Focus)
    ensures
        r == focus_before(f),
{
    match f {
        Focus::Title => Focus::Cancel,
        Focus::Username => Focus::Title,
        Focus::Password => Focus::Username,
        Focus::ShowPassword => Focus::Password,
        Focus::GenPassword => Focus::ShowPassword,
        Focus::Notes => Focus::GenPassword,
        Focus::Save => Focus::Notes,
        Focus::Cancel => Focus::Save,
    }
}

/// Moving the focus back undoes moving it forward, and the other way round.
pub proof fn lemma_focus_steps_undo(f: Focus)
    ensures
        focus_before(focus_after(f)) == f,
        focus_after(focus_before(f)) == f,
{
}

/// Moving the focus forward visits all eight controls once and returns to
/// the start after eight steps.
pub proof fn lemma_focus_cycle(f: Focus)
    ensures
        focus_advance(f, 8) == f,
        forall|k: nat| 0 < k < 8 ==> focus_advance(f, k) != f,
{
    assert(focus_advance(f, 0) == f);
    assert(focus_advance(f, 1) == focus_after(f));
    assert(focus_advance(f, 2) == focus_after(focus_advance(f, 1)));
    assert(focus_advance(f, 3) == focus_after(focus_advance(f, 2)));
    assert(focus_advance(f, 4) == focus_after(focus_advance(f, 3)));
    assert(focus_advance(f, 5) == focus_after(focus_advance(f, 4)));
    assert(focus_advance(f, 6) == focus_after(focus_advance(f, 5)));
    assert(focus_advance(f, 7) == focus_after(focus_advance(f, 6)));
    assert(focus_advance(f, 8) == focus_after(focus_advance(f, 7)));
    assert forall|k: nat| 0 < k < 8 implies focus_advance(f, k) != f by {
        assert(k == 1 || k == 2 || k == 3 || k == 4 || k == 5 || k == 6 || k == 7);
    }
}

/// Whether the control is one of the four text fields.
pub open spec fn is_text_field(f: Focus) -> bool {
    f == Focus::Title || f == Focus::Username || f == Focus::Password || f == Focus::Notes
}

/// The text of the field that the control edits (empty for the buttons).
pub open spec fn field_text(d: EntryView, f: Focus) -> Seq<char> {
    match f {
        Focus::Title => d.title,
        Focus::Username => d.username,
        Focus::Password => d.password,
        Focus::Notes => d.notes,
        _ => Seq::empty(),
    }
}

/// The entry with the field that the control edits set to `text` (unchanged
/// for the buttons).
pub open spec fn with_field_text(d: EntryView, f: Focus, text: Seq<char>) -> EntryView {
    match f {
        Focus::Title => EntryView { title: text, ..d },
        Focus::Username => EntryView { username: text, ..d },
        Focus::Password => EntryView { password: text, ..d },
        Focus::Notes => EntryView { notes: text, ..d },
        _ => d,
    }
}

/// What the editor is editing: a new entry or the entry at an index.
#[derive(Debug, Clone, Copy, PartialEq, Eq)]
pub enum EditorTarget {
    New,
    Existing(usize),
}

/// The entry editor: its target, the draft, the focus and whether the
/// password is shown in clear.
pub struct EditorState {
    pub target: EditorTarget,
    pub draft: Entry,
    pub focus: Focus,
    pub show_pass: bool,
}

/// The entry editor's state as values.
pub struct EditorStateView {
    pub target: EditorTarget,
    pub draft: EntryView,
    pub focus: Focus,
    pub show_pass: bool,
}

impl View for EditorState {
    type V = EditorStateView;

    open spec fn view(&self) -> EditorStateView {
        EditorStateView { target: self.target, draft: self.draft@, focus: self.focus, show_pass: self.show_pass }
    }
}

/// One key press in the editor: the state it leads to and whether the editor
/// closes (`Some(true)` to save, `Some(false)` to discard, `None` to stay).
pub open spec fn editor_step(old: EditorStateView, key: Key, new: EditorStateView, out: Option<bool>) -> bool {
    match key {
        Key::Esc => new == old && out == Some(false),
        Key::Tab | Key::Down => new == EditorStateView { focus: focus_after(old.focus), ..old } && out is None,
        Key::Up => new == EditorStateView { focus: focus_before(old.focus), ..old } && out is None,
        Key::Enter => match old.focus {
            Focus::Title | Focus::Username | Focus::Password =>
                new == EditorStateView { focus: focus_after(old.focus), ..old } && out is None,
            Focus::Notes =>
                new == EditorStateView { draft: EntryView { notes: old.draft.notes.push('\n'), ..old.draft }, ..old }
                && out is None,
            Focus::Save => new == old && out == Some(true),
            Focus::Cancel => new == old && out == Some(false),
            Focus::ShowPassword => new == EditorStateView { show_pass: !old.show_pass, ..old } && out is None,
            Focus::GenPassword => {
                &&& is_generated_password(new.draft.password, 32)
                &&& new == EditorStateView { draft: EntryView { password: new.draft.password, ..old.draft }, ..old }
                &&& out is None
            },
        },
        Key::Backspace => {
            let t = field_text(old.draft, old.focus);
            &&& out is None
            &&& if is_text_field(old.focus) && t.len() > 0 {
                new == EditorStateView { draft: with_field_text(old.draft, old.focus, t.drop_last()), ..old }
            } else {
                new == old
            }
        },
        Key::Char(c) => {
            &&& out is None
            &&& if is_text_field(old.focus) {
                new == EditorStateView {
                    draft: with_field_text(old.draft, old.focus, field_text(old.draft, old.focus).push(c)),
                    ..old
                }
            } else {
                new == old
            }
        },
        Key::Other => new == old && out is None,
    }
}

/// Handles one key press in the entry editor: Tab/Down and Up move the focus,
/// Enter advances through the text fields, adds a line to the notes, toggles
/// the password display, generates a 32-character password, saves or
/// cancels; Esc cancels; Backspace and characters edit the focused field.
pub fn handle_editor(state: &mut EditorState, key: Key) -> (out: Option<bool>)
    ensures
        editor_step(old(state)@, key, final(state)@, out),
{
    match key {
        Key::Esc => {
            return Some(false);
        },
        Key::Tab | Key::Down => {
            state.focus = next_focus(state.focus);
        },
        Key::Up => {
            state.focus = prev_focus(state.focus);
        },
        Key::Enter => match state.focus {
            Focus::Title | Focus::Username | Focus::Password => {
                state.focus = next_focus(state.focus);
            },
            Focus::Notes => state.draft.notes.push('\n'),
            Focus::Save => {
                return Some(true);
            },
            Focus::Cancel => {
                return Some(false);
            },
            Focus::ShowPassword => {
                state.show_pass = !state.show_pass;
            },
            Focus::GenPassword => {
                state.draft.password = printable_password(32);
            },
        },
        Key::Backspace => match state.focus {
            Focus::Title => {
                state.draft.title.pop();
            },
            Focus::Username => {
                state.draft.username.pop();
            },
            Focus::Password => {
                state.draft.password.pop();
            },
            Focus::Notes => {
                state.draft.notes.pop();
            },
            _ => {},
        },
        Key::Char(c) => match state.focus {
            Focus::Title => state.draft.title.push(c),
            Focus::Username => state.draft.username.push(c),
            Focus::Password => state.draft.password.push(c),
            Focus::Notes => state.draft.notes.push(c),
            _ => {},
        },
        Key::Other => {},
    }
    None
}

/// The mode of the vault screen.
pub enum UiMode {
    Browse,
    Viewing(usize),
    Editing(EditorState),
    ConfirmDelete(usize),
}

/// The mode of the vault screen as values.
pub enum ModeView {
    Browse,
    Viewing(usize),
    Editing(EditorStateView),
    ConfirmDelete(usize),
}

impl View for UiMode {
    type V = ModeView;

    open spec fn view(&self) -> ModeView {
        match self {
            UiMode::Browse => ModeView::Browse,
            UiMode::Viewing(i) => ModeView::Viewing(*i),
            UiMode::Editing(st) => ModeView::Editing(st@),
            UiMode::ConfirmDelete(t) => ModeView::ConfirmDelete(*t),
        }
    }
}

/// The vault screen: the open vault, the selected entry, whether the vault
/// was changed since it was opened, and the mode.
pub struct VaultSession {
    pub vault: Vault,
    pub selected: usize,
    pub dirty: bool,
    pub mode: UiMode,
}

/// The vault screen as values.
pub struct SessionView {
    pub vault: Seq<EntryView>,
    pub selected: usize,
    pub dirty: bool,
    pub mode: ModeView,
}

impl View for VaultSession {
    type V = SessionView;

    open spec fn view(&self) -> SessionView {
        SessionView { vault: self.vault@, selected: self.selected, dirty: self.dirty, mode: self.mode@ }
    }
}

/// The vault screen's invariant: the selection is an entry (or 0 when the
/// vault is empty), and an entry that the mode refers to exists.
pub open spec fn session_wf(s: SessionView) -> bool {
    &&& s.selected == 0 || s.selected < s.vault.len()
    &&& match s.mode {
        ModeView::Browse => true,
        ModeView::Viewing(i) => i < s.vault.len(),
        ModeView::Editing(st) => st.target matches EditorTarget::Existing(i) ==> i < s.vault.len(),
        ModeView::ConfirmDelete(t) => t < s.vault.len(),
    }
}

/// An empty entry draft with the given password.
pub open spec fn draft_with_password(p: Seq<char>) -> EntryView {
    EntryView { title: Seq::empty(), username: Seq::empty(), password: p, notes: Seq::empty() }
}

/// A fresh editor for a new entry with this draft.
pub open spec fn new_entry_editor(draft: EntryView) -> EditorStateView {
    EditorStateView { target: EditorTarget::New, draft, focus: Focus::Title, show_pass: false }
}

/// One key press while browsing: move the selection, open, edit, add,
/// generate, ask to delete, or leave (`q` or `l`).
pub open spec fn browse_step(old: SessionView, key: Key, new: SessionView, leave: bool) -> bool {
    let len = old.vault.len();
    let sel = old.selected;
    match key {
        Key::Char(c) => {
            if c == 'q' || c == 'l' {
                leave && new == old
            } else if c == 'e' {
                !leave && new == if sel < len {
                    SessionView {
                        mode: ModeView::Editing(
                            EditorStateView {
                                target: EditorTarget::Existing(sel),
                                draft: old.vault[sel as int],
                                focus: Focus::Title,
                                show_pass: false,
                            },
                        ),
                        ..old
                    }
                } else {
                    old
                }
            } else if c == 'a' {
                !leave && new == SessionView {
                    mode: ModeView::Editing(new_entry_editor(draft_with_password(Seq::empty()))),
                    ..old
                }
            } else if c == 'g' {
                &&& !leave
                &&& new.mode matches ModeView::Editing(st)
                &&& is_generated_password(st.draft.password, 32)
                &&& new == SessionView {
                    mode: ModeView::Editing(new_entry_editor(draft_with_password(st.draft.password))),
                    ..old
                }
            } else if c == 'D' {
                !leave && new == if len > 0 { SessionView { mode: ModeView::ConfirmDelete(sel), ..old } } else { old }
            } else {
                !leave && new == old
            }
        },
        Key::Up => !leave && new == SessionView { selected: if sel > 0 { (sel - 1) as usize } else { 0 }, ..old },
        Key::Down => !leave && new == SessionView {
            selected: if sel + 1 < len { (sel + 1) as usize } else { sel },
            ..old
        },
        Key::Enter => !leave && new == if len > 0 && sel < len {
            SessionView { mode: ModeView::Viewing(sel), ..old }
        } else {
            old
        },
        _ => !leave && new == old,
    }
}

/// The vault screen after the editor handled a key and answered `out`.
pub open spec fn after_edit(old: SessionView, st: EditorStateView, out: Option<bool>) -> SessionView {
    match out {
        None => SessionView { mode: ModeView::Editing(st), ..old },
        Some(false) => SessionView { mode: ModeView::Browse, ..old },
        Some(true) => match st.target {
            EditorTarget::New => SessionView {
                vault: old.vault.push(st.draft),
                selected: old.vault.len() as usize,
                dirty: true,
                mode: ModeView::Browse,
            },
            EditorTarget::Existing(i) => if i < old.vault.len() {
                SessionView {
                    vault: old.vault.update(i as int, st.draft),
                    selected: i,
                    dirty: true,
                    mode: ModeView::Browse,
                }
            } else {
                SessionView { dirty: true, mode: ModeView::Browse, ..old }
            },
        },
    }
}

/// One key press on the delete confirmation of entry `t`: `y`, `Y` or Enter
/// deletes it, `n`, `N` or Esc goes back, anything else is ignored.
pub open spec fn confirm_step(old: SessionView, t: usize, key: Key) -> SessionView {
    let yes = key == Key::Enter || key == Key::Char('y') || key == Key::Char('Y');
    let no = key == Key::Esc || key == Key::Char('n') || key == Key::Char('N');
    if yes {
        if t < old.vault.len() {
            let v = old.vault.remove(t as int);
            let last = if v.len() > 0 { (v.len() - 1) as usize } else { 0usize };
            SessionView {
                vault: v,
                selected: if old.selected < last { old.selected } else { last },
                dirty: true,
                mode: ModeView::Browse,
            }
        } else {
            SessionView { mode: ModeView::Browse, ..old }
        }
    } else if no {
        SessionView { mode: ModeView::Browse, ..old }
    } else {
        old
    }
}

/// One key press on the vault screen: the state it leads to and whether the
/// user leaves the screen.
pub open spec fn session_step(old: SessionView, key: Key, new: SessionView, leave: bool) -> bool {
    match old.mode {
        ModeView::Browse => browse_step(old, key, new, leave),
        ModeView::Viewing(_) => !leave && new == SessionView { mode: ModeView::Browse, ..old },
        ModeView::Editing(st) => !leave && exists|st2: EditorStateView, out: Option<bool>|
            editor_step(st, key, st2, out) && new == #[trigger] after_edit(old, st2, out),
        ModeView::ConfirmDelete(t) => !leave && new == confirm_step(old, t, key),
    }
}

/// Every step of the vault screen keeps its invariant, never forgets that the
/// vault was changed, and changes the vault only by marking it changed.
pub proof fn lemma_session_step_safe(old: SessionView, key: Key, new: SessionView, leave: bool)
    requires
        session_step(old, key, new, leave),
    ensures
        session_wf(old) ==> session_wf(new),
        old.dirty ==> new.dirty,
        new.vault != old.vault ==> new.dirty,
        leave ==> new == old,
{
}

/// Confirming a deletion (`y`, `Y` or Enter) on entry `t` removes exactly that
/// entry: the entries before it stay where they are, the ones after it move up
/// by one, and the vault is marked changed.
pub proof fn lemma_confirmed_delete_removes_target(old: SessionView, key: Key, new: SessionView, leave: bool, t: usize)
    requires
        session_step(old, key, new, leave),
        old.mode == ModeView::ConfirmDelete(t),
        t < old.vault.len(),
        key == Key::Enter || key == Key::Char('y') || key == Key::Char('Y'),
    ensures
        !leave,
        new.vault.len() == old.vault.len() - 1,
        forall|i: int| 0 <= i < t ==> new.vault[i] == old.vault[i],
        forall|i: int| t <= i < new.vault.len() ==> new.vault[i] == old.vault[i + 1],
        new.dirty,
        new.mode == ModeView::Browse,
{
}

/// Declining a deletion (`n`, `N` or Esc) keeps the vault as it was.
pub proof fn lemma_declined_delete_keeps_vault(old: SessionView, key: Key, new: SessionView, leave: bool, t: usize)
    requires
        session_step(old, key, new, leave),
        old.mode == ModeView::ConfirmDelete(t),
        key == Key::Esc || key == Key::Char('n') || key == Key::Char('N'),
    ensures
        !leave,
        new.vault == old.vault,
        new.dirty == old.dirty,
        new.mode == ModeView::Browse,
{
}

/// Pressing `D` while browsing a vault with entries and then confirming
/// deletes the selected entry and no other.
pub proof fn lemma_delete_removes_selected(s0: SessionView, s1: SessionView, s2: SessionView, l1: bool, l2: bool, key: Key)
    requires
        session_wf(s0),
        s0.mode == ModeView::Browse,
        s0.vault.len() > 0,
        session_step(s0, Key::Char('D'), s1, l1),
        session_step(s1, key, s2, l2),
        key == Key::Enter || key == Key::Char('y') || key == Key::Char('Y'),
    ensures
        s1.mode == ModeView::ConfirmDelete(s0.selected),
        s1.vault == s0.vault,
        s2.vault.len() == s0.vault.len() - 1,
        forall|i: int| 0 <= i < s0.selected ==> s2.vault[i] == s0.vault[i],
        forall|i: int| s0.selected <= i < s2.vault.len() ==> s2.vault[i] == s0.vault[i + 1],
{
    lemma_confirmed_delete_removes_target(s1, key, s2, l2, s0.selected);
}

/// Saving the editor (Enter on Save) puts the draft into the vault: a new
/// entry is appended at the end, an edited entry replaces the one it was
/// opened on, and every other entry stays where it was.
pub proof fn lemma_saved_draft_lands_in_vault(old: SessionView, new: SessionView, leave: bool, st: EditorStateView)
    requires
        old.mode == ModeView::Editing(st),
        st.focus == Focus::Save,
        old.vault.len() < usize::MAX,
        session_step(old, Key::Enter, new, leave),
    ensures
        !leave,
        new.dirty,
        new.mode == ModeView::Browse,
        st.target == EditorTarget::New ==> {
            &&& new.vault.len() == old.vault.len() + 1
            &&& new.vault[old.vault.len() as int] == st.draft
            &&& forall|i: int| 0 <= i < old.vault.len() ==> new.vault[i] == old.vault[i]
            &&& new.selected == old.vault.len()
        },
        st.target matches EditorTarget::Existing(k) ==> (k < old.vault.len() ==> {
            &&& new.vault.len() == old.vault.len()
            &&& new.vault[k as int] == st.draft
            &&& forall|i: int| 0 <= i < old.vault.len() && i != k ==> new.vault[i] == old.vault[i]
            &&& new.selected == k
        }),
{
    let (st2, out) = choose|st2: EditorStateView, out: Option<bool>|
        editor_step(st, Key::Enter, st2, out) && new == #[trigger] after_edit(old, st2, out);
    assert(st2 == st && out == Some(true));
}

/// Leaving the editor without saving (Esc, or Enter on Cancel) keeps the
/// vault as it was.
pub proof fn lemma_cancelled_edit_keeps_vault(old: SessionView, key: Key, new: SessionView, leave: bool, st: EditorStateView)
    requires
        old.mode == ModeView::Editing(st),
        key == Key::Esc || (key == Key::Enter && st.focus == Focus::Cancel),
        session_step(old, key, new, leave),
    ensures
        !leave,
        new.vault == old.vault,
        new.dirty == old.dirty,
        new.mode == ModeView::Browse,
{
    let (st2, out) = choose|st2: EditorStateView, out: Option<bool>|
        editor_step(st, key, st2, out) && new == #[trigger] after_edit(old, st2, out);
    assert(out == Some(false));
}

/// `e` while browsing opens the editor on the selected entry, unchanged,
/// aimed back at that entry.
pub proof fn lemma_edit_opens_selected_entry(old: SessionView, new: SessionView, leave: bool)
    requires
        old.mode == ModeView::Browse,
        old.selected < old.vault.len(),
        session_step(old, Key::Char('e'), new, leave),
    ensures
        !leave,
        new.vault == old.vault,
        new.mode matches ModeView::Editing(st) && {
            &&& st.target == EditorTarget::Existing(old.selected)
            &&& st.draft == old.vault[old.selected as int]
            &&& st.focus == Focus::Title
            &&& !st.show_pass
        },
{
}

/// Down moves the editor's focus exactly as Tab does, to the next control in
/// the order Title, Username, Password, ShowPassword, GenPassword, Notes,
/// Save, Cancel (and from Cancel back to Title), changing nothing else; Up
/// moves to the previous control.
pub proof fn lemma_editor_focus_keys(
    old: EditorStateView,
    down: EditorStateView,
    out_down: Option<bool>,
    tab: EditorStateView,
    out_tab: Option<bool>,
    up: EditorStateView,
    out_up: Option<bool>,
)
    requires
        editor_step(old, Key::Down, down, out_down),
        editor_step(old, Key::Tab, tab, out_tab),
        editor_step(old, Key::Up, up, out_up),
    ensures
        down == tab,
        (out_down is None) && (out_tab is None) && (out_up is None),
        down.draft == old.draft && down.target == old.target && down.show_pass == old.show_pass,
        up.draft == old.draft && up.target == old.target && up.show_pass == old.show_pass,
        down.focus == match old.focus {
            Focus::Title => Focus::Username,
            Focus::Username => Focus::Password,
            Focus::Password => Focus::ShowPassword,
            Focus::ShowPassword => Focus::GenPassword,
            Focus::GenPassword => Focus::Notes,
            Focus::Notes => Focus::Save,
            Focus::Save => Focus::Cancel,
            Focus::Cancel => Focus::Title,
        },
        up.focus == match old.focus {
            Focus::Title => Focus::Cancel,
            Focus::Username => Focus::Title,
            Focus::Password => Focus::Username,
            Focus::ShowPassword => Focus::Password,
            Focus::GenPassword => Focus::ShowPassword,
            Focus::Notes => Focus::GenPassword,
            Focus::Save => Focus::Notes,
            Focus::Cancel => Focus::Save,
        },
{
}

/// A typed character goes at the end of the focused text field and nowhere
/// else; on a button it changes nothing. Backspace takes the last character
/// off the focused text field.
pub proof fn lemma_editor_typing(old: EditorStateView, c: char, typed: EditorStateView, o1: Option<bool>, erased: EditorStateView, o2: Option<bool>)
    requires
        editor_step(old, Key::Char(c), typed, o1),
        editor_step(old, Key::Backspace, erased, o2),
    ensures
        (o1 is None) && (o2 is None),
        typed.focus == old.focus && typed.target == old.target && typed.show_pass == old.show_pass,
        old.focus == Focus::Title ==> typed.draft == (EntryView { title: old.draft.title.push(c), ..old.draft }),
        old.focus == Focus::Username ==> typed.draft == (EntryView { username: old.draft.username.push(c), ..old.draft }),
        old.focus == Focus::Password ==> typed.draft == (EntryView { password: old.draft.password.push(c), ..old.draft }),
        old.focus == Focus::Notes ==> typed.draft == (EntryView { notes: old.draft.notes.push(c), ..old.draft }),
        !(old.focus == Focus::Title || old.focus == Focus::Username || old.focus == Focus::Password
            || old.focus == Focus::Notes) ==> typed == old && erased == old,
        old.focus == Focus::Title && old.draft.title.len() > 0
            ==> erased.draft == (EntryView { title: old.draft.title.drop_last(), ..old.draft }),
        old.focus == Focus::Notes && old.draft.notes.len() > 0
            ==> erased.draft == (EntryView { notes: old.draft.notes.drop_last(), ..old.draft }),
{
}

/// Enter on the login menu chooses the highlighted line: line `i` below the
/// number of users opens user `i`, the next line creates a user and the one
/// after it deletes one. Up and Down move the highlight by one line within
/// the menu.
pub proof fn lemma_login_menu_keys(
    old: LoginMenu,
    entered: LoginMenu,
    chosen: LoginStep,
    upped: LoginMenu,
    s_up: LoginStep,
    downed: LoginMenu,
    s_down: LoginStep,
)
    requires
        old.user_count <= usize::MAX - 2,
        login_step(old, Key::Enter, entered, chosen),
        login_step(old, Key::Up, upped, s_up),
        login_step(old, Key::Down, downed, s_down),
    ensures
        entered == old,
        old.selected < old.user_count ==> chosen == LoginStep::Chosen(LoginSelection::Existing(old.selected)),
        old.selected == old.user_count ==> chosen == LoginStep::Chosen(LoginSelection::CreateNew),
        old.selected == old.user_count + 1 ==> chosen == LoginStep::Chosen(LoginSelection::DeleteUser),
        s_up == LoginStep::Stay && s_down == LoginStep::Stay,
        upped.user_count == old.user_count && downed.user_count == old.user_count,
        old.selected > 0 ==> upped.selected == old.selected - 1,
        old.selected == 0 ==> upped.selected == 0,
        old.selected + 1 < old.user_count + 2 ==> downed.selected == old.selected + 1,
        old.selected + 1 >= old.user_count + 2 ==> downed.selected == old.selected,
{
}

/// While browsing: Up and Down move the selection by one within the entries,
/// Enter opens the selected entry for viewing, and `a` opens an empty editor
/// for a new entry; none of them changes the vault or leaves the screen.
pub proof fn lemma_browse_keys(
    old: SessionView,
    up: SessionView,
    lu: bool,
    down: SessionView,
    ld: bool,
    enter: SessionView,
    le: bool,
    add: SessionView,
    la: bool,
)
    requires
        old.mode == ModeView::Browse,
        old.vault.len() <= usize::MAX,
        session_step(old, Key::Up, up, lu),
        session_step(old, Key::Down, down, ld),
        session_step(old, Key::Enter, enter, le),
        session_step(old, Key::Char('a'), add, la),
    ensures
        !lu && !ld && !le && !la,
        up.vault == old.vault && down.vault == old.vault && enter.vault == old.vault && add.vault == old.vault,
        old.selected > 0 ==> up.selected == old.selected - 1,
        old.selected == 0 ==> up.selected == 0,
        old.selected + 1 < old.vault.len() ==> down.selected == old.selected + 1,
        old.selected + 1 >= old.vault.len() ==> down.selected == old.selected,
        old.selected < old.vault.len() ==> enter.mode == ModeView::Viewing(old.selected),
        old.selected >= old.vault.len() ==> enter == old,
        add.mode matches ModeView::Editing(st) && {
            &&& st.target == EditorTarget::New
            &&& st.focus == Focus::Title
            &&& !st.show_pass
            &&& st.draft.title.len() == 0 && st.draft.username.len() == 0
            &&& st.draft.password.len() == 0 && st.draft.notes.len() == 0
        },
{
}

/// `q` or `l` while browsing leaves the vault screen and changes nothing.
pub proof fn lemma_quit_leaves_unchanged(old: SessionView, c: char, new: SessionView, leave: bool)
    requires
        old.mode == ModeView::Browse,
        c == 'q' || c == 'l',
        session_step(old, Key::Char(c), new, leave),
    ensures
        leave,
        new == old,
{
}

/// Any key on the entry view goes back to browsing, changing nothing else.
pub proof fn lemma_view_closes_on_any_key(old: SessionView, i: usize, key: Key, new: SessionView, leave: bool)
    requires
        old.mode == ModeView::Viewing(i),
        session_step(old, key, new, leave),
    ensures
        !leave,
        new.mode == ModeView::Browse,
        new.vault == old.vault && new.selected == old.selected && new.dirty == old.dirty,
{
}

/// A hidden secret of `n` characters shows as exactly `n` asterisks.
pub proof fn lemma_stars_are_asterisks(n: nat)
    ensures
        stars(n).len() == n,
        forall|i: int| 0 <= i < n ==> #[trigger] stars(n)[i] == '*',
{
}

impl VaultSession {
    /// The vault screen on a freshly opened vault: first entry selected,
    /// unchanged, browsing.
    pub fn new(vault: Vault) -> (s: VaultSession)
        ensures
            s@ == (SessionView { vault: vault@, selected: 0, dirty: false, mode: ModeView::Browse }),
            session_wf(s@),
    {
        VaultSession { vault, selected: 0, dirty: false, mode: UiMode::Browse }
    }

    /// Handles one key press on the vault screen; returns whether the user
    /// leaves it.
    pub fn handle_key(&mut self, key: Key) -> (leave: bool)
        ensures
            session_step(old(self)@, key, final(self)@, leave),
            session_wf(old(self)@) ==> session_wf(final(self)@),
            old(self)@.dirty ==> final(self)@.dirty,
            final(self)@.vault != old(self)@.vault ==> final(self)@.dirty,
    {
        let mut mode = UiMode::Browse;
        std::mem::swap(&mut mode, &mut self.mode);
        let leave = match mode {
            UiMode::Browse => self.browse_key(key),
            UiMode::Viewing(_) => {
                false
            },
            UiMode::Editing(state) => {
                self.editing_key(state, key);
                false
            },
            UiMode::ConfirmDelete(t) => {
                self.confirm_key(t, key);
                false
            },
        };
        proof {
            lemma_session_step_safe(old(self)@, key, self@, leave);
        }
        leave
    }

    fn browse_key(&mut self, key: Key) -> (leave: bool)
        requires
            old(self).mode is Browse,
        ensures
            browse_step(old(self)@, key, final(self)@, leave),
    {
        let len = self.vault.entries.len();
        match key {
            Key::Char(c) => {
                if c == 'q' || c == 'l' {
                    return true;
                } else if c == 'e' {
                    if self.selected < len {
                        let draft = self.vault.entries[self.selected].duplicate();
                        self.mode = UiMode::Editing(
                            EditorState {
                                target: EditorTarget::Existing(self.selected),
                                draft,
                                focus: Focus::Title,
                                show_pass: false,
                            },
                        );
                    }
                } else if c == 'a' {
                    self.mode = UiMode::Editing(
                        EditorState { target: EditorTarget::New, draft: Entry::empty(), focus: Focus::Title, show_pass: false },
                    );
                } else if c == 'g' {
                    let mut draft = Entry::empty();
                    draft.password = printable_password(32);
                    self.mode = UiMode::Editing(
                        EditorState { target: EditorTarget::New, draft, focus: Focus::Title, show_pass: false },
                    );
                } else if c == 'D' {
                    if len > 0 {
                        self.mode = UiMode::ConfirmDelete(self.selected);
                    }
                }
            },
            Key::Up => {
                if self.selected > 0 {
                    self.selected = self.selected - 1;
                }
            },
            Key::Down => {
                if self.selected < len && self.selected + 1 < len {
                    self.selected = self.selected + 1;
                }
            },
            Key::Enter => {
                if len > 0 && self.selected < len {
                    self.mode = UiMode::Viewing(self.selected);
                }
            },
            _ => {},
        }
        false
    }

    fn editing_key(&mut self, state: EditorState, key: Key)
        requires
            old(self).mode is Browse,
        ensures
            exists|st2: EditorStateView, out: Option<bool>|
                #[trigger] editor_step(state@, key, st2, out) && final(self)@ == after_edit(
                    SessionView { mode: ModeView::Editing(state@), ..old(self)@ },
                    st2,
                    out,
                ),
    {
        let mut state = state;
        let ghost st0 = state@;
        let out = handle_editor(&mut state, key);
        let ghost st2 = state@;
        match out {
            None => {
                self.mode = UiMode::Editing(state);
            },
            Some(false) => {},
            Some(true) => {
                match state.target {
                    EditorTarget::New => {
                        let ghost before = self.vault.entries@;
                        self.vault.entries.push(state.draft);
                        self.selected = self.vault.entries.len() - 1;
                        proof {
                            assert(self.vault.entries@.map_values(|e: Entry| e@)
                                =~= before.map_values(|e: Entry| e@).push(st2.draft));
                        }
                    },
                    EditorTarget::Existing(i) => {
                        if i < self.vault.entries.len() {
                            let ghost before = self.vault.entries@;
                            self.vault.entries.set(i, state.draft);
                            self.selected = i;
                            proof {
                                assert(self.vault.entries@.map_values(|e: Entry| e@)
                                    =~= before.map_values(|e: Entry| e@).update(i as int, st2.draft));
                            }
                        }
                    },
                }
                self.dirty = true;
            },
        }
        proof {
            assert(self@ == after_edit(SessionView { mode: ModeView::Editing(st0), ..old(self)@ }, st2, out));
        }
    }

    fn confirm_key(&mut self, t: usize, key: Key)
        requires
            old(self).mode is Browse,
        ensures
            final(self)@ == confirm_step(SessionView { mode: ModeView::ConfirmDelete(t), ..old(self)@ }, t, key),
    {
        let yes = match key {
            Key::Enter => true,
            Key::Char(c) => c == 'y' || c == 'Y',
            _ => false,
        };
        let no = match key {
            Key::Esc => true,
            Key::Char(c) => c == 'n' || c == 'N',
            _ => false,
        };
        if yes {
            if t < self.vault.entries.len() {
                let ghost before = self.vault.entries@;
                self.vault.entries.remove(t);
                proof {
                    assert(self.vault.entries@.map_values(|e: Entry| e@)
                        =~= before.map_values(|e: Entry| e@).remove(t as int));
                }
                let n = self.vault.entries.len();
                let last = if n > 0 { n - 1 } else { 0 };
                if self.selected >= last {
                    self.selected = last;
                }
                self.dirty = true;
            }
        } else if !no {
            self.mode = UiMode::ConfirmDelete(t);
        }
    }
}

/// What a key press on the login menu leads to.
#[derive(Debug, Clone, Copy, PartialEq, Eq)]
pub enum LoginStep {
    Stay,
    Quit,
    Chosen(LoginSelection),
}

/// The login menu: the users, then "create new", then "delete user"; the
/// highlighted line.
#[derive(Debug, Clone, Copy, PartialEq, Eq)]
pub struct LoginMenu {
    pub selected: usize,
    pub user_count: usize,
}

/// What choosing the highlighted line means.
pub open spec fn selection_at(selected: usize, user_count: usize) -> LoginSelection {
    if selected < user_count {
        LoginSelection::Existing(selected)
    } else if selected == user_count {
        LoginSelection::CreateNew
    } else {
        LoginSelection::DeleteUser
    }
}

/// One key press on the login menu: `q` quits, Up and Down move within the
/// lines, Enter chooses the highlighted line.
pub open spec fn login_step(old: LoginMenu, key: Key, new: LoginMenu, step: LoginStep) -> bool {
    match key {
        Key::Char(c) => new == old && step == if c == 'q' { LoginStep::Quit } else { LoginStep::Stay },
        Key::Up => step == LoginStep::Stay && new == LoginMenu {
            selected: if old.selected > 0 { (old.selected - 1) as usize } else { 0 },
            ..old
        },
        Key::Down => step == LoginStep::Stay && new == LoginMenu {
            selected: if old.selected + 1 < old.user_count + 2 { (old.selected + 1) as usize } else { old.selected },
            ..old
        },
        Key::Enter => new == old && step == LoginStep::Chosen(selection_at(old.selected, old.user_count)),
        _ => new == old && step == LoginStep::Stay,
    }
}

impl LoginMenu {
    /// The login menu for `user_count` users, first line highlighted.
    pub fn new(user_count: usize) -> (m: LoginMenu)
        ensures
            m == (LoginMenu { selected: 0, user_count }),
    {
        LoginMenu { selected: 0, user_count }
    }

    /// Handles one key press on the login menu. The highlight never leaves
    /// the menu's lines.
    pub fn handle_key(&mut self, key: Key) -> (step: LoginStep)
        requires
            old(self).user_count <= usize::MAX - 2,
        ensures
            login_step(*old(self), key, *final(self), step),
            old(self).selected < old(self).user_count + 2 ==> final(self).selected < final(self).user_count + 2,
    {
        match key {
            Key::Char(c) => {
                if c == 'q' {
                    LoginStep::Quit
                } else {
                    LoginStep::Stay
                }
            },
            Key::Up => {
                if self.selected > 0 {
                    self.selected = self.selected - 1;
                }
                LoginStep::Stay
            },
            Key::Down => {
                if self.selected < self.user_count + 1 {
                    self.selected = self.selected + 1;
                }
                LoginStep::Stay
            },
            Key::Enter => {
                if self.selected < self.user_count {
                    LoginStep::Chosen(LoginSelection::Existing(self.selected))
                } else if self.selected == self.user_count {
                    LoginStep::Chosen(LoginSelection::CreateNew)
                } else {
                    LoginStep::Chosen(LoginSelection::DeleteUser)
                }
            },
            _ => LoginStep::Stay,
        }
    }
}

/// A line of `n` asterisks, which is how a secret of `n` characters is shown.
pub open spec fn stars(n: nat) -> Seq<char> {
    Seq::new(n, |_i: int| '*')
}

/// The password as it is shown when hidden: one `*` per character.
pub fn mask_password(password: &str) -> (masked: String)
    ensures
        masked@ == stars(password@.len()),
{
    crate::text::repeat_char('*', password.unicode_len())
}

/// A one-line input box: the text typed so far and whether it is a secret.
pub struct InputLine {
    pub buffer: String,
    pub secret: bool,
}

impl InputLine {
    /// An empty input box.
    pub fn new(secret: bool) -> (line: InputLine)
        ensures
            line.buffer@ == Seq::<char>::empty(),
            line.secret == secret,
    {
        InputLine { buffer: String::new(), secret }
    }

    /// Handles one key press: characters are typed, Backspace erases the last
    /// one, Enter finishes, Esc clears the text and finishes. Returns whether
    /// the input is finished.
    pub fn handle_key(&mut self, key: Key) -> (done: bool)
        ensures
            final(self).secret == old(self).secret,
            match key {
                Key::Char(c) => !done && final(self).buffer@ == old(self).buffer@.push(c),
                Key::Backspace => !done && final(self).buffer@ == if old(self).buffer@.len() > 0 {
                    old(self).buffer@.drop_last()
                } else {
                    old(self).buffer@
                },
                Key::Enter => done && final(self).buffer@ == old(self).buffer@,
                Key::Esc => done && final(self).buffer@ == Seq::<char>::empty(),
                _ => !done && final(self).buffer@ == old(self).buffer@,
            },
    {
        match key {
            Key::Char(c) => {
                self.buffer.push(c);
                false
            },
            Key::Backspace => {
                self.buffer.pop();
                false
            },
            Key::Enter => true,
            Key::Esc => {
                self.buffer.clear();
                true
            },
            _ => false,
        }
    }

    /// What the box shows: the text, or one `*` per character for a secret.
    pub fn display(&self) -> (shown: String)
        ensures
            shown@ == if self.secret { stars(self.buffer@.len()) } else { self.buffer@ },
    {
        if self.secret {
            mask_password(self.buffer.as_str())
        } else {
            self.buffer.clone()
        }
    }
}

/// Whether a key closes a message box: Enter, Esc or any character.
pub fn message_dismissed(key: Key) -> (closes: bool)
    ensures
        closes == (key == Key::Enter || key == Key::Esc || key is Char),
{
    match key {
        Key::Enter | Key::Esc | Key::Char(_) => true,
        _ => false,
    }
}

/// The number of blank lines above a message in a box of this height, so
/// that the message sits in the middle of it.
pub fn message_padding(height: u16) -> (pad: u16)
    ensures
        pad == if height >= 3 { (height - 3) / 2 } else { 0 },
{
    if height >= 3 {
        (height - 3) / 2
    } else {
        0
    }
}

/// What the entry list shows for an entry: its title, or `(untitled)` when
/// the title is blank.
pub open spec fn entry_label_text(e: EntryView) -> Seq<char> {
    if trim_spec(e.title).len() == 0 {
        "(untitled)"@
    } else {
        e.title
    }
}

/// The label of an entry in the list.
pub fn entry_label(entry: &Entry) -> (label: String)
    ensures
        label@ == entry_label_text(entry@),
{
    if is_blank(entry.title.as_str()) {
        String::from_str("(untitled)")
    } else {
        entry.title.clone()
    }
}

/// The lines of the entry list: one label per entry, or a hint when the
/// vault is empty.
pub fn entry_list_lines(vault: &Vault) -> (lines: Vec<String>)
    ensures
        vault@.len() == 0 ==> lines@.len() == 1 && lines@[0]@ == "No entries yet. Press 'a' to add one."@,
        vault@.len() > 0 ==> lines@.len() == vault@.len()
            && forall|i: int| 0 <= i < lines@.len() ==> #[trigger] lines@[i]@ == entry_label_text(vault@[i]),
{
    let mut lines: Vec<String> = Vec::new();
    if vault.entries.len() == 0 {
        lines.push(String::from_str("No entries yet. Press 'a' to add one."));
        return lines;
    }
    let mut i: usize = 0;
    while i < vault.entries.len()
        invariant
            i <= vault.entries@.len(),
            lines@.len() == i,
            forall|j: int| 0 <= j < i ==> #[trigger] lines@[j]@ == entry_label_text(vault@[j]),
        decreases vault.entries@.len() - i,
    {
        lines.push(entry_label(&vault.entries[i]));
        i = i + 1;
    }
    lines
}

/// The highlighted line of a list of `count` lines when `selected` is
/// chosen: the selection, kept on the last line; none for an empty list.
pub fn list_highlight(selected: usize, count: usize) -> (h: Option<usize>)
    ensures
        count == 0 ==> h is None,
        count > 0 ==> h == Some(if selected < count { selected } else { (count - 1) as usize }),
{
    if count == 0 {
        None
    } else if selected < count {
        Some(selected)
    } else {
        Some(count - 1)
    }
}

/// The header line of the vault screen.
pub fn browse_header(username: &str, vault_path: &str, dirty: bool) -> (text: String)
    ensures
        text@ == "user: "@ + username@ + "   vault: "@ + vault_path@ + "   state: "@
            + if dirty { "modified"@ } else { "clean"@ },
{
    let mut text = String::from_str("user: ");
    text.append(username);
    text.append("   vault: ");
    text.append(vault_path);
    text.append("   state: ");
    if dirty {
        text.append("modified");
    } else {
        text.append("clean");
    }
    text
}

/// The help text beside the entry list, naming the selected entry.
pub fn browse_info(vault: &Vault, selected: usize) -> (text: String)
    ensures
        selected < vault@.len() ==> text@ == "Selected: "@ + entry_label_text(vault@[selected as int])
            + "\n\nEnter: view full entry\nE: edit\nD: delete"@,
        selected >= vault@.len() ==> text@ == "No entry selected.\n\nEnter: view full entry\nE: edit\nD: delete"@,
{
    if selected < vault.entries.len() {
        let mut text = String::from_str("Selected: ");
        let label = entry_label(&vault.entries[selected]);
        text.append(label.as_str());
        text.append("\n\nEnter: view full entry\nE: edit\nD: delete");
        text
    } else {
        String::from_str("No entry selected.\n\nEnter: view full entry\nE: edit\nD: delete")
    }
}

/// The full view of an entry, every field in clear.
pub fn entry_view_text(entry: Option<&Entry>) -> (text: String)
    ensures
        match entry {
            Some(e) => text@ == "Title: "@ + e.title@ + "\n\nUsername: "@ + e.username@ + "\n\nPassword: "@
                + e.password@ + "\n\nNotes:\n"@ + e.notes@ + "\n\nPress any key to return."@,
            None => text@ == "No entry selected.\n\nPress any key to return."@,
        },
{
    match entry {
        Some(e) => {
            let mut text = String::from_str("Title: ");
            text.append(e.title.as_str());
            text.append("\n\nUsername: ");
            text.append(e.username.as_str());
            text.append("\n\nPassword: ");
            text.append(e.password.as_str());
            text.append("\n\nNotes:\n");
            text.append(e.notes.as_str());
            text.append("\n\nPress any key to return.");
            text
        },
        None => String::from_str("No entry selected.\n\nPress any key to return."),
    }
}

/// The question asked before an entry is deleted, naming it.
pub fn delete_prompt(entry: Option<&Entry>) -> (text: String)
    ensures
        text@ == "Delete this entry?\n\n"@ + match entry {
            Some(e) => entry_label_text(e@),
            None => "entry"@,
        } + "\n\nPress Y to delete, N or Esc to cancel."@,
{
    let mut text = String::from_str("Delete this entry?\n\n");
    match entry {
        Some(e) => {
            let label = entry_label(e);
            text.append(label.as_str());
        },
        None => {
            text.append("entry");
        },
    }
    text.append("\n\nPress Y to delete, N or Esc to cancel.");
    text
}

/// The header of the editor: whether a new entry or an existing one is edited.
pub fn editor_heading(target: EditorTarget) -> (text: String)
    ensures
        text@ == match target {
            EditorTarget::New => "New entry"@,
            EditorTarget::Existing(_) => "Edit entry"@,
        } + "  |  Tab/↓ next  | ↑ previous  |  Enter -> advances  | "@,
{
    let mut text = match target {
        EditorTarget::New => String::from_str("New entry"),
        EditorTarget::Existing(_) => String::from_str("Edit entry"),
    };
    text.append("  |  Tab/↓ next  | ↑ previous  |  Enter -> advances  | ");
    text
}

/// The editor's password field: in clear when shown, masked otherwise.
pub fn password_display(state: &EditorState) -> (text: String)
    ensures
        text@ == if state.show_pass { state.draft.password@ } else { stars(state.draft.password@.len()) },
{
    if state.show_pass {
        state.draft.password.clone()
    } else {
        mask_password(state.draft.password.as_str())
    }
}

/// The label of the show-password toggle.
pub fn show_toggle_label(show: bool) -> (text: String)
    ensures
        text@ == if show { "[x] Show"@ } else { "[ ] Show"@ },
{
    if show {
        String::from_str("[x] Show")
    } else {
        String::from_str("[ ] Show")
    }
}

/// The lines of the login menu: each user's name, then the two actions.
pub fn login_lines(index: &UserIndex) -> (lines: Vec<String>)
    ensures
        lines@.len() == index@.len() + 2,
        forall|i: int| 0 <= i < index@.len() ==> #[trigger] lines@[i]@ == index@[i].username,
        lines@[index@.len() as int]@ == "[Create new]"@,
        lines@[index@.len() as int + 1]@ == "[Delete user]"@,
{
    let mut lines: Vec<String> = Vec::new();
    let mut i: usize = 0;
    while i < index.users.len()
        invariant
            i <= index.users@.len(),
            lines@.len() == i,
            forall|j: int| 0 <= j < i ==> #[trigger] lines@[j]@ == index@[j].username,
        decreases index.users@.len() - i,
    {
        lines.push(index.users[i].username.clone());
        i = i + 1;
    }
    lines.push(String::from_str("[Create new]"));
    lines.push(String::from_str("[Delete user]"));
    lines
}

} // verus!
