use pqvault::models::{Entry, UserIndex, UserRecord, Vault};
use pqvault::tui::{
    browse_header, browse_info, delete_prompt, editor_heading, entry_label, entry_list_lines, entry_view_text,
    handle_editor, list_highlight, login_lines, mask_password, message_dismissed, message_padding, next_focus,
    password_display, prev_focus, show_toggle_label, EditorState, EditorTarget, Focus, InputLine, Key,
    LoginMenu, LoginSelection, LoginStep, UiMode, VaultSession,
};

fn entry(title: &str, user: &str, pass: &str, notes: &str) -> Entry {
    Entry { title: title.to_string(), username: user.to_string(), password: pass.to_string(), notes: notes.to_string() }
}

fn is_printable(s: &str) -> bool {
    s.chars().all(|c| ('!'..='~').contains(&c))
}

#[test]
fn focus_cycles_through_eight_controls() {
    let all = [
        Focus::Title,
        Focus::Username,
        Focus::Password,
        Focus::ShowPassword,
        Focus::GenPassword,
        Focus::Notes,
        Focus::Save,
        Focus::Cancel,
    ];
    for (i, f) in all.iter().enumerate() {
        assert_eq!(next_focus(*f), all[(i + 1) % 8]);
        assert_eq!(prev_focus(next_focus(*f)), *f);
        assert_eq!(next_focus(prev_focus(*f)), *f);
    }
    let mut f = Focus::Title;
    for _ in 0..8 {
        f = next_focus(f);
    }
    assert_eq!(f, Focus::Title);
}

fn editor() -> EditorState {
    EditorState { target: EditorTarget::New, draft: Entry::empty(), focus: Focus::Title, show_pass: false }
}

#[test]
fn editor_types_into_the_focused_field() {
    let mut st = editor();
    assert_eq!(handle_editor(&mut st, Key::Char('a')), None);
    assert_eq!(handle_editor(&mut st, Key::Char('b')), None);
    assert_eq!(handle_editor(&mut st, Key::Backspace), None);
    assert_eq!(st.draft.title, "a");
    assert_eq!(handle_editor(&mut st, Key::Enter), None);
    assert_eq!(st.focus, Focus::Username);
    handle_editor(&mut st, Key::Char('u'));
    handle_editor(&mut st, Key::Tab);
    handle_editor(&mut st, Key::Char('p'));
    assert_eq!(st.draft.username, "u");
    assert_eq!(st.draft.password, "p");
    handle_editor(&mut st, Key::Up);
    assert_eq!(st.focus, Focus::Username);
}

#[test]
fn editor_buttons() {
    let mut st = editor();
    st.focus = Focus::ShowPassword;
    handle_editor(&mut st, Key::Enter);
    assert!(st.show_pass);
    handle_editor(&mut st, Key::Char('z'));
    assert_eq!(st.draft.title, "");
    st.focus = Focus::GenPassword;
    handle_editor(&mut st, Key::Enter);
    assert_eq!(st.draft.password.chars().count(), 32);
    assert!(is_printable(&st.draft.password));
    st.focus = Focus::Notes;
    handle_editor(&mut st, Key::Char('n'));
    handle_editor(&mut st, Key::Enter);
    assert_eq!(st.draft.notes, "n\n");
    st.focus = Focus::Save;
    assert_eq!(handle_editor(&mut st, Key::Enter), Some(true));
    st.focus = Focus::Cancel;
    assert_eq!(handle_editor(&mut st, Key::Enter), Some(false));
    assert_eq!(handle_editor(&mut st, Key::Esc), Some(false));
    st.focus = Focus::Title;
    assert_eq!(handle_editor(&mut st, Key::Backspace), None);
    assert_eq!(st.draft.title, "");
}

fn press(s: &mut VaultSession, keys: &[Key]) -> bool {
    let mut left = false;
    for k in keys {
        left = s.handle_key(*k);
    }
    left
}

#[test]
fn session_adds_an_entry() {
    let mut s = VaultSession::new(Vault::default());
    press(&mut s, &[Key::Char('a'), Key::Char('m'), Key::Char('e')]);
    // from Title: Tab x6 reaches Save
    press(&mut s, &[Key::Tab, Key::Tab, Key::Tab, Key::Tab, Key::Tab, Key::Tab, Key::Enter]);
    assert!(matches!(s.mode, UiMode::Browse));
    assert_eq!(s.vault.entries.len(), 1);
    assert_eq!(s.vault.entries[0].title, "me");
    assert_eq!(s.selected, 0);
    assert!(s.dirty);
}

#[test]
fn session_cancelled_edit_keeps_the_vault_clean() {
    let mut s = VaultSession::new(Vault { entries: vec![entry("t", "u", "p", "n")] });
    press(&mut s, &[Key::Char('e'), Key::Char('x'), Key::Esc]);
    assert!(matches!(s.mode, UiMode::Browse));
    assert_eq!(s.vault.entries[0].title, "t");
    assert!(!s.dirty);
}

#[test]
fn session_edits_an_existing_entry() {
    let mut s = VaultSession::new(Vault { entries: vec![entry("a", "", "", ""), entry("b", "", "", "")] });
    press(&mut s, &[Key::Down, Key::Char('e'), Key::Char('2'), Key::Up, Key::Up, Key::Enter]);
    assert_eq!(s.vault.entries[1].title, "b2");
    assert_eq!(s.selected, 1);
    assert!(s.dirty);
}

#[test]
fn session_deletes_after_confirmation() {
    let mut s = VaultSession::new(Vault { entries: vec![entry("a", "", "", ""), entry("b", "", "", "")] });
    press(&mut s, &[Key::Down, Key::Char('D'), Key::Char('x')]);
    assert!(matches!(s.mode, UiMode::ConfirmDelete(1)));
    press(&mut s, &[Key::Char('y')]);
    assert_eq!(s.vault.entries.len(), 1);
    assert_eq!(s.vault.entries[0].title, "a");
    assert_eq!(s.selected, 0);
    assert!(s.dirty);
}

#[test]
fn session_delete_can_be_declined() {
    let mut s = VaultSession::new(Vault { entries: vec![entry("a", "", "", "")] });
    press(&mut s, &[Key::Char('D'), Key::Char('N')]);
    assert!(matches!(s.mode, UiMode::Browse));
    assert_eq!(s.vault.entries.len(), 1);
    assert!(!s.dirty);
}

#[test]
fn session_views_generates_and_leaves() {
    let mut s = VaultSession::new(Vault { entries: vec![entry("a", "", "", "")] });
    press(&mut s, &[Key::Enter]);
    assert!(matches!(s.mode, UiMode::Viewing(0)));
    press(&mut s, &[Key::Char('q')]);
    assert!(matches!(s.mode, UiMode::Browse));
    press(&mut s, &[Key::Char('g')]);
    match &s.mode {
        UiMode::Editing(st) => {
            assert_eq!(st.draft.password.chars().count(), 32);
            assert!(is_printable(&st.draft.password));
            assert_eq!(st.target, EditorTarget::New);
        }
        _ => panic!("expected the editor"),
    }
    press(&mut s, &[Key::Esc]);
    assert!(press(&mut s, &[Key::Char('l')]));
    assert!(!s.dirty);
}

#[test]
fn session_selection_stays_in_the_list() {
    let mut s = VaultSession::new(Vault { entries: vec![entry("a", "", "", ""), entry("b", "", "", "")] });
    press(&mut s, &[Key::Up, Key::Down, Key::Down, Key::Down]);
    assert_eq!(s.selected, 1);
    let mut empty = VaultSession::new(Vault::default());
    press(&mut empty, &[Key::Down, Key::Enter, Key::Char('e'), Key::Char('D')]);
    assert_eq!(empty.selected, 0);
    assert!(matches!(empty.mode, UiMode::Browse));
}

#[test]
fn login_menu_moves_and_chooses() {
    let mut m = LoginMenu::new(2);
    assert_eq!(m.handle_key(Key::Enter), LoginStep::Chosen(LoginSelection::Existing(0)));
    m.handle_key(Key::Down);
    m.handle_key(Key::Down);
    assert_eq!(m.handle_key(Key::Enter), LoginStep::Chosen(LoginSelection::CreateNew));
    m.handle_key(Key::Down);
    m.handle_key(Key::Down);
    assert_eq!(m.selected, 3);
    assert_eq!(m.handle_key(Key::Enter), LoginStep::Chosen(LoginSelection::DeleteUser));
    m.handle_key(Key::Up);
    assert_eq!(m.selected, 2);
    assert_eq!(m.handle_key(Key::Char('x')), LoginStep::Stay);
    assert_eq!(m.handle_key(Key::Char('q')), LoginStep::Quit);
}

#[test]
fn input_line_edits_and_finishes() {
    let mut line = InputLine::new(true);
    assert!(!line.handle_key(Key::Char('p')));
    assert!(!line.handle_key(Key::Char('w')));
    assert_eq!(line.display(), "**");
    assert!(!line.handle_key(Key::Backspace));
    assert!(line.handle_key(Key::Enter));
    assert_eq!(line.buffer, "p");
    let mut plain = InputLine::new(false);
    plain.handle_key(Key::Char('x'));
    assert_eq!(plain.display(), "x");
    assert!(plain.handle_key(Key::Esc));
    assert_eq!(plain.buffer, "");
}

#[test]
fn masks_and_messages() {
    assert_eq!(mask_password("héllo"), "*****");
    assert_eq!(mask_password(""), "");
    assert!(message_dismissed(Key::Enter));
    assert!(message_dismissed(Key::Char('k')));
    assert!(!message_dismissed(Key::Up));
    assert_eq!(message_padding(10), 3);
    assert_eq!(message_padding(2), 0);
}

#[test]
fn screen_texts() {
    assert_eq!(entry_label(&entry("  ", "", "", "")), "(untitled)");
    assert_eq!(entry_label(&entry("mail", "", "", "")), "mail");
    assert_eq!(entry_list_lines(&Vault::default()), vec!["No entries yet. Press 'a' to add one.".to_string()]);
    let v = Vault { entries: vec![entry("a", "", "", ""), entry("\t", "", "", "")] };
    assert_eq!(entry_list_lines(&v), vec!["a".to_string(), "(untitled)".to_string()]);
    assert_eq!(list_highlight(5, 2), Some(1));
    assert_eq!(list_highlight(0, 0), None);
    assert_eq!(browse_header("al", "/v", true), "user: al   vault: /v   state: modified");
    assert_eq!(browse_header("al", "/v", false), "user: al   vault: /v   state: clean");
    assert_eq!(browse_info(&v, 0), "Selected: a\n\nEnter: view full entry\nE: edit\nD: delete");
    assert_eq!(browse_info(&v, 9), "No entry selected.\n\nEnter: view full entry\nE: edit\nD: delete");
    assert_eq!(
        entry_view_text(Some(&entry("t", "u", "p", "n"))),
        "Title: t\n\nUsername: u\n\nPassword: p\n\nNotes:\nn\n\nPress any key to return."
    );
    assert_eq!(entry_view_text(None), "No entry selected.\n\nPress any key to return.");
    assert_eq!(delete_prompt(None), "Delete this entry?\n\nentry\n\nPress Y to delete, N or Esc to cancel.");
    assert_eq!(
        delete_prompt(Some(&entry("", "", "", ""))),
        "Delete this entry?\n\n(untitled)\n\nPress Y to delete, N or Esc to cancel."
    );
    assert_eq!(editor_heading(EditorTarget::New), "New entry  |  Tab/↓ next  | ↑ previous  |  Enter -> advances  | ");
    assert!(editor_heading(EditorTarget::Existing(3)).starts_with("Edit entry  |"));
    let mut st = editor();
    st.draft.password = "abc".to_string();
    assert_eq!(password_display(&st), "***");
    st.show_pass = true;
    assert_eq!(password_display(&st), "abc");
    assert_eq!(show_toggle_label(true), "[x] Show");
    assert_eq!(show_toggle_label(false), "[ ] Show");
    let index = UserIndex {
        users: vec![UserRecord { username: "bo".into(), key_bundle_path: "k".into(), vault_path: "v".into() }],
    };
    assert_eq!(login_lines(&index), vec!["bo".to_string(), "[Create new]".to_string(), "[Delete user]".to_string()]);
}
