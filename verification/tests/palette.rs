use nca_cli::components::{CompId, Components, Msg};
use nca_cli::keys::{KeyCode, KeyEvent, MOD_CONTROL, MOD_NONE};
use nca_cli::palette::{palette_popup_height, palette_popup_lines, PaletteState};
use nca_cli::transcript_view::Tone;
use nca_cli::tui_cmd::TuiCmd;

fn key(code: KeyCode) -> KeyEvent {
    KeyEvent::new(code, MOD_NONE)
}

#[test]
fn palette_enter_loads_the_highlighted_command() {
    let mut p = PaletteState::new();
    p.open();
    assert!(p.open);
    assert_eq!(p.handle_key(key(KeyCode::Up)), None);
    assert_eq!(p.index, 0);
    assert_eq!(p.handle_key(key(KeyCode::Down)), None);
    assert_eq!(p.index, 1);
    assert_eq!(p.handle_key(key(KeyCode::Enter)), Some("/connect"));
    assert!(!p.open);
    assert_eq!(p.query, "");
    assert_eq!(p.index, 0);
}

#[test]
fn palette_search_narrows_and_clamps_the_highlight() {
    let mut p = PaletteState::new();
    p.open();
    p.index = 7;
    for c in "exit".chars() {
        p.handle_key(key(KeyCode::Char(c)));
    }
    assert_eq!(p.query, "exit");
    assert_eq!(p.index, 0);
    p.handle_key(key(KeyCode::Down));
    assert_eq!(p.index, 0);
    assert_eq!(p.handle_key(key(KeyCode::Enter)), Some("/exit"));
}

#[test]
fn palette_closes_on_escape_and_ctrl_p() {
    let mut p = PaletteState::new();
    p.open();
    p.handle_key(key(KeyCode::Char('d')));
    assert_eq!(p.handle_key(KeyEvent::new(KeyCode::Char('p'), MOD_CONTROL)), None);
    assert!(!p.open);
    assert_eq!(p.query, "");
    p.open();
    p.handle_key(key(KeyCode::Char('x')));
    p.handle_key(key(KeyCode::Backspace));
    assert_eq!(p.query, "");
    p.handle_key(key(KeyCode::Esc));
    assert!(!p.open);
}

#[test]
fn palette_popup_shows_matches_with_shortcuts() {
    let lines = palette_popup_lines("exit", 0);
    let expect: Vec<Vec<(Tone, String)>> = vec![
        vec![(Tone::MutedBold, "  Search ".to_string()), (Tone::Text, "exit".to_string())],
        vec![],
        vec![(Tone::SectionTitle, "  System".to_string())],
        vec![
            (Tone::Selected, "  Exit".to_string()),
            (Tone::SelectedDetail, format!("{:>30}", "ctrl+x q")),
        ],
        vec![],
        vec![(Tone::Muted, " Enter apply · Esc close ".to_string())],
    ];
    assert_eq!(lines, expect);
    let none = palette_popup_lines("zzzz", 0);
    assert_eq!(none[0][1], (Tone::Text, "zzzz".to_string()));
    assert_eq!(none[2], vec![(Tone::Muted, " No matching commands".to_string())]);
    let all = palette_popup_lines("", 0);
    assert_eq!(all[0][1], (Tone::Text, "type to filter".to_string()));
    assert_eq!(all.len(), 2 + 10 + 2);
    assert_eq!(all[2], vec![(Tone::SectionTitle, "  Suggested".to_string())]);
    assert_eq!(all[3][0], (Tone::Selected, "  Switch model".to_string()));
}

#[test]
fn palette_popup_height_clamps_rows() {
    assert_eq!(palette_popup_height(0), 7);
    assert_eq!(palette_popup_height(4), 10);
    assert_eq!(palette_popup_height(40), 16);
}

#[test]
fn mounted_palette_submits_its_command_and_unmounts() {
    let mut c = Components::new();
    assert!(!c.sync_popup_open());
    let mut p = PaletteState::new();
    p.open();
    c.command_palette = Some(p);
    assert!(c.sync_popup_open());
    let r = c.handle_event(CompId::CommandPalette, &Msg::Key(key(KeyCode::Down)));
    assert_eq!(r, None);
    assert_eq!(c.command_palette.as_ref().map(|p| p.index), Some(1));
    let r = c.handle_event(CompId::CommandPalette, &Msg::Key(key(KeyCode::Enter)));
    assert_eq!(r, Some(Msg::Cmd(TuiCmd::Submit("/connect".to_string()))));
    assert!(c.command_palette.is_none());
    assert!(!c.sync_popup_open());
}

#[test]
fn mounted_palette_closes_on_ctrl_p_and_leaves_esc_to_the_shortcuts() {
    let mut c = Components::new();
    let mut p = PaletteState::new();
    p.open();
    c.command_palette = Some(p);
    let r = c.handle_event(CompId::CommandPalette, &Msg::Key(key(KeyCode::Esc)));
    assert_eq!(r, Some(Msg::Cmd(TuiCmd::CancelTurn)));
    assert!(c.command_palette.is_some());
    let r = c.handle_event(
        CompId::CommandPalette,
        &Msg::Key(KeyEvent::new(KeyCode::Char('p'), MOD_CONTROL)),
    );
    assert_eq!(r, None);
    assert!(c.command_palette.is_none());
}
