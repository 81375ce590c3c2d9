use nca_cli::branch::BranchPickerState;
use nca_cli::model_picker::{ModelPickerAction, ModelPickerEntry, ModelPickerState};
use nca_cli::pickers::{
    AgentPickerState, ApiKeyModalState, InfoModalState, PermissionPickerState, ProviderPickerState,
};
use nca_cli::provider::ProviderKind;
use nca_cli::session::{SessionSnapshot, SessionStatus, UtcTime};
use nca_cli::session_picker::SessionPickerState;
use nca_cli::transcript_view::Tone;

fn texts(lines: &[Vec<(Tone, String)>]) -> Vec<String> {
    lines.iter().map(|l| l.iter().map(|(_, t)| t.as_str()).collect::<String>()).collect()
}

fn entry(label: &str, detail: &str, header: bool) -> ModelPickerEntry {
    ModelPickerEntry {
        label: label.to_string(),
        detail: detail.to_string(),
        action: ModelPickerAction::ApplyModel(label.to_string()),
        is_header: header,
    }
}

fn snapshot(id: &str, title: Option<&str>) -> SessionSnapshot {
    SessionSnapshot {
        id: id.to_string(),
        updated_at: UtcTime { secs: 0, nanos: 0 },
        model: "m".to_string(),
        status: SessionStatus::Completed,
        socket_path: None,
        worktree_path: None,
        branch: None,
        base_branch: None,
        child_session_ids: Vec::new(),
        session_summary: None,
        session_title: title.map(|t| t.to_string()),
        total_input_tokens: 0,
        total_output_tokens: 0,
        estimated_cost_ten_thousandths: 0,
    }
}

#[test]
fn model_picker_lists_headers_and_matching_models() {
    let mut p = ModelPickerState::new();
    p.open(vec![
        entry("MiniMax", "", true),
        entry("MiniMax-M2.5", "fast", false),
        entry("MiniMax-M1", "old", false),
        entry("OpenAI", "", true),
        entry("gpt-5", "smart", false),
    ]);
    p.index = 1;
    let (lines, height) = p.view_lines();
    assert_eq!(
        texts(&lines),
        vec![
            "Search type to filter…",
            "",
            " MiniMax",
            "   MiniMax-M2.5  fast",
            "   MiniMax-M1  old",
            " OpenAI",
            "   gpt-5  smart",
            "",
            " ↑↓ select · Enter apply · Esc close ",
        ]
    );
    assert_eq!(lines[4][0].0, Tone::Selected);
    assert_eq!(lines[3][0].0, Tone::Text);
    assert_eq!(lines[2][0].0, Tone::Heading);
    assert_eq!(height, 12);
    p.search = "zzz".to_string();
    let (headers_only, h) = p.view_lines();
    assert_eq!(texts(&headers_only)[2], " MiniMax");
    assert_eq!(texts(&headers_only)[3], " OpenAI");
    assert_eq!(h, 10);
    let mut models_only = ModelPickerState::new();
    models_only.open(vec![entry("gpt-5", "smart", false)]);
    models_only.search = "zzz".to_string();
    let (none, _) = models_only.view_lines();
    assert_eq!(texts(&none)[2], " No models match");
}

#[test]
fn model_picker_scrolls_to_the_selection() {
    let mut p = ModelPickerState::new();
    let entries: Vec<ModelPickerEntry> =
        (0..30).map(|i| entry(&format!("m{i}"), "d", false)).collect();
    p.open(entries);
    p.index = 25;
    let (lines, height) = p.view_lines();
    let t = texts(&lines);
    assert_eq!(t[2], "  ▲ 8 more");
    assert_eq!(t[3], "   m8  d");
    assert_eq!(t[20], "   m25  d");
    assert_eq!(t[21], "  ▼ 4 more");
    assert_eq!(height, 25);
}

#[test]
fn branch_picker_marks_current_and_selected() {
    let mut p = BranchPickerState::new();
    p.open(vec!["main".to_string(), "feature/x".to_string()], "main".to_string());
    let (lines, height) = p.view_lines();
    assert_eq!(
        texts(&lines),
        vec![" Branch ", "", " main *", " feature/x", "", " Enter switch  /name new  Esc close"]
    );
    assert_eq!(height, 8);
    p.query = "zzz".to_string();
    let (none, _) = p.view_lines();
    assert_eq!(texts(&none)[0], " Branch : zzz");
    assert_eq!(texts(&none)[2], "  (no branches — type a name to create)");
}

#[test]
fn session_picker_shows_titles_ids_and_current_marker() {
    let mut p = SessionPickerState::new();
    p.open(
        vec![snapshot("s-1", Some("Fix bug")), snapshot("s-2", None)],
        "s-2".to_string(),
    );
    p.index = 1;
    let (lines, height) = p.view_lines();
    assert_eq!(
        texts(&lines),
        vec![" Search type to filter", "", " Fix bug  [s-1]", " s-2 *", "", " Enter resume · Esc close "]
    );
    assert_eq!(lines[3][0].0, Tone::Selected);
    assert_eq!(height, 10);
}

#[test]
fn small_pickers_list_their_choices() {
    let mut agents = AgentPickerState::new();
    agents.open(vec![("build".to_string(), "default".to_string())], 0);
    let (a, ah) = agents.view_lines();
    assert_eq!(texts(&a), vec![" Agent ", "", " build          default", "", " Enter apply · Esc cancel "]);
    assert_eq!(ah, 8);

    let mut providers = ProviderPickerState::new();
    providers.open(true);
    let (p, ph) = providers.view_lines();
    assert_eq!(texts(&p)[0], " Select provider for API key ");
    assert_eq!(texts(&p)[2], " MiniMax");
    assert_eq!(texts(&p)[7], " DeepSeek");
    assert_eq!(ph, 12);

    let mut perms = PermissionPickerState::new();
    perms.open(4);
    let (m, mh) = perms.view_lines();
    assert_eq!(texts(&m)[6], " BypassPermissions");
    assert_eq!(m[6][0].0, Tone::Selected);
    assert_eq!(mh, 11);
}

#[test]
fn info_popup_clamps_scroll_and_counts_position() {
    let mut info = InfoModalState::new();
    info.open("help".to_string(), (1..=20).map(|i| format!("line {i}")).collect());
    info.scroll = 99;
    let (lines, height) = info.view_lines();
    assert_eq!(info.scroll, 4);
    let t = texts(&lines);
    assert_eq!(t[0], " line 5");
    assert_eq!(t[15], " line 20");
    assert_eq!(t[16], " ─ 5/20 · ↑↓ scroll");
    assert_eq!(t[18], " Esc close ");
    assert_eq!(height, 22);
}

#[test]
fn api_key_popup_masks_the_key() {
    let mut m = ApiKeyModalState::new();
    m.open(ProviderKind::OpenAi, true, true);
    m.input = "sk-123".to_string();
    let (lines, title) = m.view_lines();
    let t = texts(&lines);
    assert_eq!(t[0], " Provider: OpenAI");
    assert_eq!(t[2], " API key ******");
    assert_eq!(t[4], " Press Enter to keep current key, or paste a new key to replace it. ");
    assert_eq!(title, " Connect provider ");
}
