use nca_cli::slash::{
    composer_chrome_height, filter_slash_entries, load_slash_entries, SkillSource, SlashEntry,
};

fn skill(command: &str, description: Option<&str>, source: SkillSource) -> SlashEntry {
    SlashEntry::Skill {
        command: command.to_string(),
        description: description.map(|d| d.to_string()),
        source,
    }
}

fn names(entries: &[SlashEntry]) -> Vec<String> {
    entries.iter().map(|e| e.command_str()).collect()
}

#[test]
fn command_and_display_text_of_entries() {
    let c = SlashEntry::Command("/help".to_string());
    assert_eq!(c.command_str(), "/help");
    assert_eq!(c.display_text(), "/help");
    let s = skill("deploy", Some("Ship it"), SkillSource::FileSystem);
    assert_eq!(s.command_str(), "/deploy");
    assert_eq!(s.display_text(), "/deploy               — Ship it (skill dir)");
    let bare = skill("lint", None, SkillSource::AgentsMd);
    assert_eq!(bare.display_text(), "/lint (AGENTS.md)");
    let long = skill("a-very-long-skill-name-here", Some("x"), SkillSource::AgentsMd);
    assert_eq!(long.display_text(), "/a-very-long-skill-name-here — x (AGENTS.md)");
}

#[test]
fn filter_matches_case_insensitive_prefixes_only_while_visible() {
    let entries = vec![
        SlashEntry::Command("/Help".to_string()),
        SlashEntry::Command("/model".to_string()),
        skill("helper", None, SkillSource::FileSystem),
    ];
    assert_eq!(filter_slash_entries(&entries, "/he"), vec![0, 2]);
    assert_eq!(filter_slash_entries(&entries, "//HE"), vec![0, 2]);
    assert_eq!(filter_slash_entries(&entries, "/"), vec![0, 1, 2]);
    assert_eq!(filter_slash_entries(&entries, "/mo"), vec![1]);
    assert!(filter_slash_entries(&entries, "/he lp").is_empty());
    assert!(filter_slash_entries(&entries, "he").is_empty());
}

#[test]
fn loaded_entries_are_sorted_without_repeated_commands() {
    let commands = vec!["/model".to_string(), "/help".to_string(), "/Exit".to_string()];
    let skills = vec![
        skill("deploy", None, SkillSource::FileSystem),
        skill("HELP", Some("dup"), SkillSource::AgentsMd),
    ];
    let loaded = load_slash_entries(&commands, skills);
    assert_eq!(names(&loaded), vec!["/deploy", "/Exit", "/help", "/model"]);
    assert!(matches!(&loaded[2], SlashEntry::Command(c) if c == "/help"));
}

#[test]
fn chrome_height_takes_the_taller_panel() {
    let entries = vec![
        SlashEntry::Command("/help".to_string()),
        SlashEntry::Command("/history".to_string()),
    ];
    assert_eq!(composer_chrome_height(&entries, &[], "/h", 2), 4);
    assert_eq!(composer_chrome_height(&entries, &[], "hello", 5), 0);
    let files = vec!["a.rs".to_string(), "ab.rs".to_string(), "b.rs".to_string()];
    assert_eq!(composer_chrome_height(&entries, &files, "see @a", 6), 4);
}
