use aurora::framework::{Command, CommandFramework, CommandInfo, RegisteredCommand};
use aurora::AuroraError;

fn cmd(name: &str, id: Option<u64>, handler: u32) -> Command<u32> {
    Command { command: CommandInfo { name: name.to_string(), id }, handler }
}

fn framework() -> CommandFramework<u32> {
    CommandFramework {
        commands: vec![
            cmd("ping", Some(111), 1),
            cmd("settings", Some(222), 2),
            cmd("draft", None, 3),
            cmd("ping", Some(999), 4),
        ],
    }
}

fn mention_err(r: Result<String, AuroraError>) -> (String, String) {
    match r {
        Err(AuroraError::CommandMentionError(name, why)) => (name, why),
        Ok(s) => panic!("unexpected mention {s}"),
        Err(_) => panic!("unexpected error variant"),
    }
}

#[test]
fn get_command_uses_the_first_word_only() {
    let f = framework();
    assert_eq!(f.get_command("settings").map(|c| c.handler), Some(2));
    assert_eq!(f.get_command("  settings user show").map(|c| c.handler), Some(2));
    assert_eq!(f.get_command("missing").map(|c| c.handler), None);
    assert_eq!(f.get_command("").map(|c| c.handler), None);
    assert_eq!(f.get_command(" \t ").map(|c| c.handler), None);
}

#[test]
fn get_command_returns_the_first_of_a_name() {
    let f = framework();
    assert_eq!(f.get_command("ping").map(|c| c.handler), Some(1));
}

#[test]
fn mention_of_a_parent_command() {
    let f = framework();
    assert_eq!(f.mention_command("ping").ok(), Some("</ping:111>".to_string()));
}

#[test]
fn mention_of_a_subcommand_normalises_spacing() {
    let f = framework();
    assert_eq!(
        f.mention_command("  settings   user\tshow ").ok(),
        Some("</settings user show:222>".to_string())
    );
}

#[test]
fn mention_of_an_empty_name_fails() {
    let f = framework();
    assert_eq!(mention_err(f.mention_command("   ")), ("   ".to_string(), "command name empty".to_string()));
}

#[test]
fn mention_of_an_unknown_command_fails() {
    let f = framework();
    assert_eq!(
        mention_err(f.mention_command("nope sub")),
        ("nope sub".to_string(), "command not found".to_string())
    );
}

#[test]
fn mention_of_an_unregistered_command_fails() {
    let f = framework();
    assert_eq!(
        mention_err(f.mention_command("draft")),
        ("draft".to_string(), "command ID not found".to_string())
    );
}

#[test]
fn registration_assigns_ids_to_the_first_command_of_each_name() {
    let mut f = framework();
    f.assign_command_ids(&vec![
        RegisteredCommand { name: "draft".into(), id: Some(333) },
        RegisteredCommand { name: "ping".into(), id: Some(444) },
        RegisteredCommand { name: "unknown".into(), id: Some(555) },
    ]);
    let ids: Vec<Option<u64>> = f.commands.iter().map(|c| c.command.id).collect();
    assert_eq!(ids, vec![Some(444), Some(222), Some(333), Some(999)]);
    let handlers: Vec<u32> = f.commands.iter().map(|c| c.handler).collect();
    assert_eq!(handlers, vec![1, 2, 3, 4]);
    assert_eq!(f.mention_command("draft").ok(), Some("</draft:333>".to_string()));
}

#[test]
fn later_registrations_of_a_name_win() {
    let mut f = framework();
    f.assign_command_ids(&vec![
        RegisteredCommand { name: "settings".into(), id: Some(1) },
        RegisteredCommand { name: "settings".into(), id: Some(2) },
    ]);
    assert_eq!(f.mention_command("settings x").ok(), Some("</settings x:2>".to_string()));
}

#[test]
fn registration_without_matches_changes_nothing() {
    let mut f = framework();
    f.assign_command_ids(&vec![]);
    let ids: Vec<Option<u64>> = f.commands.iter().map(|c| c.command.id).collect();
    assert_eq!(ids, vec![Some(111), Some(222), None, Some(999)]);
}

#[test]
fn empty_framework_finds_nothing() {
    let f: CommandFramework<u32> = CommandFramework { commands: vec![] };
    assert!(f.get_command("ping").is_none());
    assert_eq!(mention_err(f.mention_command("ping")).1, "command not found");
}
