use rolebot::pipeline::{receive, step, Action, CommandResult, Event, FailureKind, Stage};
use rolebot::registry::{CommandDescriptor, CommandRegistry, Handler, RegistryError};
use rolebot::role::{
    confirmation_text, find_role_by_name, not_found_text, role_after_add, role_after_member,
    role_after_say, role_begin, Role, RoleAction,
};
use rolebot::text::lower_string;
use rolebot::tokenizer::{tokenize, TokenizerConfig};

fn config() -> TokenizerConfig {
    TokenizerConfig {
        prefix: "!".to_string(),
        delimiters: vec![", ".to_string(), ",".to_string()],
        with_whitespace: true,
    }
}

fn role_command() -> CommandDescriptor {
    CommandDescriptor {
        name: "role".to_string(),
        aliases: vec![],
        group: "general".to_string(),
        handler: Handler::RoleAssignment,
    }
}

fn registry() -> CommandRegistry {
    let mut reg = CommandRegistry::new();
    assert_eq!(reg.register(role_command()), Ok(()));
    reg
}

fn tok(text: &str) -> Option<(String, String)> {
    tokenize(&config(), text).map(|i| (i.name, i.args))
}

fn roles() -> Vec<Role> {
    vec![
        Role { id: 10, name: "Admin".to_string() },
        Role { id: 20, name: "Moderator".to_string() },
        Role { id: 30, name: "Moderator".to_string() },
        Role { id: 40, name: "Senior Dev".to_string() },
    ]
}

/// Effects recorded while driving one message through the pipeline and the role command.
#[derive(Debug, Default)]
struct Run {
    normal: u32,
    before: Vec<String>,
    unknown: Vec<String>,
    after: Vec<(String, CommandResult)>,
    role_added: Vec<u64>,
    said: Vec<String>,
}

fn drive(text: &str, allow: bool, guild: Option<&Vec<Role>>, user_id: u64) -> Run {
    let reg = registry();
    let mut run = Run::default();
    let (mut stage, mut action) = receive(&config(), text);
    loop {
        let event = match action {
            Action::InvokeNormal => {
                run.normal += 1;
                None
            }
            Action::InvokeBefore { name } => {
                run.before.push(name);
                Some(Event::BeforeReturned(allow))
            }
            Action::RunHandler { command, args } => {
                assert_eq!(reg.descriptor(command).handler, Handler::RoleAssignment);
                let mut ra = role_begin(guild, &args);
                let result = loop {
                    ra = match ra {
                        RoleAction::ResolveMember { role_id } => role_after_member(role_id, true),
                        RoleAction::AddRole { role_id } => {
                            run.role_added.push(role_id);
                            role_after_add(user_id, true)
                        }
                        RoleAction::Say { text } => {
                            run.said.push(text);
                            break role_after_say(true);
                        }
                        RoleAction::Finish(r) => break r,
                    };
                };
                Some(Event::HandlerReturned(result))
            }
            Action::InvokeUnknown { name } => {
                run.unknown.push(name);
                None
            }
            Action::InvokeAfter { name, result } => {
                run.after.push((name, result));
                None
            }
            Action::Stop => None,
        };
        match event {
            Some(e) => {
                let (s, a) = step(&reg, stage, e);
                stage = s;
                action = a;
            }
            None => break,
        }
    }
    assert!(matches!(stage, Stage::Finished));
    run
}

#[test]
fn tokenize_splits_name_and_arguments() {
    assert_eq!(tok("!role Moderator"), Some(("role".to_string(), "Moderator".to_string())));
}

#[test]
fn tokenize_keeps_spaces_inside_arguments() {
    assert_eq!(tok("!role Senior Dev  "), Some(("role".to_string(), "Senior Dev".to_string())));
}

#[test]
fn tokenize_without_prefix_is_none() {
    assert_eq!(tok("hello there"), None);
    assert_eq!(tok("role !Moderator"), None);
    assert_eq!(tok(""), None);
}

#[test]
fn tokenize_bare_name_has_empty_arguments() {
    assert_eq!(tok("!ping"), Some(("ping".to_string(), String::new())));
}

#[test]
fn tokenize_prefix_alone_gives_empty_name() {
    assert_eq!(tok("!"), Some((String::new(), String::new())));
}

#[test]
fn tokenize_lowercases_name_only() {
    assert_eq!(tok("!ROLE Admin"), Some(("role".to_string(), "Admin".to_string())));
}

#[test]
fn tokenize_uses_delimiters_and_collapses_them() {
    assert_eq!(tok("!role,, Mod"), Some(("role".to_string(), "Mod".to_string())));
    assert_eq!(tok("!a, b,c"), Some(("a".to_string(), "b,c".to_string())));
}

#[test]
fn tokenize_whitespace_after_prefix() {
    assert_eq!(tok("!   role   x "), Some(("role".to_string(), "x".to_string())));
    let strict = TokenizerConfig { with_whitespace: false, ..config() };
    let inv = tokenize(&strict, "! role x ").unwrap();
    assert_eq!((inv.name.as_str(), inv.args.as_str()), ("", "role x "));
}

#[test]
fn lower_string_is_ascii_lowercase() {
    assert_eq!(lower_string("AbC-É"), "abc-É".to_string());
}

#[test]
fn registry_lookup_is_case_normalized() {
    let reg = registry();
    assert_eq!(reg.lookup("role"), Some(0));
    assert_eq!(reg.lookup("RoLe"), Some(0));
    assert_eq!(reg.lookup("rol"), None);
    assert_eq!(reg.lookup(""), None);
    assert_eq!(reg.len(), 1);
}

#[test]
fn registry_aliases_resolve() {
    let mut reg = registry();
    let give = CommandDescriptor {
        name: "give".to_string(),
        aliases: vec!["grant".to_string(), "Add".to_string()],
        group: "general".to_string(),
        handler: Handler::RoleAssignment,
    };
    assert_eq!(reg.register(give), Ok(()));
    assert_eq!(reg.lookup("grant"), Some(1));
    assert_eq!(reg.lookup("add"), Some(1));
    assert_eq!(reg.lookup("give"), Some(1));
    assert_eq!(reg.descriptor(1).name, "give");
}

#[test]
fn registry_refuses_duplicates() {
    let mut reg = registry();
    let clash = CommandDescriptor { name: "ROLE".to_string(), ..role_command() };
    assert_eq!(reg.register(clash), Err(RegistryError::DuplicateName));
    let self_clash = CommandDescriptor {
        name: "x".to_string(),
        aliases: vec!["X".to_string()],
        ..role_command()
    };
    assert_eq!(reg.register(self_clash), Err(RegistryError::DuplicateName));
    assert_eq!(reg.len(), 1);
}

#[test]
fn role_lookup_is_case_sensitive() {
    assert_eq!(find_role_by_name(&roles(), "admin"), None);
    assert_eq!(find_role_by_name(&roles(), "Admin"), Some(10));
}

#[test]
fn role_lookup_takes_first_match() {
    assert_eq!(find_role_by_name(&roles(), "Moderator"), Some(20));
    assert_eq!(find_role_by_name(&roles(), "Senior Dev"), Some(40));
    assert_eq!(find_role_by_name(&vec![], "Admin"), None);
}

#[test]
fn reply_texts() {
    assert_eq!(not_found_text("Nonexistent"), "Couldn't find role named 'Nonexistent'");
    assert_eq!(confirmation_text(123456789012345678), "Here you go, <@123456789012345678>!");
    assert_eq!(confirmation_text(0), "Here you go, <@0>!");
}

#[test]
fn role_steps_report_failures() {
    assert!(matches!(
        role_begin(None, "Admin"),
        RoleAction::Finish(CommandResult::Failure(FailureKind::GuildNotCached))
    ));
    assert!(matches!(role_begin(Some(&roles()), "Admin"), RoleAction::ResolveMember { role_id: 10 }));
    assert!(matches!(
        role_after_member(10, false),
        RoleAction::Finish(CommandResult::Failure(FailureKind::MemberUnresolved))
    ));
    assert!(matches!(role_after_member(10, true), RoleAction::AddRole { role_id: 10 }));
    assert!(matches!(
        role_after_add(7, false),
        RoleAction::Finish(CommandResult::Failure(FailureKind::RoleNotAdded))
    ));
    assert_eq!(role_after_say(false), CommandResult::Failure(FailureKind::ReplyNotSent));
    assert_eq!(role_after_say(true), CommandResult::Success);
}

#[test]
fn veto_skips_handler_and_after_hook() {
    let run = drive("!role Moderator", false, Some(&roles()), 7);
    assert_eq!(run.before, vec!["role".to_string()]);
    assert!(run.after.is_empty());
    assert!(run.role_added.is_empty());
    assert!(run.said.is_empty());
    assert!(run.unknown.is_empty());
}

#[test]
fn after_hook_carries_handler_failure() {
    let run = drive("!role Admin", true, None, 7);
    assert_eq!(
        run.after,
        vec![("role".to_string(), CommandResult::Failure(FailureKind::GuildNotCached))]
    );
}

#[test]
fn ignored_events_change_nothing() {
    let reg = registry();
    let (stage, _) = receive(&config(), "!role x");
    let (stage, action) = step(&reg, stage, Event::HandlerReturned(CommandResult::Success));
    assert!(matches!(action, Action::Stop));
    assert!(matches!(stage, Stage::Filtering { .. }));
    let (stage, action) = step(&reg, Stage::Finished, Event::BeforeReturned(true));
    assert!(matches!(action, Action::Stop));
    assert!(matches!(stage, Stage::Finished));
}

#[test]
fn end_to_end_role_found() {
    let run = drive("!role Moderator", true, Some(&roles()), 42);
    assert_eq!(run.role_added, vec![20]);
    assert_eq!(run.said, vec!["Here you go, <@42>!".to_string()]);
    assert_eq!(run.after, vec![("role".to_string(), CommandResult::Success)]);
    assert_eq!(run.normal, 0);
    assert!(run.unknown.is_empty());
}

#[test]
fn end_to_end_role_missing() {
    let run = drive("!role Nonexistent", true, Some(&roles()), 42);
    assert!(run.role_added.is_empty());
    assert_eq!(run.said, vec!["Couldn't find role named 'Nonexistent'".to_string()]);
    assert_eq!(run.after, vec![("role".to_string(), CommandResult::Success)]);
}

#[test]
fn end_to_end_unknown_command() {
    let run = drive("!bogus", true, Some(&roles()), 42);
    assert_eq!(run.unknown, vec!["bogus".to_string()]);
    assert_eq!(run.before, vec!["bogus".to_string()]);
    assert!(run.after.is_empty());
    assert!(run.said.is_empty());
    assert!(run.role_added.is_empty());
    assert_eq!(run.normal, 0);
}

#[test]
fn end_to_end_normal_message() {
    let run = drive("hello there", true, Some(&roles()), 42);
    assert_eq!(run.normal, 1);
    assert!(run.before.is_empty());
    assert!(run.unknown.is_empty());
    assert!(run.after.is_empty());
    assert!(run.said.is_empty());
}
