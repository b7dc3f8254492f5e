use bolide::cmd::{Command, Commands, RegistryError, Sender};
use bolide::config::Time;
use bolide::term::{plan_line, LineAction};
use bolide::tg::{
    is_chat_allowed, plan_update, BotContext, DiscardReason, FetchOutcome, PumpState, Update,
    UpdateAction, UpdateKind,
};

fn cmd(name: &'static str, alias: Vec<&'static str>, help: &'static str) -> Command {
    Command { name, alias, help }
}

fn ctx() -> BotContext {
    BotContext {
        start_time: 100,
        bot_username: "mybot".to_string(),
        enabled_chats: vec!["42".to_string(), "-7".to_string()],
    }
}

fn msg(id: u32, date: u64, chat: i64, text: Option<&str>) -> Update {
    Update { id, kind: UpdateKind::Message, date, chat, text: text.map(|t| t.to_string()) }
}

#[test]
fn default_registry_has_help_and_version() {
    let cmds = Commands::default();
    assert_eq!(cmds.list.len(), 2);
    assert_eq!(cmds.list[0].name, "help");
    assert_eq!(cmds.list[0].help, "Show help for certain command");
    assert_eq!(cmds.list[1].name, "version");
    assert_eq!(cmds.list[1].help, "Show Bolide version");
    assert_eq!(cmds.lookup("help"), Some(0));
    assert_eq!(cmds.lookup("version"), Some(1));
    assert_eq!(cmds.lookup("frobnicate"), None);
}

#[test]
fn primary_name_beats_alias() {
    let list = vec![cmd("other", vec!["deploy"], "h1"), cmd("deploy", vec![], "h2")];
    let cmds = Commands::build(list).unwrap();
    // "deploy" is a primary name of the second command and an alias of the
    // first: primary-name lookup wins.
    assert_eq!(cmds.lookup("deploy"), Some(1));
    assert_eq!(cmds.lookup("other"), Some(0));
}

#[test]
fn alias_resolves_when_no_name_matches() {
    let list = vec![cmd("status", vec!["st", "stat"], "h")];
    let cmds = Commands::build(list).unwrap();
    assert_eq!(cmds.lookup("st"), Some(0));
    assert_eq!(cmds.lookup("stat"), Some(0));
    assert_eq!(cmds.lookup("sta"), None);
}

#[test]
fn duplicate_name_is_refused() {
    let list = vec![cmd("a", vec![], "h"), cmd("a", vec![], "h")];
    assert_eq!(Commands::build(list).err(), Some(RegistryError::DuplicateName));
}

#[test]
fn duplicate_alias_is_refused() {
    let list = vec![cmd("a", vec!["x"], "h"), cmd("b", vec!["x"], "h")];
    assert_eq!(Commands::build(list).err(), Some(RegistryError::DuplicateAlias));
    let list = vec![cmd("a", vec!["x", "x"], "h")];
    assert_eq!(Commands::build(list).err(), Some(RegistryError::DuplicateAlias));
}

#[test]
fn chat_allow_list_is_exact_string_match() {
    let chats = vec!["42".to_string(), "-7".to_string(), "007".to_string()];
    assert!(is_chat_allowed(42, &chats));
    assert!(is_chat_allowed(-7, &chats));
    assert!(!is_chat_allowed(7, &chats));
    assert!(!is_chat_allowed(423, &chats));
}

#[test]
fn non_message_update_is_discarded() {
    let cmds = Commands::default();
    let update = Update {
        id: 1,
        kind: UpdateKind::EditedMessage,
        date: 200,
        chat: 42,
        text: Some("/version".to_string()),
    };
    let action = plan_update(&update, &ctx(), &cmds);
    assert!(matches!(
        action,
        UpdateAction::Discard { reason: DiscardReason::UnsupportedKind }
    ));
    assert_eq!(update.kind.kind_name(), "EditedMessage");
}

#[test]
fn stale_update_is_discarded() {
    let cmds = Commands::default();
    let action = plan_update(&msg(1, 99, 42, Some("/version")), &ctx(), &cmds);
    assert!(matches!(action, UpdateAction::Discard { reason: DiscardReason::Stale }));
}

#[test]
fn unlisted_chat_is_discarded() {
    let cmds = Commands::default();
    let action = plan_update(&msg(1, 200, 43, Some("/version")), &ctx(), &cmds);
    assert!(matches!(
        action,
        UpdateAction::Discard { reason: DiscardReason::ChatNotEnabled }
    ));
}

#[test]
fn missing_or_empty_text_is_discarded() {
    let cmds = Commands::default();
    let action = plan_update(&msg(1, 200, 42, None), &ctx(), &cmds);
    assert!(matches!(action, UpdateAction::Discard { reason: DiscardReason::NoText }));
    let action = plan_update(&msg(1, 200, 42, Some("")), &ctx(), &cmds);
    assert!(matches!(action, UpdateAction::Discard { reason: DiscardReason::NoText }));
}

#[test]
fn plain_message_is_forwarded() {
    let cmds = Commands::default();
    let action = plan_update(&msg(1, 200, 42, Some("hello there")), &ctx(), &cmds);
    assert!(matches!(action, UpdateAction::Forward));
}

#[test]
fn bad_tokenization_is_discarded() {
    let cmds = Commands::default();
    for text in ["/", "/   ", "/say \"unclosed", "/cmd@other arg"] {
        let action = plan_update(&msg(1, 200, 42, Some(text)), &ctx(), &cmds);
        assert!(matches!(
            action,
            UpdateAction::Discard { reason: DiscardReason::NotInvocation }
        ));
    }
}

#[test]
fn command_resolves_with_args_and_sender() {
    let list = vec![cmd("say", vec![], "h")];
    let cmds = Commands::build(list).unwrap();
    let action = plan_update(&msg(1, 200, 42, Some("/say 'hello world'")), &ctx(), &cmds);
    match action {
        UpdateAction::Run { index, args, sender } => {
            assert_eq!(index, 0);
            assert_eq!(args, vec!["say".to_string(), "hello world".to_string()]);
            assert_eq!(sender, Sender::Telegram { chat: 42 });
        },
        other => panic!("expected a run action, got {:?}", other),
    }
}

#[test]
fn mention_qualified_command_resolves() {
    let cmds = Commands::default();
    let action = plan_update(&msg(1, 200, 42, Some("/version@MyBot")), &ctx(), &cmds);
    match action {
        UpdateAction::Run { index, args, .. } => {
            assert_eq!(index, 1);
            assert_eq!(args, vec!["version".to_string()]);
        },
        other => panic!("expected a run action, got {:?}", other),
    }
}

#[test]
fn unknown_command_gets_exact_reply() {
    let cmds = Commands::default();
    let action = plan_update(&msg(1, 200, 42, Some("/frobnicate")), &ctx(), &cmds);
    match action {
        UpdateAction::ReplyUnknown { sender, text } => {
            assert_eq!(sender, Sender::Telegram { chat: 42 });
            assert_eq!(text, "No such command `frobnicate`");
        },
        other => panic!("expected an unknown-command reply, got {:?}", other),
    }
}

#[test]
fn batch_end_to_end() {
    let cmds = Commands::default();
    let context = ctx();
    let mut state = PumpState::new();
    let time = Time::default();
    let batch = vec![
        msg(10, 200, 42, Some("hello")),
        msg(11, 200, 42, Some("/version")),
        msg(12, 200, 42, None),
    ];
    let plan = state.on_fetch_result(FetchOutcome::Batch(batch), &time);
    assert_eq!(state.cursor, 13);
    let mut replies = 0;
    let mut runs = Vec::new();
    for update in plan.updates.iter() {
        match plan_update(update, &context, &cmds) {
            UpdateAction::Run { index, .. } => {
                replies += 1;
                runs.push((update.id, index));
            },
            UpdateAction::ReplyUnknown { .. } => replies += 1,
            UpdateAction::Forward | UpdateAction::Discard { .. } => {},
        }
    }
    // exactly one reply-producing dispatch: the version command for update 11
    assert_eq!(replies, 1);
    assert_eq!(runs, vec![(11, 1)]);
}

#[test]
fn console_line_runs_command() {
    let cmds = Commands::default();
    match plan_line("version", &cmds) {
        LineAction::Run { index, args, sender } => {
            assert_eq!(index, 1);
            assert_eq!(args, vec!["version".to_string()]);
            assert_eq!(sender, Sender::Console);
        },
        other => panic!("expected a run action, got {:?}", other),
    }
}

#[test]
fn console_line_edge_cases() {
    let cmds = Commands::default();
    assert!(matches!(plan_line("\"unclosed", &cmds), LineAction::End));
    assert!(matches!(plan_line("", &cmds), LineAction::Skip));
    assert!(matches!(plan_line("   ", &cmds), LineAction::Skip));
    match plan_line("frobnicate now", &cmds) {
        LineAction::Unknown { text } => assert_eq!(text, "No such command `frobnicate`"),
        other => panic!("expected an unknown-command action, got {:?}", other),
    }
}

#[test]
fn help_page_lists_commands_with_aligned_names() {
    let commands = Commands::default();
    let reply = bolide::cmd::help::help_reply(&commands.list, 1, 10);
    assert_eq!(
        reply,
        "===== Page 1/1 =====\n\
         help    >> Show help for certain command\n\
         version >> Show Bolide version\n\
         Use `<command> -h` for more details"
    );
}

#[test]
fn help_page_splits_by_page_size() {
    let commands = Commands::default();
    let reply = bolide::cmd::help::help_reply(&commands.list, 2, 1);
    assert_eq!(
        reply,
        "===== Page 2/2 =====\nversion >> Show Bolide version\nUse `<command> -h` for more details"
    );
}

#[test]
fn help_page_out_of_range() {
    let commands = Commands::default();
    let reply = bolide::cmd::help::help_reply(&commands.list, 3, 10);
    assert_eq!(reply, "Page out of range 3/1");
}
