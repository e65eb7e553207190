use alfred::chat::{App, AppMode, Command};
use alfred::config::{resolve_credential, Config};
use alfred::models::Role;
use alfred::mux::{AppEvent, InputEvent, KeyCode};

fn key(code: KeyCode) -> AppEvent {
    AppEvent::Input(InputEvent::Key { code, ctrl: false })
}

fn type_text(app: &mut App, text: &str) {
    for c in text.chars() {
        assert!(matches!(app.handle(key(KeyCode::Char(c))), Command::Nothing));
    }
}

fn chat_app() -> App {
    App::new(Config::default(), None)
}

#[test]
fn fragments_join_with_spaces() {
    let mut app = chat_app();
    app.mode = AppMode::Chat;
    for f in ["Hello", "there", "friend"] {
        app.handle(AppEvent::AgentChunk(f.to_string()));
    }
    assert_eq!(app.messages.len(), 1);
    assert_eq!(app.messages[0].role, Role::Assistant);
    assert_eq!(app.messages[0].content, "Hello there friend");
    assert_eq!(app.streaming_idx, Some(0));
}

#[test]
fn completion_finalizes_turn() {
    let mut app = chat_app();
    app.handle(AppEvent::AgentChunk("one".to_string()));
    app.handle(AppEvent::AgentDone);
    assert_eq!(app.streaming_idx, None);
    app.handle(AppEvent::AgentChunk("two".to_string()));
    assert_eq!(app.messages.len(), 2);
    assert_eq!(app.messages[0].content, "one");
    assert_eq!(app.messages[1].content, "two");
    assert_eq!(app.streaming_idx, Some(1));
}

#[test]
fn empty_fragments_are_still_space_joined() {
    let mut app = chat_app();
    app.handle(AppEvent::AgentChunk(String::new()));
    app.handle(AppEvent::AgentChunk("x".to_string()));
    app.handle(AppEvent::AgentChunk(String::new()));
    assert_eq!(app.messages.len(), 1);
    assert_eq!(app.messages[0].content, " x ");
}

#[test]
fn turns_keep_their_identities() {
    let mut app = chat_app();
    app.mode = AppMode::Chat;
    type_text(&mut app, "q");
    app.handle(key(KeyCode::Enter));
    let user_id = app.messages[0].id;
    app.handle(AppEvent::AgentChunk("a".to_string()));
    let reply_id = app.messages[1].id;
    app.handle(AppEvent::AgentChunk("b".to_string()));
    app.handle(AppEvent::AgentDone);
    assert_eq!(app.messages[0].id, user_id);
    assert_eq!(app.messages[1].id, reply_id);
    assert_eq!(app.messages[1].content, "a b");
}

#[test]
fn new_app_mode_follows_credentials() {
    assert_eq!(App::new(Config::default(), None).mode, AppMode::Setup);
    assert_eq!(App::new(Config::default(), Some("env".to_string())).mode, AppMode::Chat);
    let cfg = Config { openrouter_api_key: Some("k".to_string()) };
    assert_eq!(App::new(cfg, None).mode, AppMode::Chat);
}

#[test]
fn setup_submission_saves_credential_then_routes_remote() {
    let mut app = App::new(Config::default(), None);
    type_text(&mut app, "  sk-123 ");
    match app.handle(key(KeyCode::Enter)) {
        Command::SaveConfig(cfg) => assert_eq!(cfg.openrouter_api_key, Some("sk-123".to_string())),
        other => panic!("unexpected {:?}", other),
    }
    assert_eq!(app.mode, AppMode::Chat);
    assert_eq!(app.input, "");
    assert!(app.messages.is_empty());
    type_text(&mut app, "hello");
    match app.handle(key(KeyCode::Enter)) {
        Command::SpawnRemote { messages, api_key } => {
            assert_eq!(api_key, "sk-123");
            assert_eq!(messages.len(), 1);
            assert_eq!(messages[0].role, Role::User);
            assert_eq!(messages[0].content, "hello");
        }
        other => panic!("unexpected {:?}", other),
    }
    assert_eq!(app.mode, AppMode::Chat);
}

#[test]
fn environment_credential_takes_precedence() {
    let cfg = Config { openrouter_api_key: Some("cfg".to_string()) };
    let mut app = App::new(cfg, Some("env".to_string()));
    type_text(&mut app, "q");
    match app.handle(key(KeyCode::Enter)) {
        Command::SpawnRemote { api_key, .. } => assert_eq!(api_key, "env"),
        other => panic!("unexpected {:?}", other),
    }
    assert_eq!(resolve_credential(&None, &Some("c".to_string())), Some("c".to_string()));
    assert_eq!(resolve_credential(&None, &None), None);
}

#[test]
fn no_credential_routes_to_stand_in() {
    let mut app = chat_app();
    app.mode = AppMode::Chat;
    type_text(&mut app, " hi there ");
    match app.handle(key(KeyCode::Enter)) {
        Command::SpawnStandIn { input } => assert_eq!(input, "hi there"),
        other => panic!("unexpected {:?}", other),
    }
    assert_eq!(app.messages.len(), 1);
    assert_eq!(app.messages[0].content, "hi there");
    assert_eq!(app.input, "");
}

#[test]
fn whitespace_submission_is_ignored() {
    let mut app = chat_app();
    type_text(&mut app, "   ");
    assert!(matches!(app.handle(key(KeyCode::Enter)), Command::Nothing));
    assert_eq!(app.mode, AppMode::Setup);
    assert_eq!(app.input, "   ");
}

#[test]
fn editing_scrolling_and_quitting() {
    let mut app = chat_app();
    type_text(&mut app, "ab");
    app.handle(key(KeyCode::Backspace));
    assert_eq!(app.input, "a");
    app.handle(key(KeyCode::Backspace));
    app.handle(key(KeyCode::Backspace));
    assert_eq!(app.input, "");
    app.handle(key(KeyCode::Down));
    assert_eq!(app.scroll, 0);
    app.handle(key(KeyCode::Up));
    app.handle(key(KeyCode::Up));
    assert_eq!(app.scroll, 2);
    app.scroll = u16::MAX;
    app.handle(key(KeyCode::Up));
    assert_eq!(app.scroll, u16::MAX);
    assert!(matches!(app.handle(key(KeyCode::Esc)), Command::Quit));
    let ctrl_c = AppEvent::Input(InputEvent::Key { code: KeyCode::Char('c'), ctrl: true });
    assert!(matches!(app.handle(ctrl_c), Command::Quit));
    let ctrl_x = AppEvent::Input(InputEvent::Key { code: KeyCode::Char('x'), ctrl: true });
    assert!(matches!(app.handle(ctrl_x), Command::Nothing));
    assert_eq!(app.input, "x");
    assert!(matches!(app.handle(AppEvent::Tick), Command::Nothing));
    assert!(matches!(app.handle(AppEvent::Input(InputEvent::Resize)), Command::Nothing));
}
