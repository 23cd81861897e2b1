use telegram_client::app::{BackendEvent, GuiAction};
use telegram_client::coordinator::{
    AuthState, Coordinator, DialogInfo, Input, Pending, RemoteCall, Response, SignInOutcome, Step,
    BUSY, CHAT_NOT_FOUND, MAX_CHATS, MAX_MESSAGES, NOT_AVAILABLE, NOT_CONFIGURED, NO_LOGIN_TOKEN,
    NO_PASSWORD_TOKEN,
};
use telegram_client::history::RawMessage;

fn dialog(id: &str, name: Option<&str>, peer: u64) -> DialogInfo {
    DialogInfo { id: id.to_string(), name: name.map(|n| n.to_string()), peer }
}

fn message(id: i32, timestamp: i64) -> RawMessage {
    RawMessage {
        id,
        text: format!("text {}", id),
        sender: Some("Ann".to_string()),
        timestamp,
        date: format!("t{}", timestamp),
    }
}

fn error_text(step: &Step) -> Option<String> {
    match &step.event {
        Some(BackendEvent::Error(text)) => Some(text.clone()),
        _ => None,
    }
}

fn configured() -> Coordinator {
    let mut c = Coordinator::new();
    c.handle_intent(GuiAction::Configure { api_id: 12345, api_hash: "abcde".to_string() });
    c.handle_response(Response::Authorization(false));
    c
}

fn signed_in(dialogs: Vec<DialogInfo>) -> Coordinator {
    let mut c = Coordinator::new();
    c.handle_intent(GuiAction::Configure { api_id: 12345, api_hash: "abcde".to_string() });
    c.handle_response(Response::Authorization(true));
    c.handle_response(Response::Dialogs(dialogs));
    c
}

#[test]
fn starts_unconfigured_and_idle() {
    let c = Coordinator::new();
    assert_eq!(c.auth_state(), AuthState::Unconfigured);
    assert_eq!(c.pending(), Pending::Nothing);
    assert!(c.is_idle());
    assert!(c.has_no_chats());
}

#[test]
fn intents_before_configuration_are_refused() {
    let mut c = Coordinator::new();
    let intents = vec![
        GuiAction::Login("+1555".to_string()),
        GuiAction::SendCode("1".to_string()),
        GuiAction::SendPassword("p".to_string()),
        GuiAction::RefreshChats,
        GuiAction::SelectChat("42".to_string()),
        GuiAction::SendMessage { chat_id: "42".to_string(), text: "hi".to_string() },
        GuiAction::Logout,
        GuiAction::BackToChats,
    ];
    for intent in intents {
        let step = c.handle_intent(intent);
        assert_eq!(error_text(&step), Some(NOT_CONFIGURED.to_string()));
        assert!(step.call.is_none());
        assert_eq!(c.auth_state(), AuthState::Unconfigured);
        assert!(c.is_idle());
    }
    assert_eq!(NOT_CONFIGURED, "Please configure API ID first");
}

#[test]
fn configure_emits_configured_and_checks_the_session() {
    let mut c = Coordinator::new();
    let step = c.handle_intent(GuiAction::Configure { api_id: 12345, api_hash: "abcde".to_string() });
    assert!(matches!(step.event, Some(BackendEvent::Configured)));
    assert!(matches!(step.call, Some(RemoteCall::CheckAuthorized { api_id: 12345 })));
    assert_eq!(c.auth_state(), AuthState::AwaitingPhone);
    assert_eq!(c.pending(), Pending::Authorization);
    let step = c.handle_response(Response::Authorization(false));
    assert!(step.event.is_none() && step.call.is_none());
    assert_eq!(c.auth_state(), AuthState::AwaitingPhone);
    assert!(c.is_idle());
}

#[test]
fn authorized_session_skips_the_handshake() {
    let mut c = Coordinator::new();
    c.handle_intent(GuiAction::Configure { api_id: 1, api_hash: "h".to_string() });
    let step = c.handle_response(Response::Authorization(true));
    assert!(matches!(step.event, Some(BackendEvent::LoggedIn)));
    assert!(matches!(step.call, Some(RemoteCall::ListDialogs { limit: 50 })));
    assert_eq!(c.auth_state(), AuthState::Authenticated);
    assert_eq!(c.pending(), Pending::Dialogs);
}

#[test]
fn authorization_outcome_is_ignored_after_startup() {
    let mut c = configured();
    let step = c.handle_response(Response::Authorization(true));
    assert!(step.event.is_none() && step.call.is_none());
    assert_eq!(c.auth_state(), AuthState::AwaitingPhone);
}

#[test]
fn second_configuration_is_refused() {
    let mut c = configured();
    let step = c.handle_intent(GuiAction::Configure { api_id: 2, api_hash: "x".to_string() });
    assert_eq!(error_text(&step), Some(NOT_AVAILABLE.to_string()));
    let step = c.handle_intent(GuiAction::Login("+1555".to_string()));
    match step.call {
        Some(RemoteCall::RequestLoginCode { phone, api_hash }) => {
            assert_eq!(phone, "+1555");
            assert_eq!(api_hash, "abcde");
        }
        other => panic!("unexpected call {:?}", other),
    }
}

#[test]
fn login_code_failure_stays_and_reports_verbatim() {
    let mut c = configured();
    c.handle_intent(GuiAction::Login("+1555".to_string()));
    assert_eq!(c.pending(), Pending::LoginCode);
    let step = c.handle_response(Response::LoginCode(Err("flood wait".to_string())));
    assert_eq!(error_text(&step), Some("flood wait".to_string()));
    assert!(step.call.is_none());
    assert_eq!(c.auth_state(), AuthState::AwaitingPhone);
    assert!(c.is_idle());
}

#[test]
fn scenario_login_with_password() {
    let mut c = Coordinator::new();
    let step = c.handle_intent(GuiAction::Configure { api_id: 12345, api_hash: "abcde".to_string() });
    assert!(matches!(step.event, Some(BackendEvent::Configured)));
    c.handle_response(Response::Authorization(false));

    let step = c.handle_intent(GuiAction::Login("+1555".to_string()));
    assert!(step.event.is_none());
    let step = c.handle_response(Response::LoginCode(Ok(7)));
    assert!(matches!(step.event, Some(BackendEvent::CodeSent)));
    assert!(step.call.is_none());
    assert_eq!(c.auth_state(), AuthState::AwaitingCode { login_token: 7 });

    let step = c.handle_intent(GuiAction::SendCode("00000".to_string()));
    match step.call {
        Some(RemoteCall::SignIn { login_token, code }) => {
            assert_eq!(login_token, 7);
            assert_eq!(code, "00000");
        }
        other => panic!("unexpected call {:?}", other),
    }
    let step = c.handle_response(Response::SignIn(SignInOutcome::PasswordRequired(9)));
    assert!(matches!(step.event, Some(BackendEvent::PasswordRequired)));
    assert!(step.call.is_none());
    assert_eq!(c.auth_state(), AuthState::AwaitingPassword { password_token: Some(9) });

    let step = c.handle_intent(GuiAction::SendPassword("secret".to_string()));
    match step.call {
        Some(RemoteCall::CheckPassword { password_token, password }) => {
            assert_eq!(password_token, 9);
            assert_eq!(password, "secret");
        }
        other => panic!("unexpected call {:?}", other),
    }
    let step = c.handle_response(Response::Password(Ok(())));
    assert!(matches!(step.event, Some(BackendEvent::LoggedIn)));
    assert!(matches!(step.call, Some(RemoteCall::ListDialogs { limit: 50 })));
    assert_eq!(c.auth_state(), AuthState::Authenticated);

    let dialogs: Vec<DialogInfo> =
        (0..60).map(|i| dialog(&i.to_string(), Some("chat"), 100 + i as u64)).collect();
    let step = c.handle_response(Response::Dialogs(dialogs));
    assert!(step.call.is_none());
    match step.event {
        Some(BackendEvent::ChatsLoaded(chats)) => {
            assert_eq!(chats.len(), 50);
            assert!(chats.len() <= MAX_CHATS);
            assert_eq!(chats[0].id, "0");
            assert_eq!(chats[49].id, "49");
        }
        other => panic!("unexpected event {:?}", other),
    }
    assert_eq!(c.peer_of(&"49".to_string()), Some(149));
    assert_eq!(c.peer_of(&"50".to_string()), None);
    assert!(c.is_idle());
}

#[test]
fn sign_in_success_enters_authenticated_and_refreshes() {
    let mut c = configured();
    c.handle_intent(GuiAction::Login("+1".to_string()));
    c.handle_response(Response::LoginCode(Ok(3)));
    c.handle_intent(GuiAction::SendCode("11111".to_string()));
    let step = c.handle_response(Response::SignIn(SignInOutcome::SignedIn));
    assert!(matches!(step.event, Some(BackendEvent::LoggedIn)));
    assert!(matches!(step.call, Some(RemoteCall::ListDialogs { limit: 50 })));
    assert_eq!(c.auth_state(), AuthState::Authenticated);
}

#[test]
fn sign_in_failure_keeps_the_login_token() {
    let mut c = configured();
    c.handle_intent(GuiAction::Login("+1".to_string()));
    c.handle_response(Response::LoginCode(Ok(3)));
    c.handle_intent(GuiAction::SendCode("bad".to_string()));
    let step = c.handle_response(Response::SignIn(SignInOutcome::Failed("invalid code".to_string())));
    assert_eq!(error_text(&step), Some("invalid code".to_string()));
    assert_eq!(c.auth_state(), AuthState::AwaitingCode { login_token: 3 });
    let step = c.handle_intent(GuiAction::SendCode("good".to_string()));
    assert!(matches!(step.call, Some(RemoteCall::SignIn { login_token: 3, .. })));
}

#[test]
fn code_without_pending_login_is_refused() {
    let mut c = configured();
    let step = c.handle_intent(GuiAction::SendCode("00000".to_string()));
    assert_eq!(error_text(&step), Some(NO_LOGIN_TOKEN.to_string()));
    assert_eq!(NO_LOGIN_TOKEN, "No login token found");
    assert!(step.call.is_none());
    assert_eq!(c.auth_state(), AuthState::AwaitingPhone);
}

#[test]
fn login_token_is_spent_once_password_is_required() {
    let mut c = configured();
    c.handle_intent(GuiAction::Login("+1".to_string()));
    c.handle_response(Response::LoginCode(Ok(3)));
    c.handle_intent(GuiAction::SendCode("00000".to_string()));
    c.handle_response(Response::SignIn(SignInOutcome::PasswordRequired(4)));
    let step = c.handle_intent(GuiAction::SendCode("00000".to_string()));
    assert_eq!(error_text(&step), Some(NO_LOGIN_TOKEN.to_string()));
    assert!(step.call.is_none());
    assert_eq!(c.auth_state(), AuthState::AwaitingPassword { password_token: Some(4) });
    assert!(c.is_idle());
}

#[test]
fn password_failure_clears_the_password_token() {
    let mut c = configured();
    c.handle_intent(GuiAction::Login("+1".to_string()));
    c.handle_response(Response::LoginCode(Ok(3)));
    c.handle_intent(GuiAction::SendCode("00000".to_string()));
    c.handle_response(Response::SignIn(SignInOutcome::PasswordRequired(4)));
    c.handle_intent(GuiAction::SendPassword("wrong".to_string()));
    assert_eq!(c.auth_state(), AuthState::AwaitingPassword { password_token: None });
    let step = c.handle_response(Response::Password(Err("bad password".to_string())));
    assert_eq!(error_text(&step), Some("bad password".to_string()));
    assert_eq!(c.auth_state(), AuthState::AwaitingPassword { password_token: None });
    let step = c.handle_intent(GuiAction::SendPassword("again".to_string()));
    assert_eq!(error_text(&step), Some(NO_PASSWORD_TOKEN.to_string()));
    assert_eq!(NO_PASSWORD_TOKEN, "No password token found");
    assert!(step.call.is_none());
}

#[test]
fn intents_outside_their_state_are_refused() {
    let mut c = configured();
    for intent in vec![GuiAction::RefreshChats, GuiAction::Logout] {
        let step = c.handle_intent(intent);
        assert_eq!(error_text(&step), Some(NOT_AVAILABLE.to_string()));
        assert_eq!(c.auth_state(), AuthState::AwaitingPhone);
    }
    let mut c = signed_in(vec![]);
    let step = c.handle_intent(GuiAction::Login("+1".to_string()));
    assert_eq!(error_text(&step), Some(NOT_AVAILABLE.to_string()));
    assert_eq!(c.auth_state(), AuthState::Authenticated);
}

#[test]
fn intent_during_outstanding_call_is_refused() {
    let mut c = configured();
    c.handle_intent(GuiAction::Login("+1".to_string()));
    let step = c.handle_intent(GuiAction::Login("+2".to_string()));
    assert_eq!(error_text(&step), Some(BUSY.to_string()));
    assert!(step.call.is_none());
    assert_eq!(c.pending(), Pending::LoginCode);
}

#[test]
fn outcome_of_another_call_is_ignored() {
    let mut c = configured();
    c.handle_intent(GuiAction::Login("+1".to_string()));
    let step = c.handle_response(Response::SignOut(Ok(())));
    assert!(step.event.is_none() && step.call.is_none());
    assert_eq!(c.pending(), Pending::LoginCode);
    assert_eq!(c.auth_state(), AuthState::AwaitingPhone);
}

#[test]
fn refresh_replaces_the_cache() {
    let mut c = signed_in(vec![dialog("1", Some("one"), 11), dialog("2", None, 12)]);
    assert_eq!(c.peer_of(&"1".to_string()), Some(11));
    let step = c.handle_intent(GuiAction::RefreshChats);
    assert!(step.event.is_none());
    assert!(matches!(step.call, Some(RemoteCall::ListDialogs { limit: 50 })));
    let step = c.handle_response(Response::Dialogs(vec![dialog("2", None, 22), dialog("3", Some("three"), 23)]));
    match step.event {
        Some(BackendEvent::ChatsLoaded(chats)) => {
            assert_eq!(chats.len(), 2);
            assert_eq!(chats[0].id, "2");
            assert_eq!(chats[0].name, "Unknown");
            assert_eq!(chats[1].id, "3");
            assert_eq!(chats[1].name, "three");
        }
        other => panic!("unexpected event {:?}", other),
    }
    assert_eq!(c.peer_of(&"1".to_string()), None);
    assert_eq!(c.peer_of(&"2".to_string()), Some(22));
    assert_eq!(c.peer_of(&"3".to_string()), Some(23));
}

#[test]
fn later_dialog_with_same_identifier_wins() {
    let c = signed_in(vec![dialog("1", Some("a"), 11), dialog("1", Some("b"), 12)]);
    assert_eq!(c.peer_of(&"1".to_string()), Some(12));
}

#[test]
fn empty_listing_gives_empty_chat_list() {
    let mut c = signed_in(vec![dialog("1", Some("a"), 11)]);
    c.handle_intent(GuiAction::RefreshChats);
    let step = c.handle_response(Response::Dialogs(vec![]));
    assert!(matches!(&step.event, Some(BackendEvent::ChatsLoaded(chats)) if chats.is_empty()));
    assert!(c.has_no_chats());
}

#[test]
fn every_listed_chat_can_be_selected() {
    let dialogs: Vec<DialogInfo> =
        (0..5).map(|i| dialog(&format!("c{}", i), None, 500 + i as u64)).collect();
    let mut c = signed_in(vec![]);
    c.handle_intent(GuiAction::RefreshChats);
    let step = c.handle_response(Response::Dialogs(dialogs));
    let chats = match step.event {
        Some(BackendEvent::ChatsLoaded(chats)) => chats,
        other => panic!("unexpected event {:?}", other),
    };
    assert_eq!(chats.len(), 5);
    for (i, chat) in chats.iter().enumerate() {
        let step = c.handle_intent(GuiAction::SelectChat(chat.id.clone()));
        assert!(step.event.is_none());
        match step.call {
            Some(RemoteCall::ListMessages { peer, limit }) => {
                assert_eq!(peer, 500 + i as u64);
                assert_eq!(limit, MAX_MESSAGES);
            }
            other => panic!("unexpected call {:?}", other),
        }
        c.handle_response(Response::Messages(vec![]));
    }
}

#[test]
fn scenario_select_unknown_chat() {
    let mut c = signed_in(vec![dialog("1", Some("one"), 11)]);
    let step = c.handle_intent(GuiAction::SelectChat("42".to_string()));
    assert_eq!(error_text(&step), Some(CHAT_NOT_FOUND.to_string()));
    assert_eq!(CHAT_NOT_FOUND, "Chat not found in cache");
    assert!(step.call.is_none());
    assert_eq!(c.auth_state(), AuthState::Authenticated);
    assert!(c.is_idle());
    assert_eq!(c.peer_of(&"1".to_string()), Some(11));
    assert_eq!(c.peer_of(&"42".to_string()), None);
    let again = c.handle_intent(GuiAction::SelectChat("42".to_string()));
    assert_eq!(error_text(&again), Some(CHAT_NOT_FOUND.to_string()));
}

#[test]
fn selected_chat_messages_come_oldest_first() {
    let mut c = signed_in(vec![dialog("1", Some("one"), 11)]);
    let step = c.handle_intent(GuiAction::SelectChat("1".to_string()));
    assert!(matches!(step.call, Some(RemoteCall::ListMessages { peer: 11, limit: 50 })));
    assert_eq!(c.pending(), Pending::Messages);
    let raw = vec![message(30, 300), message(20, 200), message(10, 100)];
    let step = c.handle_response(Response::Messages(raw));
    assert!(step.call.is_none());
    match step.event {
        Some(BackendEvent::MessagesLoaded(batch)) => {
            let ids: Vec<i32> = batch.iter().map(|m| m.id).collect();
            assert_eq!(ids, vec![10, 20, 30]);
            let dates: Vec<&str> = batch.iter().map(|m| m.date.as_str()).collect();
            assert_eq!(dates, vec!["t100", "t200", "t300"]);
        }
        other => panic!("unexpected event {:?}", other),
    }
    assert!(c.is_idle());
}

#[test]
fn successful_send_refetches_the_history() {
    let mut c = signed_in(vec![dialog("1", Some("one"), 11)]);
    let step = c.handle_intent(GuiAction::SendMessage { chat_id: "1".to_string(), text: "hello".to_string() });
    assert!(step.event.is_none());
    match step.call {
        Some(RemoteCall::SendMessage { peer, text }) => {
            assert_eq!(peer, 11);
            assert_eq!(text, "hello");
        }
        other => panic!("unexpected call {:?}", other),
    }
    assert_eq!(c.pending(), Pending::Send { peer: 11 });
    let step = c.handle_response(Response::Sent(Ok(())));
    assert!(step.event.is_none());
    assert!(matches!(step.call, Some(RemoteCall::ListMessages { peer: 11, limit: 50 })));
    let step = c.handle_response(Response::Messages(vec![message(2, 20), message(1, 10)]));
    match step.event {
        Some(BackendEvent::MessagesLoaded(batch)) => {
            assert_eq!(batch.iter().map(|m| m.id).collect::<Vec<i32>>(), vec![1, 2]);
        }
        other => panic!("unexpected event {:?}", other),
    }
}

#[test]
fn scenario_send_failure() {
    let mut c = signed_in(vec![dialog("1", Some("one"), 11)]);
    c.handle_intent(GuiAction::SendMessage { chat_id: "1".to_string(), text: "hello".to_string() });
    let step = c.handle_response(Response::Sent(Err("peer flood".to_string())));
    assert_eq!(error_text(&step), Some("peer flood".to_string()));
    assert!(step.call.is_none());
    assert!(c.is_idle());
    assert_eq!(c.auth_state(), AuthState::Authenticated);
}

#[test]
fn send_to_unknown_chat_is_refused() {
    let mut c = signed_in(vec![dialog("1", Some("one"), 11)]);
    let step = c.handle_intent(GuiAction::SendMessage { chat_id: "9".to_string(), text: "hello".to_string() });
    assert_eq!(error_text(&step), Some(CHAT_NOT_FOUND.to_string()));
    assert!(step.call.is_none());
    assert!(c.is_idle());
}

#[test]
fn logout_clears_the_cache() {
    let mut c = signed_in(vec![dialog("1", Some("one"), 11)]);
    let step = c.handle_intent(GuiAction::Logout);
    assert!(matches!(step.call, Some(RemoteCall::SignOut)));
    let step = c.handle_response(Response::SignOut(Ok(())));
    assert!(matches!(step.event, Some(BackendEvent::LoggedOut)));
    assert_eq!(c.auth_state(), AuthState::AwaitingPhone);
    assert!(c.has_no_chats());
    assert_eq!(c.peer_of(&"1".to_string()), None);
    let step = c.handle_intent(GuiAction::Login("+1".to_string()));
    assert!(matches!(step.call, Some(RemoteCall::RequestLoginCode { .. })));
}

#[test]
fn failed_logout_changes_nothing() {
    let mut c = signed_in(vec![dialog("1", Some("one"), 11)]);
    c.handle_intent(GuiAction::Logout);
    let step = c.handle_response(Response::SignOut(Err("network".to_string())));
    assert_eq!(error_text(&step), Some("network".to_string()));
    assert_eq!(c.auth_state(), AuthState::Authenticated);
    assert_eq!(c.peer_of(&"1".to_string()), Some(11));
}

#[test]
fn back_to_chats_is_a_no_op() {
    let mut c = signed_in(vec![dialog("1", Some("one"), 11)]);
    let step = c.handle_intent(GuiAction::BackToChats);
    assert!(step.event.is_none() && step.call.is_none());
    assert_eq!(c.auth_state(), AuthState::Authenticated);
    assert!(c.is_idle());
}

#[test]
fn replay_matches_stepwise_handling() {
    let history = || {
        vec![
            Input::Intent(GuiAction::Login("early".to_string())),
            Input::Intent(GuiAction::Configure { api_id: 1, api_hash: "h".to_string() }),
            Input::Outcome(Response::Authorization(false)),
            Input::Intent(GuiAction::Login("+1".to_string())),
            Input::Outcome(Response::LoginCode(Ok(5))),
            Input::Intent(GuiAction::SendCode("1".to_string())),
            Input::Outcome(Response::SignIn(SignInOutcome::SignedIn)),
            Input::Outcome(Response::Dialogs(vec![dialog("1", None, 11)])),
            Input::Intent(GuiAction::SelectChat("1".to_string())),
        ]
    };
    let mut replayed = Coordinator::new();
    let steps = replayed.replay(history());
    assert_eq!(steps.len(), 9);
    let mut stepped = Coordinator::new();
    for input in history() {
        stepped.step(input);
    }
    assert_eq!(replayed.auth_state(), AuthState::Authenticated);
    assert_eq!(replayed.auth_state(), stepped.auth_state());
    assert_eq!(replayed.pending(), Pending::Messages);
    assert_eq!(replayed.pending(), stepped.pending());
    assert_eq!(replayed.peer_of(&"1".to_string()), stepped.peer_of(&"1".to_string()));
    assert_eq!(error_text(&steps[0]), Some(NOT_CONFIGURED.to_string()));
    assert!(matches!(steps[6].event, Some(BackendEvent::LoggedIn)));
}
