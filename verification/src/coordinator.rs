//! The coordinator: the sign-in state machine and the chat operations.
//!
//! The coordinator performs no remote call itself. Each step either answers
//! at once or names the one remote call to make; the outcome of that call is
//! handed back as a [`Response`], and the coordinator accepts no further
//! intent until it has arrived.

use vstd::prelude::*;
use crate::app::{BackendEvent, ChatInfo, GuiAction};
use crate::cache::{bindings_map, lemma_bound_is_key, ChatCache};
use crate::history::{chronological, display_name, is_history_of, kept, name_or_unknown, RawMessage};

verus! {

/// The most chats that one refresh keeps.
pub const MAX_CHATS: usize = 50;

/// The most messages that one batch holds.
pub const MAX_MESSAGES: usize = 50;

/// Reported for any intent but `Configure` before the configuration is known.
pub const NOT_CONFIGURED: &'static str = "Please configure API ID first";

/// Reported for a code that no login code request preceded.
pub const NO_LOGIN_TOKEN: &'static str = "No login token found";

/// Reported for a password where none is asked for, or after the request
/// for it was used up.
pub const NO_PASSWORD_TOKEN: &'static str = "No password token found";

/// Reported for a chat identifier that the cache does not hold.
pub const CHAT_NOT_FOUND: &'static str = "Chat not found in cache";

/// Reported for an intent that the current sign-in state has no use for.
pub const NOT_AVAILABLE: &'static str = "Action not available in the current state";

/// Reported for an intent that arrives while a remote call is outstanding.
pub const BUSY: &'static str = "Another request is still in progress";

/// Where the user stands in the sign-in handshake. The tokens are the
/// handles under which the adapter keeps the service's credentials.
#[derive(Debug, Clone, Copy, PartialEq, Eq)]
pub enum AuthState {
    Unconfigured,
    AwaitingPhone,
    AwaitingCode { login_token: u64 },
    AwaitingPassword { password_token: Option<u64> },
    Authenticated,
}

/// The remote call whose outcome the coordinator waits for.
#[derive(Debug, Clone, Copy, PartialEq, Eq)]
pub enum Pending {
    Nothing,
    Authorization,
    LoginCode,
    SignIn,
    Password,
    SignOut,
    Dialogs,
    Send { peer: u64 },
    Messages,
}

/// A remote call for the adapter to make.
#[derive(Debug)]
pub enum RemoteCall {
    CheckAuthorized { api_id: i32 },
    RequestLoginCode { phone: String, api_hash: String },
    SignIn { login_token: u64, code: String },
    CheckPassword { password_token: u64, password: String },
    SignOut,
    ListDialogs { limit: usize },
    ListMessages { peer: u64, limit: usize },
    SendMessage { peer: u64, text: String },
}

/// How a sign-in with a code ended.
#[derive(Debug)]
pub enum SignInOutcome {
    SignedIn,
    PasswordRequired(u64),
    Failed(String),
}

/// A dialog as the service lists it.
#[derive(Debug, Clone)]
pub struct DialogInfo {
    /// The peer's stable identity, as text.
    pub id: String,
    /// The peer's display name, where it has one.
    pub name: Option<String>,
    /// The handle under which the adapter keeps the peer.
    pub peer: u64,
}

/// The outcome of a remote call, one variant for each call.
#[derive(Debug)]
pub enum Response {
    /// Whether the stored session is authorized; a failed check counts as no.
    Authorization(bool),
    LoginCode(Result<u64, String>),
    SignIn(SignInOutcome),
    Password(Result<(), String>),
    SignOut(Result<(), String>),
    /// The dialogs that were listed before the listing ended or failed.
    Dialogs(Vec<DialogInfo>),
    Sent(Result<(), String>),
    /// The messages that were delivered, newest first.
    Messages(Vec<RawMessage>),
}

/// What one step of the coordinator asks of its surroundings.
#[derive(Debug)]
pub struct Step {
    /// The event to hand to the presentation layer, if any.
    pub event: Option<BackendEvent>,
    /// The remote call to make next, if any.
    pub call: Option<RemoteCall>,
}

/// What the coordinator is given: an intent of the user, or the outcome of
/// the remote call that it asked for.
#[derive(Debug)]
pub enum Input {
    Intent(GuiAction),
    Outcome(Response),
}

/// The coordinator's state as a mathematical value.
pub struct Machine {
    pub auth: AuthState,
    pub pending: Pending,
    pub chats: Map<Seq<char>, u64>,
    pub api_hash: Seq<char>,
}

/// The state before anything has happened.
pub open spec fn initial() -> Machine {
    Machine {
        auth: AuthState::Unconfigured,
        pending: Pending::Nothing,
        chats: Map::empty(),
        api_hash: Seq::empty(),
    }
}

/// The state `m` with `call` outstanding.
pub open spec fn waiting(m: Machine, call: Pending) -> Machine {
    Machine { pending: call, ..m }
}

/// The state `m` with no call outstanding and the sign-in state `auth`.
pub open spec fn settled(m: Machine, auth: AuthState) -> Machine {
    Machine { auth: auth, pending: Pending::Nothing, ..m }
}

/// The bindings that the first `limit` dialogs of a listing give.
pub open spec fn dialog_bindings(dialogs: Seq<DialogInfo>, limit: int) -> Seq<(Seq<char>, u64)> {
    Seq::new(
        kept(dialogs.len() as int, limit) as nat,
        |i: int| (dialogs[i].id@, dialogs[i].peer),
    )
}

/// Whether `chats` summarises the first `limit` dialogs of a listing, in
/// the listing's order.
pub open spec fn is_summary_of(chats: Seq<ChatInfo>, dialogs: Seq<DialogInfo>, limit: int) -> bool {
    &&& chats.len() == kept(dialogs.len() as int, limit)
    &&& forall|i: int|
        0 <= i < chats.len() ==> {
            &&& (#[trigger] chats[i]).id@ == dialogs[i].id@
            &&& chats[i].name@ == display_name(dialogs[i].name)
        }
}

/// The state after an intent.
pub open spec fn after_intent(m: Machine, intent: GuiAction) -> Machine {
    if m.pending != Pending::Nothing {
        m
    } else if m.auth == AuthState::Unconfigured {
        match intent {
            GuiAction::Configure { api_id, api_hash } => Machine {
                auth: AuthState::AwaitingPhone,
                pending: Pending::Authorization,
                chats: m.chats,
                api_hash: api_hash@,
            },
            _ => m,
        }
    } else {
        match intent {
            GuiAction::Configure { .. } => m,
            GuiAction::Login(_) => if m.auth == AuthState::AwaitingPhone {
                waiting(m, Pending::LoginCode)
            } else {
                m
            },
            GuiAction::SendCode(_) => if m.auth is AwaitingCode {
                waiting(m, Pending::SignIn)
            } else {
                m
            },
            GuiAction::SendPassword(_) => match m.auth {
                AuthState::AwaitingPassword { password_token: Some(_) } => Machine {
                    auth: AuthState::AwaitingPassword { password_token: None },
                    pending: Pending::Password,
                    ..m
                },
                _ => m,
            },
            GuiAction::RefreshChats => if m.auth == AuthState::Authenticated {
                waiting(m, Pending::Dialogs)
            } else {
                m
            },
            GuiAction::SelectChat(chat_id) => if m.chats.contains_key(chat_id@) {
                waiting(m, Pending::Messages)
            } else {
                m
            },
            GuiAction::SendMessage { chat_id, text } => if m.chats.contains_key(chat_id@) {
                waiting(m, Pending::Send { peer: m.chats[chat_id@] })
            } else {
                m
            },
            GuiAction::Logout => if m.auth == AuthState::Authenticated {
                waiting(m, Pending::SignOut)
            } else {
                m
            },
            GuiAction::BackToChats => m,
        }
    }
}

/// The state after the outcome of a remote call. An outcome of another call
/// than the outstanding one changes nothing.
pub open spec fn after_response(m: Machine, response: Response) -> Machine {
    match (m.pending, response) {
        (Pending::Authorization, Response::Authorization(authorized)) => if authorized {
            Machine { auth: AuthState::Authenticated, pending: Pending::Dialogs, ..m }
        } else {
            settled(m, m.auth)
        },
        (Pending::LoginCode, Response::LoginCode(Ok(login_token))) => settled(
            m,
            AuthState::AwaitingCode { login_token },
        ),
        (Pending::LoginCode, Response::LoginCode(Err(_))) => settled(m, m.auth),
        (Pending::SignIn, Response::SignIn(SignInOutcome::SignedIn)) => Machine {
            auth: AuthState::Authenticated,
            pending: Pending::Dialogs,
            ..m
        },
        (Pending::SignIn, Response::SignIn(SignInOutcome::PasswordRequired(password_token))) => settled(
            m,
            AuthState::AwaitingPassword { password_token: Some(password_token) },
        ),
        (Pending::SignIn, Response::SignIn(SignInOutcome::Failed(_))) => settled(m, m.auth),
        (Pending::Password, Response::Password(Ok(_))) => Machine {
            auth: AuthState::Authenticated,
            pending: Pending::Dialogs,
            ..m
        },
        (Pending::Password, Response::Password(Err(_))) => settled(m, m.auth),
        (Pending::SignOut, Response::SignOut(Ok(_))) => Machine {
            auth: AuthState::AwaitingPhone,
            pending: Pending::Nothing,
            chats: Map::empty(),
            ..m
        },
        (Pending::SignOut, Response::SignOut(Err(_))) => settled(m, m.auth),
        (Pending::Dialogs, Response::Dialogs(dialogs)) => Machine {
            pending: Pending::Nothing,
            chats: bindings_map(dialog_bindings(dialogs@, MAX_CHATS as int)),
            ..m
        },
        (Pending::Send { peer }, Response::Sent(Ok(_))) => waiting(m, Pending::Messages),
        (Pending::Send { peer }, Response::Sent(Err(_))) => settled(m, m.auth),
        (Pending::Messages, Response::Messages(_)) => settled(m, m.auth),
        _ => m,
    }
}

/// The state after one input.
pub open spec fn transition(m: Machine, input: Input) -> Machine {
    match input {
        Input::Intent(intent) => after_intent(m, intent),
        Input::Outcome(response) => after_response(m, response),
    }
}

/// The state after a history of inputs, first input first.
pub open spec fn replay(m: Machine, inputs: Seq<Input>) -> Machine
    decreases inputs.len(),
{
    if inputs.len() == 0 {
        m
    } else {
        transition(replay(m, inputs.drop_last()), inputs.last())
    }
}

/// Whether the step asks for nothing.
pub open spec fn is_quiet(step: Step) -> bool {
    step.event is None && step.call is None
}

/// Whether the step reports the error `text` and asks for no call.
pub open spec fn reports(step: Step, text: Seq<char>) -> bool {
    &&& step.call is None
    &&& step.event matches Some(BackendEvent::Error(message)) && message@ == text
}

/// Whether the step announces a completed sign-in and asks for the chat
/// list.
pub open spec fn announces_login(step: Step) -> bool {
    &&& step.event matches Some(BackendEvent::LoggedIn)
    &&& step.call matches Some(RemoteCall::ListDialogs { limit }) && limit == MAX_CHATS
}

/// Whether the step asks for the latest messages of `peer` and emits nothing.
pub open spec fn asks_for_messages(step: Step, peer: u64) -> bool {
    &&& step.event is None
    &&& step.call matches Some(RemoteCall::ListMessages { peer: asked, limit }) && asked == peer
        && limit == MAX_MESSAGES
}

/// Whether `step` is the answer to `intent` in state `m`.
pub open spec fn answers_intent(m: Machine, intent: GuiAction, step: Step) -> bool {
    if m.pending != Pending::Nothing {
        reports(step, BUSY@)
    } else if m.auth == AuthState::Unconfigured {
        match intent {
            GuiAction::Configure { api_id, api_hash } => {
                &&& step.event matches Some(BackendEvent::Configured)
                &&& step.call matches Some(RemoteCall::CheckAuthorized { api_id: asked })
                    && asked == api_id
            },
            _ => reports(step, NOT_CONFIGURED@),
        }
    } else {
        match intent {
            GuiAction::Configure { .. } => reports(step, NOT_AVAILABLE@),
            GuiAction::Login(phone) => if m.auth == AuthState::AwaitingPhone {
                &&& step.event is None
                &&& step.call matches Some(RemoteCall::RequestLoginCode { phone: asked, api_hash })
                    && asked@ == phone@ && api_hash@ == m.api_hash
            } else {
                reports(step, NOT_AVAILABLE@)
            },
            GuiAction::SendCode(code) => match m.auth {
                AuthState::AwaitingCode { login_token } => {
                    &&& step.event is None
                    &&& step.call matches Some(RemoteCall::SignIn { login_token: token, code: asked })
                        && token == login_token && asked@ == code@
                },
                _ => reports(step, NO_LOGIN_TOKEN@),
            },
            GuiAction::SendPassword(password) => match m.auth {
                AuthState::AwaitingPassword { password_token: Some(password_token) } => {
                    &&& step.event is None
                    &&& step.call matches Some(
                        RemoteCall::CheckPassword { password_token: token, password: asked },
                    ) && token == password_token && asked@ == password@
                },
                _ => reports(step, NO_PASSWORD_TOKEN@),
            },
            GuiAction::RefreshChats => if m.auth == AuthState::Authenticated {
                &&& step.event is None
                &&& step.call matches Some(RemoteCall::ListDialogs { limit }) && limit == MAX_CHATS
            } else {
                reports(step, NOT_AVAILABLE@)
            },
            GuiAction::SelectChat(chat_id) => if m.chats.contains_key(chat_id@) {
                asks_for_messages(step, m.chats[chat_id@])
            } else {
                reports(step, CHAT_NOT_FOUND@)
            },
            GuiAction::SendMessage { chat_id, text } => if m.chats.contains_key(chat_id@) {
                &&& step.event is None
                &&& step.call matches Some(RemoteCall::SendMessage { peer, text: asked })
                    && peer == m.chats[chat_id@] && asked@ == text@
            } else {
                reports(step, CHAT_NOT_FOUND@)
            },
            GuiAction::Logout => if m.auth == AuthState::Authenticated {
                &&& step.event is None
                &&& step.call matches Some(RemoteCall::SignOut)
            } else {
                reports(step, NOT_AVAILABLE@)
            },
            GuiAction::BackToChats => is_quiet(step),
        }
    }
}

/// Whether `step` is the answer to `response` in state `m`.
pub open spec fn answers_response(m: Machine, response: Response, step: Step) -> bool {
    match (m.pending, response) {
        (Pending::Authorization, Response::Authorization(authorized)) => if authorized {
            announces_login(step)
        } else {
            is_quiet(step)
        },
        (Pending::LoginCode, Response::LoginCode(Ok(_))) => {
            &&& step.event matches Some(BackendEvent::CodeSent)
            &&& step.call is None
        },
        (Pending::LoginCode, Response::LoginCode(Err(failure))) => reports(step, failure@),
        (Pending::SignIn, Response::SignIn(SignInOutcome::SignedIn)) => announces_login(step),
        (Pending::SignIn, Response::SignIn(SignInOutcome::PasswordRequired(_))) => {
            &&& step.event matches Some(BackendEvent::PasswordRequired)
            &&& step.call is None
        },
        (Pending::SignIn, Response::SignIn(SignInOutcome::Failed(failure))) => reports(
            step,
            failure@,
        ),
        (Pending::Password, Response::Password(Ok(_))) => announces_login(step),
        (Pending::Password, Response::Password(Err(failure))) => reports(step, failure@),
        (Pending::SignOut, Response::SignOut(Ok(_))) => {
            &&& step.event matches Some(BackendEvent::LoggedOut)
            &&& step.call is None
        },
        (Pending::SignOut, Response::SignOut(Err(failure))) => reports(step, failure@),
        (Pending::Dialogs, Response::Dialogs(dialogs)) => {
            &&& step.call is None
            &&& step.event matches Some(BackendEvent::ChatsLoaded(chats)) && is_summary_of(
                chats@,
                dialogs@,
                MAX_CHATS as int,
            )
        },
        (Pending::Send { peer }, Response::Sent(Ok(_))) => asks_for_messages(step, peer),
        (Pending::Send { peer }, Response::Sent(Err(failure))) => reports(step, failure@),
        (Pending::Messages, Response::Messages(raw)) => {
            &&& step.call is None
            &&& step.event matches Some(BackendEvent::MessagesLoaded(batch)) && is_history_of(
                batch@,
                raw@,
                MAX_MESSAGES as int,
            )
        },
        _ => is_quiet(step),
    }
}

/// Whether `step` is the answer to `input` in state `m`.
pub open spec fn answers(m: Machine, input: Input, step: Step) -> bool {
    match input {
        Input::Intent(intent) => answers_intent(m, intent, step),
        Input::Outcome(response) => answers_response(m, response, step),
    }
}

/// A step that reports an error.
fn refusal(text: &str) -> (step: Step)
    ensures
        reports(step, text@),
{
    Step { event: Some(BackendEvent::Error(text.to_string())), call: None }
}

/// A step that reports a failure of the service in the service's words.
fn failure(message: String) -> (step: Step)
    ensures
        reports(step, message@),
{
    Step { event: Some(BackendEvent::Error(message)), call: None }
}

/// A step that emits one event.
fn emit(event: BackendEvent) -> (step: Step)
    ensures
        step.event == Some(event),
        step.call is None,
{
    Step { event: Some(event), call: None }
}

/// A step that asks for one remote call.
fn ask(call: RemoteCall) -> (step: Step)
    ensures
        step.event is None,
        step.call == Some(call),
{
    Step { event: None, call: Some(call) }
}

/// A step that asks for nothing.
fn quiet() -> (step: Step)
    ensures
        is_quiet(step),
{
    Step { event: None, call: None }
}

/// Replaces what `cache` holds by the first dialogs of a listing, and
/// returns their summaries in the listing's order.
pub fn rebuild(cache: &mut ChatCache, dialogs: &Vec<DialogInfo>) -> (chats: Vec<ChatInfo>)
    ensures
        final(cache)@ == bindings_map(dialog_bindings(dialogs@, MAX_CHATS as int)),
        is_summary_of(chats@, dialogs@, MAX_CHATS as int),
{
    cache.clear();
    let mut chats: Vec<ChatInfo> = Vec::new();
    let mut i: usize = 0;
    proof {
        assert(dialog_bindings(dialogs@, 0) =~= Seq::empty());
    }
    while i < dialogs.len() && i < MAX_CHATS
        invariant
            i <= dialogs@.len(),
            i <= MAX_CHATS,
            cache@ == bindings_map(dialog_bindings(dialogs@, i as int)),
            chats@.len() == i,
            forall|k: int|
                0 <= k < i ==> {
                    &&& (#[trigger] chats@[k]).id@ == dialogs@[k].id@
                    &&& chats@[k].name@ == display_name(dialogs@[k].name)
                },
        decreases dialogs@.len() - i,
    {
        let dialog = &dialogs[i];
        proof {
            let next = dialog_bindings(dialogs@, i + 1);
            assert(next.drop_last() =~= dialog_bindings(dialogs@, i as int));
            assert(next.last() == (dialog.id@, dialog.peer));
        }
        cache.insert(dialog.id.clone(), dialog.peer);
        chats.push(ChatInfo { name: name_or_unknown(&dialog.name), id: dialog.id.clone() });
        i = i + 1;
    }
    proof {
        assert(dialog_bindings(dialogs@, i as int) =~= dialog_bindings(dialogs@, MAX_CHATS as int));
    }
    chats
}

/// The session and action coordinator.
pub struct Coordinator {
    auth: AuthState,
    pending: Pending,
    api_hash: String,
    chats: ChatCache,
}

impl View for Coordinator {
    type V = Machine;

    closed spec fn view(&self) -> Machine {
        Machine {
            auth: self.auth,
            pending: self.pending,
            chats: self.chats@,
            api_hash: self.api_hash@,
        }
    }
}

impl Coordinator {
    /// A coordinator that knows no configuration yet.
    pub fn new() -> (coordinator: Coordinator)
        ensures
            coordinator@ == initial(),
    {
        Coordinator {
            auth: AuthState::Unconfigured,
            pending: Pending::Nothing,
            api_hash: String::new(),
            chats: ChatCache::new(),
        }
    }

    /// The sign-in state.
    pub fn auth_state(&self) -> (auth: AuthState)
        ensures
            auth == self@.auth,
    {
        self.auth
    }

    /// The remote call whose outcome is awaited.
    pub fn pending(&self) -> (pending: Pending)
        ensures
            pending == self@.pending,
    {
        self.pending
    }

    /// Whether no remote call is outstanding.
    pub fn is_idle(&self) -> (idle: bool)
        ensures
            idle == (self@.pending == Pending::Nothing),
    {
        match self.pending {
            Pending::Nothing => true,
            _ => false,
        }
    }

    /// The peer that the cache holds for `chat_id`, if any.
    pub fn peer_of(&self, chat_id: &String) -> (peer: Option<u64>)
        ensures
            peer == (if self@.chats.contains_key(chat_id@) {
                Some(self@.chats[chat_id@])
            } else {
                None
            }),
    {
        self.chats.lookup(chat_id)
    }

    /// Whether the cache holds no chat.
    pub fn has_no_chats(&self) -> (none: bool)
        ensures
            none == (self@.chats == Map::<Seq<char>, u64>::empty()),
    {
        self.chats.is_empty()
    }

    /// Handles one intent of the user.
    pub fn handle_intent(&mut self, intent: GuiAction) -> (step: Step)
        ensures
            final(self)@ == after_intent(old(self)@, intent),
            answers_intent(old(self)@, intent, step),
    {
        if !self.is_idle() {
            return refusal(BUSY);
        }
        if let AuthState::Unconfigured = self.auth {
            return match intent {
                GuiAction::Configure { api_id, api_hash } => {
                    self.api_hash = api_hash;
                    self.auth = AuthState::AwaitingPhone;
                    self.pending = Pending::Authorization;
                    Step {
                        event: Some(BackendEvent::Configured),
                        call: Some(RemoteCall::CheckAuthorized { api_id }),
                    }
                },
                _ => refusal(NOT_CONFIGURED),
            };
        }
        match intent {
            GuiAction::Configure { .. } => refusal(NOT_AVAILABLE),
            GuiAction::Login(phone) => match self.auth {
                AuthState::AwaitingPhone => {
                    self.pending = Pending::LoginCode;
                    ask(RemoteCall::RequestLoginCode { phone, api_hash: self.api_hash.clone() })
                },
                _ => refusal(NOT_AVAILABLE),
            },
            GuiAction::SendCode(code) => match self.auth {
                AuthState::AwaitingCode { login_token } => {
                    self.pending = Pending::SignIn;
                    ask(RemoteCall::SignIn { login_token, code })
                },
                _ => refusal(NO_LOGIN_TOKEN),
            },
            GuiAction::SendPassword(password) => match self.auth {
                AuthState::AwaitingPassword { password_token: Some(password_token) } => {
                    self.auth = AuthState::AwaitingPassword { password_token: None };
                    self.pending = Pending::Password;
                    ask(RemoteCall::CheckPassword { password_token, password })
                },
                _ => refusal(NO_PASSWORD_TOKEN),
            },
            GuiAction::RefreshChats => match self.auth {
                AuthState::Authenticated => {
                    self.pending = Pending::Dialogs;
                    ask(RemoteCall::ListDialogs { limit: MAX_CHATS })
                },
                _ => refusal(NOT_AVAILABLE),
            },
            GuiAction::SelectChat(chat_id) => match self.chats.lookup(&chat_id) {
                Some(peer) => {
                    self.pending = Pending::Messages;
                    ask(RemoteCall::ListMessages { peer, limit: MAX_MESSAGES })
                },
                None => refusal(CHAT_NOT_FOUND),
            },
            GuiAction::SendMessage { chat_id, text } => match self.chats.lookup(&chat_id) {
                Some(peer) => {
                    self.pending = Pending::Send { peer };
                    ask(RemoteCall::SendMessage { peer, text })
                },
                None => refusal(CHAT_NOT_FOUND),
            },
            GuiAction::Logout => match self.auth {
                AuthState::Authenticated => {
                    self.pending = Pending::SignOut;
                    ask(RemoteCall::SignOut)
                },
                _ => refusal(NOT_AVAILABLE),
            },
            GuiAction::BackToChats => quiet(),
        }
    }

    /// Enters the signed-in state and asks for the chat list.
    fn enter_authenticated(&mut self) -> (step: Step)
        ensures
            final(self)@ == (Machine {
                auth: AuthState::Authenticated,
                pending: Pending::Dialogs,
                ..old(self)@
            }),
            announces_login(step),
    {
        self.auth = AuthState::Authenticated;
        self.pending = Pending::Dialogs;
        Step {
            event: Some(BackendEvent::LoggedIn),
            call: Some(RemoteCall::ListDialogs { limit: MAX_CHATS }),
        }
    }

    /// Handles the outcome of the remote call that the last step asked for.
    pub fn handle_response(&mut self, response: Response) -> (step: Step)
        ensures
            final(self)@ == after_response(old(self)@, response),
            answers_response(old(self)@, response, step),
    {
        match (self.pending, response) {
            (Pending::Authorization, Response::Authorization(authorized)) => {
                if authorized {
                    self.enter_authenticated()
                } else {
                    self.pending = Pending::Nothing;
                    quiet()
                }
            },
            (Pending::LoginCode, Response::LoginCode(Ok(login_token))) => {
                self.auth = AuthState::AwaitingCode { login_token };
                self.pending = Pending::Nothing;
                emit(BackendEvent::CodeSent)
            },
            (Pending::LoginCode, Response::LoginCode(Err(message))) => {
                self.pending = Pending::Nothing;
                failure(message)
            },
            (Pending::SignIn, Response::SignIn(SignInOutcome::SignedIn)) => {
                self.enter_authenticated()
            },
            (Pending::SignIn, Response::SignIn(SignInOutcome::PasswordRequired(password_token))) => {
                self.auth = AuthState::AwaitingPassword { password_token: Some(password_token) };
                self.pending = Pending::Nothing;
                emit(BackendEvent::PasswordRequired)
            },
            (Pending::SignIn, Response::SignIn(SignInOutcome::Failed(message))) => {
                self.pending = Pending::Nothing;
                failure(message)
            },
            (Pending::Password, Response::Password(Ok(_))) => { self.enter_authenticated() },
            (Pending::Password, Response::Password(Err(message))) => {
                self.pending = Pending::Nothing;
                failure(message)
            },
            (Pending::SignOut, Response::SignOut(Ok(_))) => {
                self.auth = AuthState::AwaitingPhone;
                self.pending = Pending::Nothing;
                self.chats.clear();
                emit(BackendEvent::LoggedOut)
            },
            (Pending::SignOut, Response::SignOut(Err(message))) => {
                self.pending = Pending::Nothing;
                failure(message)
            },
            (Pending::Dialogs, Response::Dialogs(dialogs)) => {
                self.pending = Pending::Nothing;
                let chats = rebuild(&mut self.chats, &dialogs);
                emit(BackendEvent::ChatsLoaded(chats))
            },
            (Pending::Send { peer }, Response::Sent(Ok(_))) => {
                self.pending = Pending::Messages;
                ask(RemoteCall::ListMessages { peer, limit: MAX_MESSAGES })
            },
            (Pending::Send { peer }, Response::Sent(Err(message))) => {
                self.pending = Pending::Nothing;
                failure(message)
            },
            (Pending::Messages, Response::Messages(raw)) => {
                self.pending = Pending::Nothing;
                let batch = chronological(&raw, MAX_MESSAGES);
                emit(BackendEvent::MessagesLoaded(batch))
            },
            _ => quiet(),
        }
    }

    /// Handles one input, whichever kind it is.
    pub fn step(&mut self, input: Input) -> (step: Step)
        ensures
            final(self)@ == transition(old(self)@, input),
            answers(old(self)@, input, step),
    {
        match input {
            Input::Intent(intent) => self.handle_intent(intent),
            Input::Outcome(response) => self.handle_response(response),
        }
    }

    /// Handles a recorded history of inputs, first input first, and returns
    /// the step that answered each.
    pub fn replay(&mut self, inputs: Vec<Input>) -> (steps: Vec<Step>)
        ensures
            final(self)@ == replay(old(self)@, inputs@),
            steps@.len() == inputs@.len(),
            forall|i: int|
                0 <= i < inputs@.len() ==> answers(
                    replay(old(self)@, inputs@.take(i)),
                    inputs@[i],
                    #[trigger] steps@[i],
                ),
    {
        let mut rest = inputs;
        let mut steps: Vec<Step> = Vec::new();
        let ghost mut done: Seq<Input> = Seq::empty();
        while rest.len() > 0
            invariant
                done + rest@ == inputs@,
                self@ == replay(old(self)@, done),
                steps@.len() == done.len(),
                forall|i: int|
                    0 <= i < done.len() ==> answers(
                        replay(old(self)@, done.take(i)),
                        done[i],
                        #[trigger] steps@[i],
                    ),
            decreases rest@.len(),
        {
            let ghost before = rest@;
            let ghost earlier = done;
            let input = rest.remove(0);
            let step = self.step(input);
            steps.push(step);
            proof {
                done = earlier.push(input);
                assert(done.drop_last() =~= earlier);
                assert(done.last() == input);
                assert(done + rest@ =~= earlier + before);
                assert(done.take(earlier.len() as int) =~= earlier);
                assert forall|i: int| 0 <= i < done.len() implies answers(
                    replay(old(self)@, done.take(i)),
                    done[i],
                    #[trigger] steps@[i],
                ) by {
                    if i < earlier.len() {
                        assert(done.take(i) =~= earlier.take(i));
                    }
                }
            }
        }
        proof {
            assert(done =~= inputs@);
        }
        steps
    }
}

/// The state that a refresh of the chat list leaves, when it is asked for
/// in state `m` and the service lists `dialogs`.
pub open spec fn refreshed(m: Machine, dialogs: Vec<DialogInfo>) -> Machine {
    after_response(after_intent(m, GuiAction::RefreshChats), Response::Dialogs(dialogs))
}

/// Replaying two histories one after the other is replaying their
/// concatenation: the state depends on the initial state and the history
/// alone.
pub proof fn lemma_replay_concat(m: Machine, first: Seq<Input>, second: Seq<Input>)
    ensures
        replay(m, first + second) == replay(replay(m, first), second),
    decreases second.len(),
{
    if second.len() == 0 {
        assert(first + second =~= first);
    } else {
        assert((first + second).drop_last() =~= first + second.drop_last());
        assert((first + second).last() == second.last());
        lemma_replay_concat(m, first, second.drop_last());
    }
}

/// Selecting a chat that the cache does not hold is answered by exactly one
/// error and no remote call, and leaves the whole state as it was.
pub proof fn lemma_unknown_chat_is_refused(m: Machine, chat_id: String, step: Step)
    requires
        !m.chats.contains_key(chat_id@),
        answers_intent(m, GuiAction::SelectChat(chat_id), step),
    ensures
        after_intent(m, GuiAction::SelectChat(chat_id)) == m,
        step.event matches Some(BackendEvent::Error(_)),
        step.call is None,
{
}

/// After a refresh in the signed-in state, every chat of the emitted list
/// can be selected: the cache holds its identifier, and the selection asks
/// for that chat's messages instead of reporting an error.
pub proof fn lemma_listed_chat_is_selectable(
    m: Machine,
    dialogs: Vec<DialogInfo>,
    chats: Seq<ChatInfo>,
    i: int,
    step: Step,
)
    requires
        m.auth == AuthState::Authenticated,
        m.pending == Pending::Nothing,
        is_summary_of(chats, dialogs@, MAX_CHATS as int),
        0 <= i < chats.len(),
        answers_intent(refreshed(m, dialogs), GuiAction::SelectChat(chats[i].id), step),
    ensures
        refreshed(m, dialogs).chats.contains_key(chats[i].id@),
        after_intent(refreshed(m, dialogs), GuiAction::SelectChat(chats[i].id)).pending
            == Pending::Messages,
        asks_for_messages(step, refreshed(m, dialogs).chats[chats[i].id@]),
{
    let bindings = dialog_bindings(dialogs@, MAX_CHATS as int);
    assert(bindings[i].0 == chats[i].id@);
    lemma_bound_is_key(bindings, i);
}

/// When the service answers a code with a request for the password, the
/// state awaits the password, and the login token is spent: a second code
/// is refused without a remote call and changes nothing.
pub proof fn lemma_login_token_is_single_use(
    m: Machine,
    password_token: u64,
    code: String,
    step: Step,
)
    requires
        m.pending == Pending::SignIn,
        answers_intent(
            after_response(m, Response::SignIn(SignInOutcome::PasswordRequired(password_token))),
            GuiAction::SendCode(code),
            step,
        ),
    ensures
        ({
            let next = after_response(
                m,
                Response::SignIn(SignInOutcome::PasswordRequired(password_token)),
            );
            &&& next.auth == AuthState::AwaitingPassword { password_token: Some(password_token) }
            &&& after_intent(next, GuiAction::SendCode(code)) == next
            &&& reports(step, NO_LOGIN_TOKEN@)
        }),
{
}

/// A failed send is answered by exactly one error: no messages are asked
/// for, and none are emitted.
pub proof fn lemma_failed_send_is_not_refetched(m: Machine, peer: u64, message: String, step: Step)
    requires
        m.pending == (Pending::Send { peer }),
        answers_response(m, Response::Sent(Err(message)), step),
    ensures
        reports(step, message@),
        after_response(m, Response::Sent(Err(message))).pending == Pending::Nothing,
{
}


} // verus!
