//! The vocabulary shared by the presentation layer and the coordinator, and
//! the presentation layer's own state.

use vstd::prelude::*;
use vstd::string::StringExecFns;

verus! {

/// The screen that the presentation layer shows.
#[derive(Debug, Clone, Copy, PartialEq, Eq, Structural)]
pub enum GuiState {
    Configuration,
    LoginPhone,
    LoginCode,
    LoginPassword,
    LoggedIn,
}

/// A request of the user, sent to the coordinator.
#[derive(Debug)]
pub enum GuiAction {
    Configure { api_id: i32, api_hash: String },
    Login(String),
    SendCode(String),
    SendPassword(String),
    RefreshChats,
    SelectChat(String),
    SendMessage { chat_id: String, text: String },
    Logout,
    BackToChats,
}

/// A chat as the chat list shows it.
#[derive(Debug, Clone)]
pub struct ChatInfo {
    pub name: String,
    pub id: String,
}

/// A message as a chat's history shows it.
#[derive(Debug, Clone)]
pub struct MessageInfo {
    pub id: i32,
    pub text: String,
    pub sender: String,
    pub date: String,
}

/// A notification of the coordinator, sent to the presentation layer.
#[derive(Debug)]
pub enum BackendEvent {
    Configured,
    CodeSent,
    PasswordRequired,
    LoggedIn,
    ChatsLoaded(Vec<ChatInfo>),
    MessagesLoaded(Vec<MessageInfo>),
    LoggedOut,
    Error(String),
}

/// Shown before anything was entered.
pub const STATUS_WELCOME: &'static str = "Please enter API ID and Hash";

pub const STATUS_CONFIGURED: &'static str = "Configuration set. Enter phone number.";

pub const STATUS_CODE_SENT: &'static str = "Code sent! Check Telegram.";

pub const STATUS_PASSWORD_REQUIRED: &'static str = "2FA Password Required.";

pub const STATUS_LOGGED_IN: &'static str = "Logged in successfully!";

pub const STATUS_CHATS_LOADED: &'static str = "Chats loaded.";

pub const STATUS_MESSAGES_LOADED: &'static str = "Messages loaded.";

pub const STATUS_LOGGED_OUT: &'static str = "Logged out.";

/// Stands before the message of an error that the coordinator reported.
pub const STATUS_ERROR_PREFIX: &'static str = "Error: ";

pub const STATUS_SAVING: &'static str = "Saving configuration...";

pub const STATUS_INVALID_API_ID: &'static str = "Invalid API ID (must be a number)";

pub const STATUS_SENDING_CODE: &'static str = "Sending code...";

pub const STATUS_VERIFYING_CODE: &'static str = "Verifying code...";

pub const STATUS_VERIFYING_PASSWORD: &'static str = "Verifying password...";

pub const STATUS_SENDING_MESSAGE: &'static str = "Sending message...";

/// Stands before the name of the chat whose messages are being loaded.
pub const STATUS_LOADING_PREFIX: &'static str = "Loading messages for ";

/// Stands behind the name of the chat whose messages are being loaded.
pub const STATUS_LOADING_SUFFIX: &'static str = "...";

/// The number that a run of decimal digits writes.
pub open spec fn digits_value(digits: Seq<char>) -> int
    decreases digits.len(),
{
    if digits.len() == 0 {
        0
    } else {
        10 * digits_value(digits.drop_last()) + (digits.last() as int - '0' as int)
    }
}

/// Whether the character is one of the digits `0` to `9`.
pub open spec fn is_digit(c: char) -> bool {
    '0' as int <= c as int <= '9' as int
}

/// Whether the text is one or more of the digits `0` to `9`.
pub open spec fn is_digits(digits: Seq<char>) -> bool {
    &&& digits.len() > 0
    &&& forall|i: int| 0 <= i < digits.len() ==> is_digit(#[trigger] digits[i])
}

/// The number that a text writes in decimal: an optional `+` or `-`, then
/// digits and nothing else, with a value that an `i32` holds. No other
/// text writes a number.
pub open spec fn decimal_i32(text: Seq<char>) -> Option<i32> {
    let signed = text.len() > 0 && (text[0] == '-' || text[0] == '+');
    let digits = if signed {
        text.skip(1)
    } else {
        text
    };
    let value = if signed && text[0] == '-' {
        -digits_value(digits)
    } else {
        digits_value(digits)
    };
    if is_digits(digits) && i32::MIN <= value <= i32::MAX {
        Some(value as i32)
    } else {
        None
    }
}

/// Calls `str::parse::<i32>` on `text`. The contract claims what the
/// standard library documents of it: the text is read as an optional sign
/// followed by decimal digits only, and an empty text, any other character
/// or a value outside `i32` is an error, which becomes `None`.
#[verifier::external_body]
fn parse_i32(text: &str) -> (parsed: Option<i32>)
    ensures
        parsed == decimal_i32(text@),
{
    match text.parse::<i32>() {
        Ok(number) => Some(number),
        Err(_) => None,
    }
}

/// A copy of a chat summary.
fn copy_of(chat: &ChatInfo) -> (copy: ChatInfo)
    ensures
        copy == *chat,
{
    ChatInfo { name: chat.name.clone(), id: chat.id.clone() }
}

/// The state of the presentation layer: the screen, what the user has
/// typed, and what the coordinator has reported.
pub struct TelegramApp {
    pub state: GuiState,
    pub api_id_input: String,
    pub api_hash_input: String,
    pub phone: String,
    pub code: String,
    pub password: String,
    pub chats: Vec<ChatInfo>,
    pub messages: Vec<MessageInfo>,
    pub selected_chat: Option<ChatInfo>,
    pub message_input: String,
    pub status_message: String,
}

impl TelegramApp {
    /// Whether `self` and `other` hold the same typed texts, but for the
    /// message being written.
    pub open spec fn same_credentials(self, other: TelegramApp) -> bool {
        &&& self.api_id_input == other.api_id_input
        &&& self.api_hash_input == other.api_hash_input
        &&& self.phone == other.phone
        &&& self.code == other.code
        &&& self.password == other.password
    }

    /// Whether `self` and `other` show the same chats, messages and
    /// selection.
    pub open spec fn same_lists(self, other: TelegramApp) -> bool {
        &&& self.chats == other.chats
        &&& self.messages == other.messages
        &&& self.selected_chat == other.selected_chat
    }

    /// Whether `self` is `before` with another status line and nothing else
    /// changed.
    pub open spec fn only_status_changed(self, before: TelegramApp, status: Seq<char>) -> bool {
        &&& self.state == before.state
        &&& self.same_credentials(before)
        &&& self.same_lists(before)
        &&& self.message_input == before.message_input
        &&& self.status_message@ == status
    }

    /// Whether `self` is what `before` becomes when `event` arrives: the
    /// screen and status line follow the event, lists are replaced by the
    /// ones it carries, and signing out empties them.
    pub open spec fn is_reaction(self, before: TelegramApp, event: BackendEvent) -> bool {
        &&& self.same_credentials(before)
        &&& self.message_input == before.message_input
        &&& match event {
            BackendEvent::Configured => {
                &&& self.state == GuiState::LoginPhone
                &&& self.status_message@ == STATUS_CONFIGURED@
                &&& self.same_lists(before)
            },
            BackendEvent::CodeSent => {
                &&& self.state == GuiState::LoginCode
                &&& self.status_message@ == STATUS_CODE_SENT@
                &&& self.same_lists(before)
            },
            BackendEvent::PasswordRequired => {
                &&& self.state == GuiState::LoginPassword
                &&& self.status_message@ == STATUS_PASSWORD_REQUIRED@
                &&& self.same_lists(before)
            },
            BackendEvent::LoggedIn => {
                &&& self.state == GuiState::LoggedIn
                &&& self.status_message@ == STATUS_LOGGED_IN@
                &&& self.same_lists(before)
            },
            BackendEvent::ChatsLoaded(chats) => {
                &&& self.state == before.state
                &&& self.status_message@ == STATUS_CHATS_LOADED@
                &&& self.chats == chats
                &&& self.messages == before.messages
                &&& self.selected_chat == before.selected_chat
            },
            BackendEvent::MessagesLoaded(messages) => {
                &&& self.state == before.state
                &&& self.status_message@ == STATUS_MESSAGES_LOADED@
                &&& self.chats == before.chats
                &&& self.messages == messages
                &&& self.selected_chat == before.selected_chat
            },
            BackendEvent::LoggedOut => {
                &&& self.state == GuiState::LoginPhone
                &&& self.status_message@ == STATUS_LOGGED_OUT@
                &&& self.chats@.len() == 0
                &&& self.messages@.len() == 0
                &&& self.selected_chat is None
            },
            BackendEvent::Error(message) => {
                &&& self.state == before.state
                &&& self.status_message@ == STATUS_ERROR_PREFIX@ + message@
                &&& self.same_lists(before)
            },
        }
    }

    /// The state at start: the configuration screen with empty inputs.
    pub fn new() -> (app: TelegramApp)
        ensures
            app.state == GuiState::Configuration,
            app.api_id_input@.len() == 0,
            app.api_hash_input@.len() == 0,
            app.phone@.len() == 0,
            app.code@.len() == 0,
            app.password@.len() == 0,
            app.chats@.len() == 0,
            app.messages@.len() == 0,
            app.selected_chat is None,
            app.message_input@.len() == 0,
            app.status_message@ == STATUS_WELCOME@,
    {
        TelegramApp {
            state: GuiState::Configuration,
            api_id_input: String::new(),
            api_hash_input: String::new(),
            phone: String::new(),
            code: String::new(),
            password: String::new(),
            chats: Vec::new(),
            messages: Vec::new(),
            selected_chat: None,
            message_input: String::new(),
            status_message: STATUS_WELCOME.to_string(),
        }
    }

    /// Takes in one event of the coordinator. Returns the intent to send in
    /// answer: a refresh of the chat list once the user is signed in,
    /// nothing otherwise.
    pub fn handle_backend_event(&mut self, event: BackendEvent) -> (answer: Option<GuiAction>)
        ensures
            final(self).is_reaction(*old(self), event),
            match event {
                BackendEvent::LoggedIn => answer matches Some(GuiAction::RefreshChats),
                _ => answer is None,
            },
    {
        match event {
            BackendEvent::Configured => {
                self.state = GuiState::LoginPhone;
                self.status_message = STATUS_CONFIGURED.to_string();
                None
            },
            BackendEvent::CodeSent => {
                self.state = GuiState::LoginCode;
                self.status_message = STATUS_CODE_SENT.to_string();
                None
            },
            BackendEvent::PasswordRequired => {
                self.state = GuiState::LoginPassword;
                self.status_message = STATUS_PASSWORD_REQUIRED.to_string();
                None
            },
            BackendEvent::LoggedIn => {
                self.state = GuiState::LoggedIn;
                self.status_message = STATUS_LOGGED_IN.to_string();
                Some(GuiAction::RefreshChats)
            },
            BackendEvent::ChatsLoaded(chats) => {
                self.chats = chats;
                self.status_message = STATUS_CHATS_LOADED.to_string();
                None
            },
            BackendEvent::MessagesLoaded(messages) => {
                self.messages = messages;
                self.status_message = STATUS_MESSAGES_LOADED.to_string();
                None
            },
            BackendEvent::LoggedOut => {
                self.state = GuiState::LoginPhone;
                self.chats.clear();
                self.messages.clear();
                self.selected_chat = None;
                self.status_message = STATUS_LOGGED_OUT.to_string();
                None
            },
            BackendEvent::Error(message) => {
                let mut status = STATUS_ERROR_PREFIX.to_string();
                status.append(message.as_str());
                self.status_message = status;
                None
            },
        }
    }

    /// Decides what saving the configuration does, given what reading the
    /// API ID as a number gave: with a number, the intent to configure with
    /// it and the typed hash; without one, a complaint in the status line.
    pub fn configuration_intent(&mut self, api_id: Option<i32>) -> (intent: Option<GuiAction>)
        ensures
            match api_id {
                Some(number) => {
                    &&& final(self).only_status_changed(*old(self), STATUS_SAVING@)
                    &&& intent matches Some(GuiAction::Configure { api_id: asked, api_hash })
                        && asked == number && api_hash@ == old(self).api_hash_input@
                },
                None => {
                    &&& final(self).only_status_changed(*old(self), STATUS_INVALID_API_ID@)
                    &&& intent is None
                },
            },
    {
        match api_id {
            Some(number) => {
                self.status_message = STATUS_SAVING.to_string();
                Some(GuiAction::Configure { api_id: number, api_hash: self.api_hash_input.clone() })
            },
            None => {
                self.status_message = STATUS_INVALID_API_ID.to_string();
                None
            },
        }
    }

    /// The user saves the configuration: the typed API ID is read as a
    /// number, and the rest is decided by `configuration_intent`.
    pub fn save_configuration(&mut self) -> (intent: Option<GuiAction>)
        ensures
            match decimal_i32(old(self).api_id_input@) {
                Some(number) => {
                    &&& final(self).only_status_changed(*old(self), STATUS_SAVING@)
                    &&& intent matches Some(GuiAction::Configure { api_id: asked, api_hash })
                        && asked == number && api_hash@ == old(self).api_hash_input@
                },
                None => {
                    &&& final(self).only_status_changed(*old(self), STATUS_INVALID_API_ID@)
                    &&& intent is None
                },
            },
    {
        let parsed = parse_i32(self.api_id_input.as_str());
        self.configuration_intent(parsed)
    }

    /// The user asks for a login code for the typed phone number.
    pub fn request_code(&mut self) -> (intent: GuiAction)
        ensures
            final(self).only_status_changed(*old(self), STATUS_SENDING_CODE@),
            intent matches GuiAction::Login(phone) && phone@ == old(self).phone@,
    {
        self.status_message = STATUS_SENDING_CODE.to_string();
        GuiAction::Login(self.phone.clone())
    }

    /// The user submits the typed login code.
    pub fn submit_code(&mut self) -> (intent: GuiAction)
        ensures
            final(self).only_status_changed(*old(self), STATUS_VERIFYING_CODE@),
            intent matches GuiAction::SendCode(code) && code@ == old(self).code@,
    {
        self.status_message = STATUS_VERIFYING_CODE.to_string();
        GuiAction::SendCode(self.code.clone())
    }

    /// The user submits the typed password.
    pub fn submit_password(&mut self) -> (intent: GuiAction)
        ensures
            final(self).only_status_changed(*old(self), STATUS_VERIFYING_PASSWORD@),
            intent matches GuiAction::SendPassword(password) && password@ == old(self).password@,
    {
        self.status_message = STATUS_VERIFYING_PASSWORD.to_string();
        GuiAction::SendPassword(self.password.clone())
    }

    /// The user opens the chat at `index` of the chat list. An index past
    /// the list changes nothing.
    pub fn open_chat(&mut self, index: usize) -> (intent: Option<GuiAction>)
        ensures
            final(self).state == old(self).state,
            final(self).same_credentials(*old(self)),
            final(self).message_input == old(self).message_input,
            final(self).chats == old(self).chats,
            final(self).messages == old(self).messages,
            index < old(self).chats@.len() ==> {
                &&& final(self).selected_chat == Some(old(self).chats@[index as int])
                &&& final(self).status_message@ == STATUS_LOADING_PREFIX@ + old(
                    self,
                ).chats@[index as int].name@ + STATUS_LOADING_SUFFIX@
                &&& intent matches Some(GuiAction::SelectChat(chat_id)) && chat_id@ == old(
                    self,
                ).chats@[index as int].id@
            },
            index >= old(self).chats@.len() ==> {
                &&& *final(self) == *old(self)
                &&& intent is None
            },
    {
        if index < self.chats.len() {
            let chat = copy_of(&self.chats[index]);
            let mut status = STATUS_LOADING_PREFIX.to_string();
            status.append(chat.name.as_str());
            status.append(STATUS_LOADING_SUFFIX);
            let chat_id = chat.id.clone();
            self.selected_chat = Some(chat);
            self.status_message = status;
            Some(GuiAction::SelectChat(chat_id))
        } else {
            None
        }
    }

    /// The user leaves the open chat: the selection and its messages go.
    pub fn back_to_chats(&mut self) -> (intent: GuiAction)
        ensures
            final(self).state == old(self).state,
            final(self).same_credentials(*old(self)),
            final(self).message_input == old(self).message_input,
            final(self).status_message == old(self).status_message,
            final(self).chats == old(self).chats,
            final(self).messages@.len() == 0,
            final(self).selected_chat is None,
            intent matches GuiAction::BackToChats,
    {
        self.selected_chat = None;
        self.messages.clear();
        GuiAction::BackToChats
    }

    /// The user sends the message being written. With a chat open and a
    /// text that is not empty, the text goes to that chat and the input is
    /// emptied; otherwise nothing changes.
    pub fn send_message(&mut self) -> (intent: Option<GuiAction>)
        ensures
            final(self).state == old(self).state,
            final(self).same_credentials(*old(self)),
            final(self).same_lists(*old(self)),
            match old(self).selected_chat {
                Some(chat) if old(self).message_input@.len() > 0 => {
                    &&& final(self).message_input@.len() == 0
                    &&& final(self).status_message@ == STATUS_SENDING_MESSAGE@
                    &&& intent matches Some(GuiAction::SendMessage { chat_id, text }) && chat_id@
                        == chat.id@ && text@ == old(self).message_input@
                },
                _ => {
                    &&& *final(self) == *old(self)
                    &&& intent is None
                },
            },
    {
        if self.message_input.as_str().is_empty() {
            return None;
        }
        match &self.selected_chat {
            Some(chat) => {
                let chat_id = chat.id.clone();
                let text = self.message_input.clone();
                self.message_input = String::new();
                self.status_message = STATUS_SENDING_MESSAGE.to_string();
                Some(GuiAction::SendMessage { chat_id, text })
            },
            None => None,
        }
    }
}


} // verus!
