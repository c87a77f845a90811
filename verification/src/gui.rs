//! The state behind the login form, and what each message of the user
//! interface does to it.

use vstd::prelude::*;
use vstd::string::StringExecFns;

verus! {

/// What the window shows, as the mathematical model sees it.
pub enum StatusView {
    WaitInput,
    Online,
    Error(Seq<char>),
}

/// What the window shows.
#[derive(Debug)]
pub enum Status {
    /// The form that asks for the account and the password.
    WaitInput,
    /// The operation runs.
    Online,
    /// The operation ended, for this reason.
    Error(String),
}

impl View for Status {
    type V = StatusView;

    open spec fn view(&self) -> StatusView {
        match self {
            Status::WaitInput => StatusView::WaitInput,
            Status::Online => StatusView::Online,
            Status::Error(reason) => StatusView::Error(reason@),
        }
    }
}

impl Clone for Status {
    fn clone(&self) -> (copy: Self)
        ensures
            copy@ == self@,
    {
        match self {
            Status::WaitInput => Status::WaitInput,
            Status::Online => Status::Online,
            Status::Error(reason) => Status::Error(reason.clone()),
        }
    }
}

impl Default for Status {
    fn default() -> (status: Self)
        ensures
            status@ == StatusView::WaitInput,
    {
        Status::WaitInput
    }
}

/// A message of the user interface, as the mathematical model sees it.
pub enum MessageView {
    AccountInput(Seq<char>),
    PasswordInput(Seq<char>),
    Login,
    Error(Seq<char>),
}

/// A message of the user interface.
#[derive(Debug)]
pub enum Message {
    /// The text of the account field changed.
    AccountInput(String),
    /// The text of the password field changed.
    PasswordInput(String),
    /// The login button was pressed.
    Login,
    /// The operation ended, for this reason.
    Error(String),
}

impl View for Message {
    type V = MessageView;

    open spec fn view(&self) -> MessageView {
        match self {
            Message::AccountInput(text) => MessageView::AccountInput(text@),
            Message::PasswordInput(text) => MessageView::PasswordInput(text@),
            Message::Login => MessageView::Login,
            Message::Error(reason) => MessageView::Error(reason@),
        }
    }
}

impl Clone for Message {
    fn clone(&self) -> (copy: Self)
        ensures
            copy@ == self@,
    {
        match self {
            Message::AccountInput(text) => Message::AccountInput(text.clone()),
            Message::PasswordInput(text) => Message::PasswordInput(text.clone()),
            Message::Login => Message::Login,
            Message::Error(reason) => Message::Error(reason.clone()),
        }
    }
}

/// The message that the end of the operation sends to the window. The
/// operation is not meant to end well; where it does, the window says that
/// it stopped.
pub open spec fn finished_view(outcome: Result<(), Seq<char>>) -> MessageView {
    match outcome {
        Ok(_) => MessageView::Error("stop keeping online"@),
        Err(reason) => MessageView::Error(reason),
    }
}

impl Message {
    /// The message that the end of the operation sends to the window.
    pub fn finished(outcome: Result<(), String>) -> (message: Message)
        ensures
            message@ == finished_view(
                match outcome {
                    Ok(_) => Ok(()),
                    Err(reason) => Err(reason@),
                },
            ),
    {
        match outcome {
            Ok(_) => Message::Error(String::from_str("stop keeping online")),
            Err(reason) => Message::Error(reason),
        }
    }
}

/// What the application is to do after a message, as the model sees it.
pub enum EffectView {
    Nothing,
    KeepOnline { account: Seq<char>, password: Seq<char> },
}

/// What the application is to do after a message.
#[derive(Debug)]
pub enum Effect {
    /// Nothing.
    Nothing,
    /// Start the operation for this account, and send its end back as a
    /// message.
    KeepOnline { account: String, password: String },
}

impl View for Effect {
    type V = EffectView;

    open spec fn view(&self) -> EffectView {
        match self {
            Effect::Nothing => EffectView::Nothing,
            Effect::KeepOnline { account, password } => EffectView::KeepOnline {
                account: account@,
                password: password@,
            },
        }
    }
}

/// What the window is to draw, as the model sees it.
pub enum ScreenView {
    Form { account: Seq<char>, password: Seq<char> },
    Progress,
    Failure(Seq<char>),
}

/// What the window is to draw.
#[derive(Debug)]
pub enum Screen {
    /// The two fields with what was typed so far, and the login button.
    Form { account: String, password: String },
    /// The notice that the operation runs.
    Progress,
    /// The reason for which the operation ended.
    Failure(String),
}

impl View for Screen {
    type V = ScreenView;

    open spec fn view(&self) -> ScreenView {
        match self {
            Screen::Form { account, password } => ScreenView::Form {
                account: account@,
                password: password@,
            },
            Screen::Progress => ScreenView::Progress,
            Screen::Failure(reason) => ScreenView::Failure(reason@),
        }
    }
}

/// The state behind the window, as the model sees it.
pub struct OnlineView {
    pub account: Seq<char>,
    pub password: Seq<char>,
    pub status: StatusView,
}

/// The state behind the window: what was typed, and what the window shows.
#[derive(Debug)]
pub struct Online {
    account: String,
    password: String,
    status: Status,
}

impl View for Online {
    type V = OnlineView;

    closed spec fn view(&self) -> OnlineView {
        OnlineView { account: self.account@, password: self.password@, status: self.status@ }
    }
}

/// The state of the model after a message. Typing changes the field typed
/// in; a login shows that the operation runs; the end of the operation shows
/// its reason.
pub open spec fn updated(state: OnlineView, message: MessageView) -> OnlineView {
    match message {
        MessageView::AccountInput(text) => OnlineView { account: text, ..state },
        MessageView::PasswordInput(text) => OnlineView { password: text, ..state },
        MessageView::Login => OnlineView { status: StatusView::Online, ..state },
        MessageView::Error(reason) => OnlineView { status: StatusView::Error(reason), ..state },
    }
}

/// What the application is to do after a message: a login starts the
/// operation with what was typed, and nothing else starts anything.
pub open spec fn effect_of(state: OnlineView, message: MessageView) -> EffectView {
    match message {
        MessageView::Login => EffectView::KeepOnline {
            account: state.account,
            password: state.password,
        },
        _ => EffectView::Nothing,
    }
}

/// What the window is to draw in a state.
pub open spec fn screen_of(state: OnlineView) -> ScreenView {
    match state.status {
        StatusView::WaitInput => ScreenView::Form {
            account: state.account,
            password: state.password,
        },
        StatusView::Online => ScreenView::Progress,
        StatusView::Error(reason) => ScreenView::Failure(reason),
    }
}

/// The state of the model when the window opens.
pub open spec fn blank() -> OnlineView {
    OnlineView { account: Seq::empty(), password: Seq::empty(), status: StatusView::WaitInput }
}

impl Clone for Online {
    fn clone(&self) -> (copy: Self)
        ensures
            copy@ == self@,
    {
        Online {
            account: self.account.clone(),
            password: self.password.clone(),
            status: self.status.clone(),
        }
    }
}

impl Default for Online {
    fn default() -> (online: Self)
        ensures
            online@ == blank(),
    {
        Online { account: String::new(), password: String::new(), status: Status::WaitInput }
    }
}

impl Online {
    /// The state when the window opens: empty fields, waiting for input.
    pub fn new() -> (online: Self)
        ensures
            online@ == blank(),
    {
        Online { account: String::new(), password: String::new(), status: Status::WaitInput }
    }

    /// The title of the window.
    pub fn title(&self) -> (title: String)
        ensures
            title@ == "AcFun Live Online"@,
    {
        String::from_str("AcFun Live Online")
    }

    /// What the window shows.
    pub fn status(&self) -> (status: &Status)
        ensures
            status@ == self@.status,
    {
        &self.status
    }

    /// Takes a message, and says what the application is to do.
    pub fn update(&mut self, message: Message) -> (effect: Effect)
        ensures
            final(self)@ == updated(old(self)@, message@),
            effect@ == effect_of(old(self)@, message@),
    {
        match message {
            Message::AccountInput(text) => {
                self.account = text;
                Effect::Nothing
            },
            Message::PasswordInput(text) => {
                self.password = text;
                Effect::Nothing
            },
            Message::Login => {
                self.status = Status::Online;
                Effect::KeepOnline {
                    account: self.account.clone(),
                    password: self.password.clone(),
                }
            },
            Message::Error(reason) => {
                self.status = Status::Error(reason);
                Effect::Nothing
            },
        }
    }

    /// What the window is to draw.
    pub fn screen(&self) -> (screen: Screen)
        ensures
            screen@ == screen_of(self@),
    {
        match &self.status {
            Status::WaitInput => Screen::Form {
                account: self.account.clone(),
                password: self.password.clone(),
            },
            Status::Online => Screen::Progress,
            Status::Error(reason) => Screen::Failure(reason.clone()),
        }
    }
}

} // verus!
