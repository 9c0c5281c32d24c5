//! The state of the terminal front-end and how it answers each key: two input
//! fields, port then origin, on an editing screen, and a log line on the main screen.
use vstd::prelude::*;
use vstd::string::*;

verus! {

/// The screen on show.
#[derive(Debug, Clone, Copy, PartialEq, Eq, Structural)]
pub enum CurrentScreen {
    /// The status line and the log.
    Main,
    /// The input fields.
    Editing,
}

/// The input field being edited.
#[derive(Debug, Clone, Copy, PartialEq, Eq, Structural)]
pub enum StartUpCachingServer {
    Port,
    Origin,
}

/// Whether a key went down, repeated, or came up.
#[derive(Debug, Clone, Copy, PartialEq, Eq, Structural)]
pub enum KeyKind {
    Press,
    Repeat,
    Release,
}

/// The keys the front-end tells apart.
#[derive(Debug, Clone, Copy, PartialEq, Eq, Structural)]
pub enum Key {
    Char(char),
    Enter,
    Esc,
    Tab,
    Backspace,
    Other,
}

/// What the caller does after a key.
#[derive(Debug, Clone, Copy, PartialEq, Eq, Structural)]
pub enum AppAction {
    /// Draw again and wait for the next key.
    Continue,
    /// Leave the front-end.
    Quit,
    /// Start a proxy on the port and origin typed, then call `record_startup`.
    StartServer,
}

/// The front-end's state in the abstract.
pub ghost struct AppState {
    pub port: Seq<char>,
    pub origin: Seq<char>,
    pub screen: CurrentScreen,
    pub log: Option<Seq<char>>,
    pub editing: Option<StartUpCachingServer>,
}

/// The front-end's state.
#[derive(Debug)]
pub struct App {
    /// What has been typed for the port.
    pub port_input: String,
    /// What has been typed for the origin.
    pub origin_input: String,
    /// The screen on show.
    pub current_screen: CurrentScreen,
    /// The log line, once a proxy was started.
    pub log_data: Option<String>,
    /// The field being edited, if any.
    pub request_information: Option<StartUpCachingServer>,
}

impl View for App {
    type V = AppState;

    open spec fn view(&self) -> AppState {
        AppState {
            port: self.port_input@,
            origin: self.origin_input@,
            screen: self.current_screen,
            log: match self.log_data {
                Some(l) => Some(l@),
                None => None,
            },
            editing: self.request_information,
        }
    }
}

/// `s` without its last character; an empty `s` stays empty.
pub open spec fn erase_last(s: Seq<char>) -> Seq<char> {
    if s.len() > 0 {
        s.drop_last()
    } else {
        s
    }
}

/// The state after a key of kind `kind`, and what the caller is to do next.
pub open spec fn on_key(s: AppState, kind: KeyKind, key: Key) -> (AppState, AppAction) {
    if kind == KeyKind::Release {
        (s, AppAction::Continue)
    } else {
        match s.screen {
            CurrentScreen::Main => match key {
                Key::Char('e') => (
                    AppState {
                        screen: CurrentScreen::Editing,
                        editing: Some(StartUpCachingServer::Port),
                        ..s
                    },
                    AppAction::Continue,
                ),
                Key::Char('q') => (s, AppAction::Quit),
                _ => (s, AppAction::Continue),
            },
            CurrentScreen::Editing => if kind != KeyKind::Press {
                (s, AppAction::Continue)
            } else {
                match key {
                    Key::Enter => match s.editing {
                        Some(StartUpCachingServer::Port) => (
                            AppState { editing: Some(StartUpCachingServer::Origin), ..s },
                            AppAction::Continue,
                        ),
                        Some(StartUpCachingServer::Origin) => (
                            AppState { screen: CurrentScreen::Main, ..s },
                            AppAction::StartServer,
                        ),
                        None => (s, AppAction::Continue),
                    },
                    Key::Esc => (
                        AppState { screen: CurrentScreen::Main, editing: None, ..s },
                        AppAction::Continue,
                    ),
                    Key::Tab => (
                        AppState {
                            editing: match s.editing {
                                Some(StartUpCachingServer::Port) => Some(
                                    StartUpCachingServer::Origin,
                                ),
                                Some(StartUpCachingServer::Origin) => Some(
                                    StartUpCachingServer::Port,
                                ),
                                None => None,
                            },
                            ..s
                        },
                        AppAction::Continue,
                    ),
                    Key::Backspace => match s.editing {
                        Some(StartUpCachingServer::Port) => (
                            AppState { port: erase_last(s.port), ..s },
                            AppAction::Continue,
                        ),
                        Some(StartUpCachingServer::Origin) => (
                            AppState { origin: erase_last(s.origin), ..s },
                            AppAction::Continue,
                        ),
                        None => (s, AppAction::Continue),
                    },
                    Key::Char(c) => match s.editing {
                        Some(StartUpCachingServer::Port) => (
                            AppState { port: s.port.push(c), ..s },
                            AppAction::Continue,
                        ),
                        Some(StartUpCachingServer::Origin) => (
                            AppState { origin: s.origin.push(c), ..s },
                            AppAction::Continue,
                        ),
                        None => (s, AppAction::Continue),
                    },
                    Key::Other => (s, AppAction::Continue),
                }
            },
        }
    }
}

/// The log line written once a proxy was started on `port` for `origin`.
pub open spec fn startup_log(port: Seq<char>, origin: Seq<char>) -> Seq<char> {
    "Caching Proxy Server Start app on port "@ + port + ". Proxy service: "@ + origin
}

/// Relies on `String::pop`: removes the last character, if there is one.
#[verifier::external_body]
fn pop_char(s: &mut String)
    ensures
        final(s)@ == erase_last(old(s)@),
{
    s.pop();
}

/// Relies on `String::push`: appends one character.
#[verifier::external_body]
fn push_char(s: &mut String, c: char)
    ensures
        final(s)@ == old(s)@.push(c),
{
    s.push(c);
}

impl App {
    /// The front-end as it starts: empty fields, the main screen, no log, nothing edited.
    pub fn new() -> (r: App)
        ensures
            r@ == (AppState {
                port: Seq::empty(),
                origin: Seq::empty(),
                screen: CurrentScreen::Main,
                log: None,
                editing: None,
            }),
    {
        App {
            port_input: String::new(),
            origin_input: String::new(),
            log_data: None,
            current_screen: CurrentScreen::Main,
            request_information: None,
        }
    }

    /// Answers one key: moves between screens and fields, edits the field in use,
    /// and says whether to go on, quit, or start a proxy.
    pub fn handle_key(&mut self, kind: KeyKind, key: Key) -> (r: AppAction)
        ensures
            (final(self)@, r) == on_key(old(self)@, kind, key),
    {
        if kind == KeyKind::Release {
            return AppAction::Continue;
        }
        match self.current_screen {
            CurrentScreen::Main => match key {
                Key::Char('e') => {
                    self.current_screen = CurrentScreen::Editing;
                    self.request_information = Some(StartUpCachingServer::Port);
                    AppAction::Continue
                },
                Key::Char('q') => AppAction::Quit,
                _ => AppAction::Continue,
            },
            CurrentScreen::Editing => {
                if kind != KeyKind::Press {
                    return AppAction::Continue;
                }
                match key {
                    Key::Enter => match self.request_information {
                        Some(StartUpCachingServer::Port) => {
                            self.request_information = Some(StartUpCachingServer::Origin);
                            AppAction::Continue
                        },
                        Some(StartUpCachingServer::Origin) => {
                            self.current_screen = CurrentScreen::Main;
                            AppAction::StartServer
                        },
                        None => AppAction::Continue,
                    },
                    Key::Esc => {
                        self.current_screen = CurrentScreen::Main;
                        self.request_information = None;
                        AppAction::Continue
                    },
                    Key::Tab => {
                        self.request_information =
                        match self.request_information {
                            Some(StartUpCachingServer::Port) => Some(StartUpCachingServer::Origin),
                            Some(StartUpCachingServer::Origin) => Some(StartUpCachingServer::Port),
                            None => None,
                        };
                        AppAction::Continue
                    },
                    Key::Backspace => {
                        match self.request_information {
                            Some(StartUpCachingServer::Port) => pop_char(&mut self.port_input),
                            Some(StartUpCachingServer::Origin) => pop_char(&mut self.origin_input),
                            None => {},
                        }
                        AppAction::Continue
                    },
                    Key::Char(c) => {
                        match self.request_information {
                            Some(StartUpCachingServer::Port) => push_char(&mut self.port_input, c),
                            Some(StartUpCachingServer::Origin) => push_char(
                                &mut self.origin_input,
                                c,
                            ),
                            None => {},
                        }
                        AppAction::Continue
                    },
                    Key::Other => AppAction::Continue,
                }
            },
        }
    }

    /// Records that a proxy was started with the fields as typed: writes the log line,
    /// leaves no field in edit, and empties both fields.
    pub fn record_startup(&mut self)
        ensures
            final(self)@ == (AppState {
                port: Seq::empty(),
                origin: Seq::empty(),
                log: Some(startup_log(old(self)@.port, old(self)@.origin)),
                editing: None,
                ..old(self)@
            }),
    {
        let mut log = String::from_str("Caching Proxy Server Start app on port ");
        log.append(self.port_input.as_str());
        log.append(". Proxy service: ");
        log.append(self.origin_input.as_str());
        self.log_data = Some(log);
        self.request_information = None;
        self.port_input = String::new();
        self.origin_input = String::new();
    }
}

} // verus!
