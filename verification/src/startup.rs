//! What a start-up needs before any connection is opened.

use vstd::prelude::*;

verus! {

/// The endpoint that receives the records.
pub open spec fn endpoint() -> Seq<char> {
    "https://api.op47.de/v1/twitch/insertMessage"@
}

/// The channels to join, in the order of joining.
pub open spec fn channels() -> Seq<Seq<char>> {
    seq!["stegi"@, "di1araas"@]
}

/// The logins whose messages are forwarded.
pub open spec fn watch_list() -> Seq<Seq<char>> {
    seq!["stegi"@, "di1araas"@]
}

/// The credentials that the environment gave.
#[derive(Clone, Debug, PartialEq, Eq)]
pub enum Login {
    /// No name and no token were given, or only one of them.
    Anonymous,
    /// Both a name and a token were given.
    Named { name: String, oauth: String },
}

/// Mathematical value of a `Login`.
pub enum LoginView {
    Anonymous,
    Named { name: Seq<char>, oauth: Seq<char> },
}

impl View for Login {
    type V = LoginView;

    open spec fn view(&self) -> LoginView {
        match self {
            Login::Anonymous => LoginView::Anonymous,
            Login::Named { name, oauth } => LoginView::Named { name: name@, oauth: oauth@ },
        }
    }
}

/// The login that a name and a token give: named when both are there, anonymous otherwise.
pub open spec fn login_of(bot_name: Option<Seq<char>>, bot_oauth: Option<Seq<char>>) -> LoginView {
    match (bot_name, bot_oauth) {
        (Some(name), Some(oauth)) => LoginView::Named { name, oauth },
        _ => LoginView::Anonymous,
    }
}

/// Everything the relay works with once it has started.
#[derive(Clone, Debug, PartialEq, Eq)]
pub struct Settings {
    /// Where the records are sent.
    pub url: String,
    /// The channels to join.
    pub look_in: Vec<String>,
    /// The logins whose messages are forwarded.
    pub look_for: Vec<String>,
    /// Value of the authorization header.
    pub api_key: String,
    /// The credentials that were found.
    pub login: Login,
}

/// Mathematical value of `Settings`.
pub struct SettingsView {
    pub url: Seq<char>,
    pub look_in: Seq<Seq<char>>,
    pub look_for: Seq<Seq<char>>,
    pub api_key: Seq<char>,
    pub login: LoginView,
}

impl View for Settings {
    type V = SettingsView;

    open spec fn view(&self) -> SettingsView {
        SettingsView {
            url: self.url@,
            look_in: self.look_in.deep_view(),
            look_for: self.look_for.deep_view(),
            api_key: self.api_key@,
            login: self.login@,
        }
    }
}

/// The settings of a relay that was given this key and this login.
pub open spec fn settings_for(api_key: Seq<char>, login: LoginView) -> SettingsView {
    SettingsView {
        url: endpoint(),
        look_in: channels(),
        look_for: watch_list(),
        api_key,
        login,
    }
}

/// Why the relay cannot start.
#[derive(Clone, Copy, Debug, PartialEq, Eq, Structural)]
pub enum StartupError {
    /// No API key was given.
    MissingApiKey,
}

impl StartupError {
    /// The error in words.
    pub fn message(&self) -> (text: String)
        ensures
            text@ == "API_KEY must be set"@,
    {
        String::from_str("API_KEY must be set")
    }
}

/// The endpoint that receives the records.
pub fn endpoint_url() -> (url: String)
    ensures
        url@ == endpoint(),
{
    String::from_str("https://api.op47.de/v1/twitch/insertMessage")
}

/// The channels to join, in the order of joining.
pub fn channels_to_join() -> (look_in: Vec<String>)
    ensures
        look_in.deep_view() == channels(),
{
    let mut look_in: Vec<String> = Vec::new();
    look_in.push(String::from_str("stegi"));
    look_in.push(String::from_str("di1araas"));
    assert(look_in.deep_view() =~= channels());
    look_in
}

/// The logins whose messages are forwarded.
pub fn watched_users() -> (look_for: Vec<String>)
    ensures
        look_for.deep_view() == watch_list(),
{
    let mut look_for: Vec<String> = Vec::new();
    look_for.push(String::from_str("stegi"));
    look_for.push(String::from_str("di1araas"));
    assert(look_for.deep_view() =~= watch_list());
    look_for
}

/// Chooses the login: named when both a name and a token are there, anonymous otherwise.
pub fn choose_login(bot_name: Option<String>, bot_oauth: Option<String>) -> (login: Login)
    ensures
        login@ == login_of(text_of(bot_name), text_of(bot_oauth)),
{
    match (bot_name, bot_oauth) {
        (Some(name), Some(oauth)) => Login::Named { name, oauth },
        _ => Login::Anonymous,
    }
}

/// Value of an optional text.
pub open spec fn text_of(text: Option<String>) -> Option<Seq<char>> {
    match text {
        Some(t) => Some(t@),
        None => None,
    }
}

/// Decides on a start-up from what the environment holds. Without an API key there is no
/// start: the error comes back and with it no settings, so nothing to connect with. With a
/// key the settings are the fixed endpoint, channels and watch-list, the key, and the login
/// that the name and the token give.
pub fn startup(api_key: Option<String>, bot_name: Option<String>, bot_oauth: Option<String>) -> (settings:
    Result<Settings, StartupError>)
    ensures
        match settings {
            Ok(s) => api_key is Some && s@ == settings_for(
                api_key->0@,
                login_of(text_of(bot_name), text_of(bot_oauth)),
            ),
            Err(e) => api_key is None && e == StartupError::MissingApiKey,
        },
{
    match api_key {
        None => Err(StartupError::MissingApiKey),
        Some(key) => Ok(
            Settings {
                url: endpoint_url(),
                look_in: channels_to_join(),
                look_for: watched_users(),
                api_key: key,
                login: choose_login(bot_name, bot_oauth),
            },
        ),
    }
}

} // verus!
