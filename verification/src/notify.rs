//! Desktop notifications as command lines for the platform's notifier
//! program.

use crate::command_line::{command_exists, exists_probe};
use vstd::prelude::*;
use vstd::string::*;

verus! {

/// The desktop the notifier runs on.
#[derive(Debug, Clone, Copy, PartialEq, Eq)]
pub enum Platform {
    /// macOS, where `terminal-notifier` displays notifications and `launchctl`
    /// schedules the notifier.
    MacOs,
    /// Linux, where `notify-send` displays notifications and `systemctl`
    /// schedules the notifier.
    Linux,
}

/// What a desktop notification shows.
#[derive(Debug, Clone, PartialEq, Eq)]
pub struct NotificationParams {
    pub title: String,
    pub subtitle: String,
    pub message: String,
    /// The sound to play; the platform's default when absent.
    pub sound: Option<String>,
    /// The address to open on a click; an absent or empty address attaches no
    /// click action.
    pub open: Option<String>,
}

/// A [`NotificationParams`] as plain character sequences.
pub struct NotificationParamsView {
    pub title: Seq<char>,
    pub subtitle: Seq<char>,
    pub message: Seq<char>,
    pub sound: Option<Seq<char>>,
    pub open: Option<Seq<char>>,
}

/// The characters of an optional string.
pub open spec fn option_view(s: Option<String>) -> Option<Seq<char>> {
    match s {
        Some(text) => Some(text@),
        None => None,
    }
}

impl View for NotificationParams {
    type V = NotificationParamsView;

    open spec fn view(&self) -> NotificationParamsView {
        NotificationParamsView {
            title: self.title@,
            subtitle: self.subtitle@,
            message: self.message@,
            sound: option_view(self.sound),
            open: option_view(self.open),
        }
    }
}

/// Collects the parts of a [`NotificationParams`] one by one.
///
/// Title, subtitle and message have to be given before [`build`] succeeds;
/// sound and click address may be left out.
///
/// [`build`]: NotificationParamsBuilder::build
#[derive(Debug, Clone)]
pub struct NotificationParamsBuilder {
    title: Option<String>,
    subtitle: Option<String>,
    message: Option<String>,
    sound: Option<String>,
    open: Option<String>,
}

/// The parts that a builder has been given so far.
pub struct NotificationParamsBuilderView {
    pub title: Option<Seq<char>>,
    pub subtitle: Option<Seq<char>>,
    pub message: Option<Seq<char>>,
    pub sound: Option<Seq<char>>,
    pub open: Option<Seq<char>>,
}

/// Why a builder could not build.
#[derive(Debug, Clone, PartialEq, Eq)]
pub enum NotificationParamsBuilderError {
    /// The named part has to be given and was not.
    UninitializedField(&'static str),
}

/// The first of title, subtitle and message that a builder still lacks.
pub open spec fn missing_field(parts: NotificationParamsBuilderView) -> Option<Seq<char>> {
    if parts.title is None {
        Some("title"@)
    } else if parts.subtitle is None {
        Some("subtitle"@)
    } else if parts.message is None {
        Some("message"@)
    } else {
        None
    }
}

impl View for NotificationParamsBuilder {
    type V = NotificationParamsBuilderView;

    closed spec fn view(&self) -> NotificationParamsBuilderView {
        NotificationParamsBuilderView {
            title: option_view(self.title),
            subtitle: option_view(self.subtitle),
            message: option_view(self.message),
            sound: option_view(self.sound),
            open: option_view(self.open),
        }
    }
}

impl Default for NotificationParamsBuilder {
    /// A builder that has been given nothing yet.
    fn default() -> (builder: Self)
        ensures
            builder@ == (NotificationParamsBuilderView {
                title: None,
                subtitle: None,
                message: None,
                sound: None,
                open: None,
            }),
    {
        NotificationParamsBuilder {
            title: None,
            subtitle: None,
            message: None,
            sound: None,
            open: None,
        }
    }
}

impl NotificationParamsBuilder {
    /// Gives the title.
    pub fn title(self, value: &str) -> (builder: Self)
        ensures
            builder@ == (NotificationParamsBuilderView { title: Some(value@), ..self@ }),
    {
        NotificationParamsBuilder { title: Some(String::from_str(value)), ..self }
    }

    /// Gives the subtitle.
    pub fn subtitle(self, value: &str) -> (builder: Self)
        ensures
            builder@ == (NotificationParamsBuilderView { subtitle: Some(value@), ..self@ }),
    {
        NotificationParamsBuilder { subtitle: Some(String::from_str(value)), ..self }
    }

    /// Gives the message.
    pub fn message(self, value: &str) -> (builder: Self)
        ensures
            builder@ == (NotificationParamsBuilderView { message: Some(value@), ..self@ }),
    {
        NotificationParamsBuilder { message: Some(String::from_str(value)), ..self }
    }

    /// Gives the sound to play.
    pub fn sound(self, value: &str) -> (builder: Self)
        ensures
            builder@ == (NotificationParamsBuilderView { sound: Some(value@), ..self@ }),
    {
        NotificationParamsBuilder { sound: Some(String::from_str(value)), ..self }
    }

    /// Gives the address to open on a click.
    pub fn open(self, value: &str) -> (builder: Self)
        ensures
            builder@ == (NotificationParamsBuilderView { open: Some(value@), ..self@ }),
    {
        NotificationParamsBuilder { open: Some(String::from_str(value)), ..self }
    }

    /// Builds the notification from the parts given, or names the first of
    /// title, subtitle and message that is missing.
    pub fn build(self) -> (built: Result<NotificationParams, NotificationParamsBuilderError>)
        ensures
            match missing_field(self@) {
                Some(field) => built matches Err(
                    NotificationParamsBuilderError::UninitializedField(name),
                ) && name@ == field,
                None => built matches Ok(params) && params@ == (NotificationParamsView {
                    title: self@.title->0,
                    subtitle: self@.subtitle->0,
                    message: self@.message->0,
                    sound: self@.sound,
                    open: self@.open,
                }),
            },
    {
        let title = match self.title {
            Some(title) => title,
            None => {
                return Err(NotificationParamsBuilderError::UninitializedField("title"));
            },
        };
        let subtitle = match self.subtitle {
            Some(subtitle) => subtitle,
            None => {
                return Err(NotificationParamsBuilderError::UninitializedField("subtitle"));
            },
        };
        let message = match self.message {
            Some(message) => message,
            None => {
                return Err(NotificationParamsBuilderError::UninitializedField("message"));
            },
        };
        Ok(NotificationParams { title, subtitle, message, sound: self.sound, open: self.open })
    }
}

impl NotificationParamsBuilderError {
    /// The text that tells the user about this failure.
    pub fn message(&self) -> (text: String)
        ensures
            self matches NotificationParamsBuilderError::UninitializedField(name) && text@
                == "`"@ + name@ + "` must be initialized"@,
    {
        match self {
            NotificationParamsBuilderError::UninitializedField(name) => {
                let mut text = String::from_str("`");
                text.append(name);
                text.append("` must be initialized");
                text
            },
        }
    }
}

/// The notifier program to probe for and the command line that displays one
/// notification.
#[derive(Debug, Clone, PartialEq, Eq)]
pub struct NotifierCommand {
    /// The command line whose success tells that the notifier program is
    /// installed.
    pub probe: String,
    /// What to tell the user when the probe fails; nothing is displayed then.
    pub unavailable: String,
    /// The command line that displays the notification.
    pub command_line: String,
}

/// `message` without the square brackets, which `terminal-notifier` does not
/// accept.
pub open spec fn safe_message(message: Seq<char>) -> Seq<char> {
    message.filter(|c: char| c != '[' && c != ']')
}

/// The `terminal-notifier` command line for a notification. The click
/// address is passed on only when it is not empty.
pub open spec fn terminal_notifier_line(
    title: Seq<char>,
    subtitle: Seq<char>,
    message: Seq<char>,
    sound: Seq<char>,
    open: Seq<char>,
) -> Seq<char> {
    let always = "terminal-notifier -title \""@ + title + "\" -subtitle \""@ + subtitle
        + "\" -message \""@ + safe_message(message) + "\" -sound \""@ + sound + "\""@;
    if open.len() > 0 {
        always + " -open \""@ + open + "\""@
    } else {
        always
    }
}

/// The `notify-send` command line for a notification. `notify-send` has no
/// subtitle, so it follows the title in brackets.
pub open spec fn notify_send_line(title: Seq<char>, subtitle: Seq<char>, message: Seq<char>) -> Seq<
    char,
> {
    "notify-send \""@ + title + " ("@ + subtitle + ")\" \""@ + message + "\""@
}

/// The command line that displays `notification` on `platform`. On macOS a
/// missing sound is the sound `default` and a missing click address is empty;
/// Linux ignores both.
pub open spec fn display_line(notification: NotificationParamsView, platform: Platform) -> Seq<
    char,
> {
    match platform {
        Platform::MacOs => terminal_notifier_line(
            notification.title,
            notification.subtitle,
            notification.message,
            match notification.sound {
                Some(sound) => sound,
                None => "default"@,
            },
            match notification.open {
                Some(open) => open,
                None => Seq::<char>::empty(),
            },
        ),
        Platform::Linux => notify_send_line(
            notification.title,
            notification.subtitle,
            notification.message,
        ),
    }
}

/// The name of the notifier program of `platform`.
pub open spec fn notifier_program(platform: Platform) -> Seq<char> {
    match platform {
        Platform::MacOs => "terminal-notifier"@,
        Platform::Linux => "notify-send"@,
    }
}

/// Removing first one bracket and then the other leaves the safe message.
proof fn lemma_safe_message(message: Seq<char>)
    ensures
        crate::text::without(crate::text::without(message, '['), ']') == safe_message(message),
    decreases message.len(),
{
    reveal(Seq::filter);
    if message.len() > 0 {
        lemma_safe_message(message.drop_last());
        if message.last() != '[' {
            let kept = crate::text::without(message.drop_last(), '[');
            assert(kept.push(message.last()).drop_last() =~= kept);
        }
    }
}

/// Removes the square brackets from `message`.
fn strip_brackets(message: &str) -> (safe: String)
    ensures
        safe@ == safe_message(message@),
{
    let pieces = crate::text::split_on(message, '[');
    let opened = crate::text::join_with(&pieces, "");
    let pieces = crate::text::split_on(opened.as_str(), ']');
    let safe = crate::text::join_with(&pieces, "");
    proof {
        reveal_strlit("");
        assert(""@ =~= Seq::<char>::empty());
        crate::text::lemma_join_split_removes(message@, '[');
        crate::text::lemma_join_split_removes(opened@, ']');
        lemma_safe_message(message@);
    }
    safe
}

/// Builds the `terminal-notifier` command line for a notification.
pub fn terminal_notifier_command(
    title: &str,
    subtitle: &str,
    message: &str,
    sound: &str,
    open: &str,
) -> (line: String)
    ensures
        line@ == terminal_notifier_line(title@, subtitle@, message@, sound@, open@),
{
    let safe = strip_brackets(message);
    let mut line = String::from_str("terminal-notifier -title \"");
    line.append(title);
    line.append("\" -subtitle \"");
    line.append(subtitle);
    line.append("\" -message \"");
    line.append(safe.as_str());
    line.append("\" -sound \"");
    line.append(sound);
    line.append("\"");
    if !open.is_empty() {
        line.append(" -open \"");
        line.append(open);
        line.append("\"");
    }
    line
}

/// Builds the `notify-send` command line for a notification.
pub fn notify_send_command(title: &str, subtitle: &str, message: &str) -> (line: String)
    ensures
        line@ == notify_send_line(title@, subtitle@, message@),
{
    let mut line = String::from_str("notify-send \"");
    line.append(title);
    line.append(" (");
    line.append(subtitle);
    line.append(")\" \"");
    line.append(message);
    line.append("\"");
    line
}

/// Turns a notification into what the caller has to run on `platform`: first
/// the probe for the notifier program and, if that succeeds, the command line
/// that displays the notification.
pub fn notify(notification: &NotificationParams, platform: Platform) -> (command: NotifierCommand)
    ensures
        command.probe@ == exists_probe(notifier_program(platform) + " -h"@),
        command.unavailable@ == notifier_program(platform) + " is not available. Is it installed?"@,
        command.command_line@ == display_line(notification@, platform),
{
    match platform {
        Platform::MacOs => {
            let sound = match &notification.sound {
                Some(sound) => sound.as_str(),
                None => "default",
            };
            let open = match &notification.open {
                Some(open) => open.as_str(),
                None => "",
            };
            proof {
                reveal_strlit("");
                reveal_strlit("terminal-notifier -h");
                reveal_strlit("terminal-notifier");
                reveal_strlit(" -h");
                reveal_strlit("terminal-notifier is not available. Is it installed?");
                reveal_strlit(" is not available. Is it installed?");
                assert(""@ =~= Seq::<char>::empty());
                assert("terminal-notifier -h"@ =~= "terminal-notifier"@ + " -h"@);
                assert("terminal-notifier is not available. Is it installed?"@
                    =~= "terminal-notifier"@ + " is not available. Is it installed?"@);
            }
            NotifierCommand {
                probe: command_exists("terminal-notifier -h"),
                unavailable: String::from_str(
                    "terminal-notifier is not available. Is it installed?",
                ),
                command_line: terminal_notifier_command(
                    notification.title.as_str(),
                    notification.subtitle.as_str(),
                    notification.message.as_str(),
                    sound,
                    open,
                ),
            }
        },
        Platform::Linux => {
            proof {
                reveal_strlit("notify-send -h");
                reveal_strlit("notify-send");
                reveal_strlit(" -h");
                reveal_strlit("notify-send is not available. Is it installed?");
                reveal_strlit(" is not available. Is it installed?");
                assert("notify-send -h"@ =~= "notify-send"@ + " -h"@);
                assert("notify-send is not available. Is it installed?"@ =~= "notify-send"@
                    + " is not available. Is it installed?"@);
            }
            NotifierCommand {
                probe: command_exists("notify-send -h"),
                unavailable: String::from_str("notify-send is not available. Is it installed?"),
                command_line: notify_send_command(
                    notification.title.as_str(),
                    notification.subtitle.as_str(),
                    notification.message.as_str(),
                ),
            }
        },
    }
}

} // verus!
