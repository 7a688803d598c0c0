//! The command line of the notifier: `start` and `stop` switch the recurring
//! run on and off, anything else asks for one run.

use crate::notify::Platform;
use crate::text::{equal, views};
use vstd::prelude::*;
use vstd::string::*;

verus! {

/// The command lines that switch the recurring run on.
pub open spec fn start_lines(platform: Platform) -> Seq<Seq<char>> {
    match platform {
        Platform::Linux => seq![
            "systemctl --user start gh-notifier.timer"@,
            "systemctl --user enable gh-notifier.timer"@,
        ],
        Platform::MacOs => seq![
            "launchctl load $HOME/Library/LaunchAgents/com.gh-notifier.plist"@,
        ],
    }
}

/// The command lines that switch the recurring run off.
pub open spec fn stop_lines(platform: Platform) -> Seq<Seq<char>> {
    match platform {
        Platform::Linux => seq![
            "systemctl --user stop gh-notifier.timer"@,
            "systemctl --user disable gh-notifier.timer"@,
        ],
        Platform::MacOs => seq![
            "launchctl unload $HOME/Library/LaunchAgents/com.gh-notifier.plist"@,
        ],
    }
}

/// What the arguments ask to be run in place of a poll, if anything.
///
/// Only the argument after the program's name counts, and only as `stop` or
/// `start`. With fewer than two arguments, or any other word there, nothing
/// is asked for.
pub open spec fn service_lines(args: Seq<Seq<char>>, platform: Platform) -> Option<
    Seq<Seq<char>>,
> {
    if args.len() < 2 {
        None
    } else if args[1] == "stop"@ {
        Some(stop_lines(platform))
    } else if args[1] == "start"@ {
        Some(start_lines(platform))
    } else {
        None
    }
}

/// Lists the command lines that switch the recurring run on, in the order in
/// which they are to be run.
pub fn start_service(platform: Platform) -> (lines: Vec<String>)
    ensures
        views(lines@) == start_lines(platform),
{
    let mut lines: Vec<String> = Vec::new();
    match platform {
        Platform::Linux => {
            lines.push(String::from_str("systemctl --user start gh-notifier.timer"));
            lines.push(String::from_str("systemctl --user enable gh-notifier.timer"));
        },
        Platform::MacOs => {
            lines.push(
                String::from_str("launchctl load $HOME/Library/LaunchAgents/com.gh-notifier.plist"),
            );
        },
    }
    assert(views(lines@) =~= start_lines(platform));
    lines
}

/// Lists the command lines that switch the recurring run off, in the order
/// in which they are to be run.
pub fn stop_service(platform: Platform) -> (lines: Vec<String>)
    ensures
        views(lines@) == stop_lines(platform),
{
    let mut lines: Vec<String> = Vec::new();
    match platform {
        Platform::Linux => {
            lines.push(String::from_str("systemctl --user stop gh-notifier.timer"));
            lines.push(String::from_str("systemctl --user disable gh-notifier.timer"));
        },
        Platform::MacOs => {
            lines.push(
                String::from_str(
                    "launchctl unload $HOME/Library/LaunchAgents/com.gh-notifier.plist",
                ),
            );
        },
    }
    assert(views(lines@) =~= stop_lines(platform));
    lines
}

/// Reads the arguments of the program, its name first.
///
/// Returns the command lines to run where the arguments are consumed by
/// `start` or `stop`; the caller runs them, whatever becomes of each, and
/// is done. Returns `None` where the arguments ask for a poll.
pub fn parse_args(args: &Vec<String>, platform: Platform) -> (lines: Option<Vec<String>>)
    ensures
        match lines {
            Some(lines) => service_lines(views(args@), platform) == Some(views(lines@)),
            None => service_lines(views(args@), platform) is None,
        },
{
    if args.len() < 2 {
        return None;
    }
    let word = args[1].as_str();
    assert(views(args@)[1] == word@);
    if equal(word, "stop") {
        Some(stop_service(platform))
    } else if equal(word, "start") {
        Some(start_service(platform))
    } else {
        None
    }
}

} // verus!
