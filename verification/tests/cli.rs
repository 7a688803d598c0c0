use gh_notifier::cli::{parse_args, start_service, stop_service};
use gh_notifier::notify::Platform;

fn args(words: &[&str]) -> Vec<String> {
    words.iter().map(|word| word.to_string()).collect()
}

#[test]
fn no_argument_asks_for_a_poll() {
    assert_eq!(parse_args(&args(&["gh-notifier"]), Platform::Linux), None);
    assert_eq!(parse_args(&args(&[]), Platform::MacOs), None);
}

#[test]
fn start_on_linux() {
    assert_eq!(
        parse_args(&args(&["gh-notifier", "start"]), Platform::Linux),
        Some(vec![
            "systemctl --user start gh-notifier.timer".to_string(),
            "systemctl --user enable gh-notifier.timer".to_string(),
        ])
    );
}

#[test]
fn stop_on_linux() {
    assert_eq!(
        parse_args(&args(&["gh-notifier", "stop"]), Platform::Linux),
        Some(vec![
            "systemctl --user stop gh-notifier.timer".to_string(),
            "systemctl --user disable gh-notifier.timer".to_string(),
        ])
    );
}

#[test]
fn start_on_macos() {
    assert_eq!(
        parse_args(&args(&["gh-notifier", "start"]), Platform::MacOs),
        Some(vec!["launchctl load $HOME/Library/LaunchAgents/com.gh-notifier.plist".to_string()])
    );
}

#[test]
fn stop_on_macos() {
    assert_eq!(
        parse_args(&args(&["gh-notifier", "stop"]), Platform::MacOs),
        Some(vec!["launchctl unload $HOME/Library/LaunchAgents/com.gh-notifier.plist".to_string()])
    );
}

#[test]
fn any_other_word_asks_for_a_poll() {
    for word in ["", "Start", "STOP", "start ", "restart", "--help", "stopp"] {
        assert_eq!(parse_args(&args(&["gh-notifier", word]), Platform::Linux), None);
    }
}

#[test]
fn only_the_first_argument_counts() {
    assert_eq!(parse_args(&args(&["gh-notifier", "poll", "start"]), Platform::Linux), None);
    assert_eq!(
        parse_args(&args(&["gh-notifier", "stop", "start"]), Platform::Linux),
        Some(stop_service(Platform::Linux))
    );
    assert_eq!(
        parse_args(&args(&["start", "start"]), Platform::MacOs),
        Some(start_service(Platform::MacOs))
    );
}
