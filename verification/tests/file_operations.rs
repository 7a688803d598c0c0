use gh_notifier::errors::RuntimeErrors;
use gh_notifier::file_operations::{
    get_local_ids, get_persistence_file_path, parse_local_ids, persistence_file_name,
    save_local_ids,
};
use gh_notifier::token::{get_token, token_name};

fn ids(words: &[&str]) -> Vec<String> {
    words.iter().map(|word| word.to_string()).collect()
}

#[test]
fn path_lies_in_the_home_directory() {
    assert_eq!(
        get_persistence_file_path("/home/octocat", ".gh-notifier-read-notifications"),
        "/home/octocat/.gh-notifier-read-notifications"
    );
    assert_eq!(get_persistence_file_path("", "f"), "/f");
}

#[test]
fn file_name_is_fixed() {
    assert_eq!(persistence_file_name(), ".gh-notifier-read-notifications");
}

#[test]
fn unreadable_file_counts_as_empty() {
    assert_eq!(get_local_ids(None), "");
    assert_eq!(get_local_ids(Some("1a,2b".to_string())), "1a,2b");
}

#[test]
fn no_identifier_is_saved_as_the_empty_file() {
    assert_eq!(save_local_ids(Vec::new()), "");
}

#[test]
fn one_identifier_is_saved_bare() {
    assert_eq!(save_local_ids(ids(&["1a"])), "1a");
}

#[test]
fn identifiers_are_saved_with_commas_between() {
    assert_eq!(save_local_ids(ids(&["1a", "2b", "3c"])), "1a,2b,3c");
    assert_eq!(save_local_ids(ids(&["", ""])), ",");
}

#[test]
fn empty_file_holds_no_identifier() {
    assert_eq!(parse_local_ids(""), Vec::<String>::new());
}

#[test]
fn file_is_read_back_as_it_was_saved() {
    let list = ids(&["1a", "2b", "3c"]);
    assert_eq!(parse_local_ids(&save_local_ids(list.clone())), list);
    assert_eq!(parse_local_ids("1a"), ids(&["1a"]));
    assert_eq!(parse_local_ids(",x,"), ids(&["", "x", ""]));
}

#[test]
fn token_is_taken_as_it_is() {
    assert_eq!(get_token(Some("ghp_abc".to_string())), Ok("ghp_abc".to_string()));
    assert_eq!(get_token(Some(String::new())), Ok(String::new()));
}

#[test]
fn missing_token_names_the_variable() {
    assert_eq!(token_name(), "GH_NOTIFIER_TOKEN");
    assert_eq!(
        get_token(None),
        Err(RuntimeErrors::MissingCredential("GH_NOTIFIER_TOKEN".to_string()))
    );
}
