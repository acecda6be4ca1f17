use mock_relayer::commands::{classify_command, parse_email_command};
use mock_relayer::models::{CommandType, EmailCommand};

fn command(kind: CommandType, params: &[&str]) -> EmailCommand {
    EmailCommand { command: kind, params: params.iter().map(|p| p.to_string()).collect() }
}

#[test]
fn list_is_a_command() {
    assert_eq!(parse_email_command("LIST"), Some(command(CommandType::List, &[])));
}

#[test]
fn command_word_may_be_in_any_case() {
    assert_eq!(parse_email_command("list"), Some(command(CommandType::List, &[])));
    assert_eq!(parse_email_command("Cancel"), Some(command(CommandType::Cancel, &[])));
    assert_eq!(parse_email_command("cLaIm"), Some(command(CommandType::Claim, &[])));
}

#[test]
fn command_word_is_upper_cased_as_unicode_text() {
    assert_eq!(parse_email_command("li\u{17f}t"), Some(command(CommandType::List, &[])));
    assert_eq!(parse_email_command("li\u{fb06}"), Some(command(CommandType::List, &[])));
}

#[test]
fn words_after_the_command_are_parameters_in_order() {
    assert_eq!(
        parse_email_command("  cancel RES-1234   table for two \n"),
        Some(command(CommandType::Cancel, &["RES-1234", "table", "for", "two"]))
    );
}

#[test]
fn parameters_keep_their_case() {
    assert_eq!(
        parse_email_command("claim abc-DEF"),
        Some(command(CommandType::Claim, &["abc-DEF"]))
    );
}

#[test]
fn unknown_first_word_is_no_command() {
    assert_eq!(parse_email_command("FOO"), None);
    assert_eq!(parse_email_command("please LIST"), None);
    assert_eq!(parse_email_command("LISTS"), None);
    assert_eq!(parse_email_command("LIST,"), None);
}

#[test]
fn blank_subject_is_no_command() {
    assert_eq!(parse_email_command(""), None);
    assert_eq!(parse_email_command("   \t "), None);
}

#[test]
fn classify_takes_upper_case_words_only() {
    assert_eq!(classify_command("LIST"), Some(CommandType::List));
    assert_eq!(classify_command("CANCEL"), Some(CommandType::Cancel));
    assert_eq!(classify_command("CLAIM"), Some(CommandType::Claim));
    assert_eq!(classify_command("list"), None);
    assert_eq!(classify_command(""), None);
}
