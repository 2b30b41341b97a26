use cdda_cat::cli::{Command, Options, UsageError};
use cdda_cat::entities::{Edition, TilesEdition};

fn args(words: &[&str]) -> Vec<String> {
    words.iter().map(|word| word.to_string()).collect()
}

fn usage_error(words: &[&str]) -> UsageError {
    match Options::parse(&args(words)) {
        Ok(options) => panic!("{:?} was read as {:?}", words, options),
        Err(error) => error,
    }
}

#[test]
fn launch_takes_tag_and_edition() {
    match Options::parse(&args(&["launch", "--tag", "0.G", "--edition", "curses"])) {
        Ok(Options::Launch { release_tag, edition }) => {
            assert_eq!(release_tag, "0.G");
            assert_eq!(edition, Edition::Curses);
        }
        other => panic!("{:?}", other),
    }
}

#[test]
fn options_come_in_any_order() {
    match Options::parse(&args(&["launch", "--edition", "with-sound-pack", "--tag", "2024-01-01"])) {
        Ok(Options::Launch { release_tag, edition }) => {
            assert_eq!(release_tag, "2024-01-01");
            assert_eq!(edition, Edition::Tiles(TilesEdition::WithSoundPack));
        }
        other => panic!("{:?}", other),
    }
    match Options::parse(&args(&["install", "--overwrite", "--tag", "t", "--download_only"])) {
        Ok(Options::Install { release_tag, download_only, overwrite, edition }) => {
            assert_eq!(release_tag, "t");
            assert!(download_only);
            assert!(overwrite);
            assert_eq!(edition, None);
        }
        other => panic!("{:?}", other),
    }
}

#[test]
fn install_needs_only_a_tag() {
    match Options::parse(&args(&["install", "--tag", "0.G"])) {
        Ok(Options::Install { release_tag, download_only, overwrite, edition }) => {
            assert_eq!(release_tag, "0.G");
            assert!(!download_only);
            assert!(!overwrite);
            assert_eq!(edition, None);
        }
        other => panic!("{:?}", other),
    }
}

#[test]
fn install_takes_every_option() {
    match Options::parse(&args(&[
        "install",
        "--tag",
        "0.G",
        "--download_only",
        "--overwrite",
        "--edition",
        "tiles",
    ])) {
        Ok(Options::Install { release_tag, download_only, overwrite, edition }) => {
            assert_eq!(release_tag, "0.G");
            assert!(download_only);
            assert!(overwrite);
            assert_eq!(edition, Some(Edition::Tiles(TilesEdition::WithoutSoundPack)));
        }
        other => panic!("{:?}", other),
    }
}

#[test]
fn uninstall_takes_tag_edition_and_switch() {
    match Options::parse(&args(&["uninstall", "--tag", "0.G", "--edition", "CURSES"])) {
        Ok(Options::Uninstall { release_tag, edition, remove_cdda_dir_only }) => {
            assert_eq!(release_tag, "0.G");
            assert_eq!(edition, Edition::Curses);
            assert!(!remove_cdda_dir_only);
        }
        other => panic!("{:?}", other),
    }
    match Options::parse(&args(&[
        "uninstall",
        "--remove_cdda_dir_only",
        "--tag",
        "0.G",
        "--edition",
        "curses",
    ])) {
        Ok(Options::Uninstall { remove_cdda_dir_only, .. }) => assert!(remove_cdda_dir_only),
        other => panic!("{:?}", other),
    }
}

#[test]
fn a_value_is_taken_as_it_stands() {
    match Options::parse(&args(&["install", "--tag", "--edition"])) {
        Ok(Options::Install { release_tag, edition, .. }) => {
            assert_eq!(release_tag, "--edition");
            assert_eq!(edition, None);
        }
        other => panic!("{:?}", other),
    }
}

#[test]
fn no_arguments_miss_the_command() {
    assert_eq!(usage_error(&[]), UsageError::MissingCommand);
}

#[test]
fn an_unknown_first_word_is_no_command() {
    assert_eq!(usage_error(&["update"]), UsageError::UnknownCommand);
    assert_eq!(usage_error(&["--tag", "x"]), UsageError::UnknownCommand);
    assert_eq!(usage_error(&["Launch", "--tag", "x"]), UsageError::UnknownCommand);
    assert_eq!(usage_error(&[""]), UsageError::UnknownCommand);
}

#[test]
fn an_argument_that_is_no_option_is_unexpected() {
    assert_eq!(
        usage_error(&["launch", "--tag", "x", "now"]),
        UsageError::UnexpectedArgument { at: 3 }
    );
    assert_eq!(usage_error(&["install", "--help"]), UsageError::UnexpectedArgument { at: 1 });
    assert_eq!(
        usage_error(&["install", "--tag", "x", "--remove_cdda_dir_only"]),
        UsageError::UnexpectedArgument { at: 3 }
    );
    assert_eq!(
        usage_error(&["uninstall", "--overwrite", "--tag", "x"]),
        UsageError::UnexpectedArgument { at: 1 }
    );
    assert_eq!(
        usage_error(&["launch", "--download_only"]),
        UsageError::UnexpectedArgument { at: 1 }
    );
}

#[test]
fn an_option_may_come_once() {
    assert_eq!(
        usage_error(&["install", "--tag", "a", "--tag", "b"]),
        UsageError::RepeatedOption { at: 3 }
    );
    assert_eq!(
        usage_error(&["launch", "--edition", "curses", "--tag", "a", "--edition", "tiles"]),
        UsageError::RepeatedOption { at: 5 }
    );
    assert_eq!(
        usage_error(&["install", "--overwrite", "--overwrite"]),
        UsageError::RepeatedOption { at: 2 }
    );
    assert_eq!(
        usage_error(&["install", "--download_only", "--tag", "t", "--download_only"]),
        UsageError::RepeatedOption { at: 4 }
    );
    assert_eq!(
        usage_error(&["uninstall", "--remove_cdda_dir_only", "--remove_cdda_dir_only"]),
        UsageError::RepeatedOption { at: 2 }
    );
}

#[test]
fn an_option_at_the_end_misses_its_value() {
    assert_eq!(usage_error(&["install", "--tag"]), UsageError::MissingValue { at: 1 });
    assert_eq!(
        usage_error(&["launch", "--tag", "x", "--edition"]),
        UsageError::MissingValue { at: 3 }
    );
}

#[test]
fn every_command_needs_a_tag() {
    assert_eq!(usage_error(&["launch"]), UsageError::MissingTag);
    assert_eq!(usage_error(&["install"]), UsageError::MissingTag);
    assert_eq!(usage_error(&["install", "--overwrite"]), UsageError::MissingTag);
    assert_eq!(usage_error(&["uninstall", "--edition", "curses"]), UsageError::MissingTag);
}

#[test]
fn launch_and_uninstall_need_an_edition() {
    assert_eq!(usage_error(&["launch", "--tag", "x"]), UsageError::MissingEdition);
    assert_eq!(usage_error(&["uninstall", "--tag", "x"]), UsageError::MissingEdition);
    assert_eq!(
        usage_error(&["uninstall", "--tag", "x", "--remove_cdda_dir_only"]),
        UsageError::MissingEdition
    );
}

#[test]
fn commands_are_named_in_lower_case() {
    assert_eq!(Command::from_word("launch"), Some(Command::Launch));
    assert_eq!(Command::from_word("install"), Some(Command::Install));
    assert_eq!(Command::from_word("uninstall"), Some(Command::Uninstall));
    assert_eq!(Command::from_word("Install"), None);
    assert_eq!(Command::from_word("installs"), None);
}

#[test]
fn usage_errors_are_worded() {
    let given = args(&["install", "--tag", "a", "--tag", "b"]);
    assert_eq!(UsageError::MissingCommand.message(&given), "no command was given");
    assert_eq!(UsageError::UnknownCommand.message(&given), "install is no command");
    assert_eq!(
        UsageError::UnexpectedArgument { at: 2 }.message(&given),
        "a is not expected here"
    );
    assert_eq!(UsageError::RepeatedOption { at: 3 }.message(&given), "--tag was given twice");
    assert_eq!(UsageError::MissingValue { at: 1 }.message(&given), "--tag needs a value");
    assert_eq!(UsageError::MissingValue { at: 9 }.message(&given), " needs a value");
    assert_eq!(UsageError::MissingTag.message(&given), "--tag <TAG> is missing");
    assert_eq!(UsageError::MissingEdition.message(&given), "--edition <EDITION> is missing");
    assert_eq!(UsageError::UnknownCommand.message(&Vec::new()), " is no command");
}
