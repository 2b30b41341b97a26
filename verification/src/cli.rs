//! The command line: what the user can ask for, and how the arguments are read.
//!
//! ```text
//! launch    --tag <TAG> --edition <EDITION>
//! install   --tag <TAG> [--download_only] [--overwrite] [--edition <EDITION>]
//! uninstall --tag <TAG> --edition <EDITION> [--remove_cdda_dir_only]
//! ```
//!
//! The options of a command may come in any order, each at most once.

use crate::entities::Edition;
use crate::text::{same_text, texts};
use vstd::prelude::*;
use vstd::string::*;

verus! {

/// What the user asks the installer to do.
#[derive(Debug)]
#[allow(inconsistent_fields)]
pub enum Options {
    /// Start an installed game.
    Launch { release_tag: String, edition: Edition },
    /// Download a release and, unless told otherwise, unpack it.
    Install { release_tag: String, download_only: bool, overwrite: bool, edition: Option<Edition> },
    /// Remove an installed game.
    Uninstall { release_tag: String, edition: Edition, remove_cdda_dir_only: bool },
}

/// What an [`Options`] value holds, as mathematical values.
#[allow(inconsistent_fields)]
pub enum OptionsView {
    Launch { release_tag: Seq<char>, edition: Edition },
    Install { release_tag: Seq<char>, download_only: bool, overwrite: bool, edition: Option<Edition> },
    Uninstall { release_tag: Seq<char>, edition: Edition, remove_cdda_dir_only: bool },
}

impl View for Options {
    type V = OptionsView;

    open spec fn view(&self) -> OptionsView {
        match self {
            Options::Launch { release_tag, edition } => OptionsView::Launch {
                release_tag: release_tag@,
                edition: *edition,
            },
            Options::Install { release_tag, download_only, overwrite, edition } => {
                OptionsView::Install {
                    release_tag: release_tag@,
                    download_only: *download_only,
                    overwrite: *overwrite,
                    edition: *edition,
                }
            },
            Options::Uninstall { release_tag, edition, remove_cdda_dir_only } => {
                OptionsView::Uninstall {
                    release_tag: release_tag@,
                    edition: *edition,
                    remove_cdda_dir_only: *remove_cdda_dir_only,
                }
            },
        }
    }
}

/// Why a command line was not understood.
#[derive(Debug, PartialEq, Eq, Clone, Copy, Structural)]
pub enum UsageError {
    /// There are no arguments at all.
    MissingCommand,
    /// The first argument is none of `launch`, `install` and `uninstall`.
    UnknownCommand,
    /// The argument at this position is no option of the command.
    UnexpectedArgument { at: usize },
    /// The option at this position was already given.
    RepeatedOption { at: usize },
    /// The option at this position is the last argument, and needs a value.
    MissingValue { at: usize },
    /// The command was given no `--tag`.
    MissingTag,
    /// The command needs an `--edition` and was given none.
    MissingEdition,
}

/// The three commands.
#[derive(Debug, PartialEq, Eq, Clone, Copy, Structural)]
pub enum Command {
    Launch,
    Install,
    Uninstall,
}

impl Command {
    /// The command that `word` names, if it names one.
    pub open spec fn named(word: Seq<char>) -> Option<Command> {
        if word == "launch"@ {
            Some(Command::Launch)
        } else if word == "install"@ {
            Some(Command::Install)
        } else if word == "uninstall"@ {
            Some(Command::Uninstall)
        } else {
            None
        }
    }
}

/// The options read so far while going through a command's arguments.
pub struct Scanned {
    pub tag: Option<Seq<char>>,
    pub edition: Option<Edition>,
    pub download_only: bool,
    pub overwrite: bool,
    pub remove_cdda_dir_only: bool,
}

impl Scanned {
    /// Nothing has been read yet.
    pub open spec fn nothing() -> Scanned {
        Scanned {
            tag: None,
            edition: None,
            download_only: false,
            overwrite: false,
            remove_cdda_dir_only: false,
        }
    }
}

/// Reads the arguments from position `from` on, with `found` already read.
///
/// `--tag` and `--edition` take the argument after them as their value,
/// whatever it holds. The switches stand alone, and only for their command.
pub open spec fn scan(command: Command, args: Seq<Seq<char>>, from: int, found: Scanned) -> Result<
    Scanned,
    UsageError,
>
    decreases args.len() - from,
{
    if from < 0 || from >= args.len() {
        Ok(found)
    } else if args[from] == "--tag"@ {
        if found.tag is Some {
            Err(UsageError::RepeatedOption { at: from as usize })
        } else if from + 1 >= args.len() {
            Err(UsageError::MissingValue { at: from as usize })
        } else {
            scan(command, args, from + 2, Scanned { tag: Some(args[from + 1]), ..found })
        }
    } else if args[from] == "--edition"@ {
        if found.edition is Some {
            Err(UsageError::RepeatedOption { at: from as usize })
        } else if from + 1 >= args.len() {
            Err(UsageError::MissingValue { at: from as usize })
        } else {
            scan(
                command,
                args,
                from + 2,
                Scanned { edition: Some(Edition::of_word(args[from + 1])), ..found },
            )
        }
    } else if command == Command::Install && args[from] == "--download_only"@ {
        if found.download_only {
            Err(UsageError::RepeatedOption { at: from as usize })
        } else {
            scan(command, args, from + 1, Scanned { download_only: true, ..found })
        }
    } else if command == Command::Install && args[from] == "--overwrite"@ {
        if found.overwrite {
            Err(UsageError::RepeatedOption { at: from as usize })
        } else {
            scan(command, args, from + 1, Scanned { overwrite: true, ..found })
        }
    } else if command == Command::Uninstall && args[from] == "--remove_cdda_dir_only"@ {
        if found.remove_cdda_dir_only {
            Err(UsageError::RepeatedOption { at: from as usize })
        } else {
            scan(command, args, from + 1, Scanned { remove_cdda_dir_only: true, ..found })
        }
    } else {
        Err(UsageError::UnexpectedArgument { at: from as usize })
    }
}

/// What a command and the options read for it amount to.
pub open spec fn assembled(command: Command, found: Scanned) -> Result<OptionsView, UsageError> {
    match found.tag {
        None => Err(UsageError::MissingTag),
        Some(release_tag) => match command {
            Command::Launch => match found.edition {
                None => Err(UsageError::MissingEdition),
                Some(edition) => Ok(OptionsView::Launch { release_tag, edition }),
            },
            Command::Install => Ok(
                OptionsView::Install {
                    release_tag,
                    download_only: found.download_only,
                    overwrite: found.overwrite,
                    edition: found.edition,
                },
            ),
            Command::Uninstall => match found.edition {
                None => Err(UsageError::MissingEdition),
                Some(edition) => Ok(
                    OptionsView::Uninstall {
                        release_tag,
                        edition,
                        remove_cdda_dir_only: found.remove_cdda_dir_only,
                    },
                ),
            },
        },
    }
}

/// What a command line asks for: its first argument names the command, the
/// others are that command's options.
pub open spec fn parsed(args: Seq<Seq<char>>) -> Result<OptionsView, UsageError> {
    if args.len() == 0 {
        Err(UsageError::MissingCommand)
    } else {
        match Command::named(args[0]) {
            None => Err(UsageError::UnknownCommand),
            Some(command) => match scan(command, args, 1, Scanned::nothing()) {
                Err(error) => Err(error),
                Ok(found) => assembled(command, found),
            },
        }
    }
}

/// The text of an optional string.
pub open spec fn optional_text(text: Option<String>) -> Option<Seq<char>> {
    match text {
        Some(text) => Some(text@),
        None => None,
    }
}

/// `outcome` is what `wanted` says, the options taken by their view.
pub open spec fn agrees(outcome: Result<Options, UsageError>, wanted: Result<
    OptionsView,
    UsageError,
>) -> bool {
    match outcome {
        Ok(options) => wanted == Ok::<OptionsView, UsageError>(options@),
        Err(error) => wanted == Err::<OptionsView, UsageError>(error),
    }
}

impl Command {
    /// The command that `word` names, if it names one.
    pub fn from_word(word: &str) -> (command: Option<Command>)
        ensures
            command == Command::named(word@),
    {
        if same_text(word, "launch") {
            Some(Command::Launch)
        } else if same_text(word, "install") {
            Some(Command::Install)
        } else if same_text(word, "uninstall") {
            Some(Command::Uninstall)
        } else {
            None
        }
    }
}

impl Options {
    /// Reads a command line, given without the program's own name.
    pub fn parse(args: &Vec<String>) -> (outcome: Result<Options, UsageError>)
        ensures
            agrees(outcome, parsed(texts(args@))),
    {
        if args.len() == 0 {
            return Err(UsageError::MissingCommand);
        }
        let command = match Command::from_word(args[0].as_str()) {
            Some(command) => command,
            None => {
                return Err(UsageError::UnknownCommand);
            },
        };
        assert(args@[0]@ == texts(args@)[0]);
        let mut tag: Option<String> = None;
        let mut edition: Option<Edition> = None;
        let mut download_only = false;
        let mut overwrite = false;
        let mut remove_cdda_dir_only = false;
        let mut at: usize = 1;
        while at < args.len()
            invariant
                1 <= at <= args.len(),
                Command::named(texts(args@)[0]) == Some(command),
                scan(command, texts(args@), 1, Scanned::nothing()) == scan(
                    command,
                    texts(args@),
                    at as int,
                    Scanned {
                        tag: optional_text(tag),
                        edition,
                        download_only,
                        overwrite,
                        remove_cdda_dir_only,
                    },
                ),
            decreases args.len() - at,
        {
            let arg = args[at].as_str();
            assert(arg@ == texts(args@)[at as int]);
            if same_text(arg, "--tag") {
                if tag.is_some() {
                    return Err(UsageError::RepeatedOption { at });
                }
                if at == args.len() - 1 {
                    return Err(UsageError::MissingValue { at });
                }
                assert(args@[at + 1]@ == texts(args@)[at + 1]);
                tag = Some(args[at + 1].clone());
                at = at + 2;
            } else if same_text(arg, "--edition") {
                if edition.is_some() {
                    return Err(UsageError::RepeatedOption { at });
                }
                if at == args.len() - 1 {
                    return Err(UsageError::MissingValue { at });
                }
                assert(args@[at + 1]@ == texts(args@)[at + 1]);
                edition = Some(Edition::from_word(args[at + 1].as_str()));
                at = at + 2;
            } else if command == Command::Install && same_text(arg, "--download_only") {
                if download_only {
                    return Err(UsageError::RepeatedOption { at });
                }
                download_only = true;
                at = at + 1;
            } else if command == Command::Install && same_text(arg, "--overwrite") {
                if overwrite {
                    return Err(UsageError::RepeatedOption { at });
                }
                overwrite = true;
                at = at + 1;
            } else if command == Command::Uninstall && same_text(arg, "--remove_cdda_dir_only") {
                if remove_cdda_dir_only {
                    return Err(UsageError::RepeatedOption { at });
                }
                remove_cdda_dir_only = true;
                at = at + 1;
            } else {
                return Err(UsageError::UnexpectedArgument { at });
            }
        }
        let release_tag = match tag {
            Some(release_tag) => release_tag,
            None => {
                return Err(UsageError::MissingTag);
            },
        };
        match command {
            Command::Launch => match edition {
                Some(edition) => Ok(Options::Launch { release_tag, edition }),
                None => Err(UsageError::MissingEdition),
            },
            Command::Install => Ok(
                Options::Install { release_tag, download_only, overwrite, edition },
            ),
            Command::Uninstall => match edition {
                Some(edition) => Ok(Options::Uninstall { release_tag, edition, remove_cdda_dir_only }),
                None => Err(UsageError::MissingEdition),
            },
        }
    }
}

/// The argument at position `at`, or nothing where there is none.
pub open spec fn argument_text(args: Seq<Seq<char>>, at: int) -> Seq<char> {
    if 0 <= at < args.len() {
        args[at]
    } else {
        Seq::empty()
    }
}

/// What the user is told when the arguments `args` were not understood.
pub open spec fn usage_text(error: UsageError, args: Seq<Seq<char>>) -> Seq<char> {
    match error {
        UsageError::MissingCommand => "no command was given"@,
        UsageError::UnknownCommand => argument_text(args, 0) + " is no command"@,
        UsageError::UnexpectedArgument { at } => argument_text(args, at as int)
            + " is not expected here"@,
        UsageError::RepeatedOption { at } => argument_text(args, at as int) + " was given twice"@,
        UsageError::MissingValue { at } => argument_text(args, at as int) + " needs a value"@,
        UsageError::MissingTag => "--tag <TAG> is missing"@,
        UsageError::MissingEdition => "--edition <EDITION> is missing"@,
    }
}

impl UsageError {
    /// What to tell the user who gave the arguments `args`.
    pub fn message(&self, args: &Vec<String>) -> (message: String)
        ensures
            message@ == usage_text(*self, texts(args@)),
    {
        match self {
            UsageError::MissingCommand => "no command was given".to_owned(),
            UsageError::UnknownCommand => {
                let mut message = argument(args, 0);
                message.append(" is no command");
                message
            },
            UsageError::UnexpectedArgument { at } => {
                let mut message = argument(args, *at);
                message.append(" is not expected here");
                message
            },
            UsageError::RepeatedOption { at } => {
                let mut message = argument(args, *at);
                message.append(" was given twice");
                message
            },
            UsageError::MissingValue { at } => {
                let mut message = argument(args, *at);
                message.append(" needs a value");
                message
            },
            UsageError::MissingTag => "--tag <TAG> is missing".to_owned(),
            UsageError::MissingEdition => "--edition <EDITION> is missing".to_owned(),
        }
    }
}

/// A copy of the argument at position `at`, or an empty text where there
/// is none.
fn argument(args: &Vec<String>, at: usize) -> (text: String)
    ensures
        text@ == argument_text(texts(args@), at as int),
{
    if at < args.len() {
        args[at].clone()
    } else {
        String::new()
    }
}

} // verus!
