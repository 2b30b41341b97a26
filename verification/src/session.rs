//! One run of the installer, as a machine: it is started with the user's
//! command, names the next thing to do outside (fetch, probe, download,
//! unpack, remove, start the game, save), and goes on when told that the
//! thing was done.

use crate::cli::{Options, OptionsView};
use crate::entities::{
    first_match, first_match_is_unique, is_first_match, ArchiveFilePath, Asset, AssetQuery, AssetQueryView, AssetView, Edition,
    GameEditionDirectoryPath, Platform, ReleaseView, RootDownloadDirectoryPath, SettingsView,
    edition_directory,
};
use crate::github_client::{release_address, GithubClient};
use crate::installation_manager::{AppSettings, CDDARelease};
use crate::paths::{join, joined};
use crate::registry::{
    erased, erasing_keeps_entries_distinct, erasing_removes_exactly_one_entry,
};
use vstd::prelude::*;

verus! {

/// Why a run was given up.
#[derive(Debug)]
pub enum Failure {
    /// No asset has the wanted release tag and edition.
    AssetNotFound { release_tag: String, edition: Edition },
    /// The game's directory, whose name this is, exists already and may not
    /// be overwritten.
    AlreadyInstalled { directory: String },
    /// The run was told of something it was not waiting for.
    UnexpectedEvent,
}

/// What a [`Failure`] holds, as mathematical values.
pub enum FailureView {
    AssetNotFound { release_tag: Seq<char>, edition: Edition },
    AlreadyInstalled { directory: Seq<char> },
    UnexpectedEvent,
}

impl View for Failure {
    type V = FailureView;

    open spec fn view(&self) -> FailureView {
        match self {
            Failure::AssetNotFound { release_tag, edition } => FailureView::AssetNotFound {
                release_tag: release_tag@,
                edition: *edition,
            },
            Failure::AlreadyInstalled { directory } => FailureView::AlreadyInstalled {
                directory: directory@,
            },
            Failure::UnexpectedEvent => FailureView::UnexpectedEvent,
        }
    }
}

/// What has to be done outside before the run can go on.
#[derive(Debug)]
#[allow(inconsistent_fields)]
pub enum Action {
    /// Start the program at this path and wait for it to end.
    Launch { launcher: String },
    /// Fetch the release that this address serves.
    FetchRelease { url: String },
    /// Find out whether this directory exists.
    ProbeDirectory { directory: String },
    /// Create the directory, then download the address into the archive
    /// file.
    Download { directory: GameEditionDirectoryPath, url: String, archive: ArchiveFilePath },
    /// Unpack the asset's archive into the directory.
    Unpack { asset: Asset, archive: ArchiveFilePath, directory: GameEditionDirectoryPath },
    /// Remove this directory and all that is in it.
    RemoveDirectory { directory: String },
    /// Write the settings to their file.
    SaveSettings,
    /// Nothing is left to do.
    Finish,
    /// Give up.
    Abort { failure: Failure },
}

/// What an [`Action`] holds, as mathematical values.
#[allow(inconsistent_fields)]
pub enum ActionView {
    Launch { launcher: Seq<char> },
    FetchRelease { url: Seq<char> },
    ProbeDirectory { directory: Seq<char> },
    Download { directory: Seq<char>, url: Seq<char>, archive: Seq<char> },
    Unpack { asset: AssetView, archive: Seq<char>, directory: Seq<char> },
    RemoveDirectory { directory: Seq<char> },
    SaveSettings,
    Finish,
    Abort { failure: FailureView },
}

impl View for Action {
    type V = ActionView;

    open spec fn view(&self) -> ActionView {
        match self {
            Action::Launch { launcher } => ActionView::Launch { launcher: launcher@ },
            Action::FetchRelease { url } => ActionView::FetchRelease { url: url@ },
            Action::ProbeDirectory { directory } => ActionView::ProbeDirectory {
                directory: directory@,
            },
            Action::Download { directory, url, archive } => ActionView::Download {
                directory: directory@,
                url: url@,
                archive: archive@,
            },
            Action::Unpack { asset, archive, directory } => ActionView::Unpack {
                asset: asset@,
                archive: archive@,
                directory: directory@,
            },
            Action::RemoveDirectory { directory } => ActionView::RemoveDirectory {
                directory: directory@,
            },
            Action::SaveSettings => ActionView::SaveSettings,
            Action::Finish => ActionView::Finish,
            Action::Abort { failure } => ActionView::Abort { failure: failure@ },
        }
    }
}

/// What was done outside.
#[derive(Debug)]
pub enum Event {
    /// The game was started and has ended.
    GameExited,
    /// The release was fetched.
    ReleaseFetched { release: CDDARelease },
    /// The directory was looked for.
    DirectoryProbed { exists: bool },
    /// The archive file is there.
    Downloaded,
    /// The archive was unpacked.
    Unpacked,
    /// The directory is gone.
    DirectoryRemoved,
    /// The settings were written.
    SettingsSaved,
}

/// What an [`Event`] holds, as mathematical values.
pub enum EventView {
    GameExited,
    ReleaseFetched { release: ReleaseView },
    DirectoryProbed { exists: bool },
    Downloaded,
    Unpacked,
    DirectoryRemoved,
    SettingsSaved,
}

impl View for Event {
    type V = EventView;

    open spec fn view(&self) -> EventView {
        match self {
            Event::GameExited => EventView::GameExited,
            Event::ReleaseFetched { release } => EventView::ReleaseFetched { release: release.0@ },
            Event::DirectoryProbed { exists } => EventView::DirectoryProbed { exists: *exists },
            Event::Downloaded => EventView::Downloaded,
            Event::Unpacked => EventView::Unpacked,
            Event::DirectoryRemoved => EventView::DirectoryRemoved,
            Event::SettingsSaved => EventView::SettingsSaved,
        }
    }
}

/// Where a run stands: what it is waiting for.
#[derive(Debug)]
#[allow(inconsistent_fields)]
pub enum Stage {
    /// Waiting for the game to end.
    Launching,
    /// Waiting for the release to install from.
    Fetching {
        root: RootDownloadDirectoryPath,
        release_tag: String,
        edition: Edition,
        download_only: bool,
        overwrite: bool,
    },
    /// Waiting to learn whether the game's directory exists.
    Probing {
        asset: Asset,
        directory: GameEditionDirectoryPath,
        download_only: bool,
        overwrite: bool,
    },
    /// Waiting for the archive.
    Downloading {
        asset: Asset,
        directory: GameEditionDirectoryPath,
        archive: ArchiveFilePath,
        download_only: bool,
    },
    /// Waiting for the archive to be unpacked.
    Unpacking,
    /// Waiting for the directory of this asset to be removed.
    Removing { asset: Asset },
    /// Waiting for the settings to be written.
    Saving,
    /// The run has done what was asked.
    Finished,
    /// The run was given up.
    Aborted,
}

/// What a [`Stage`] holds, as mathematical values.
#[allow(inconsistent_fields)]
pub enum StageView {
    Launching,
    Fetching {
        root: Seq<char>,
        release_tag: Seq<char>,
        edition: Edition,
        download_only: bool,
        overwrite: bool,
    },
    Probing { asset: AssetView, directory: Seq<char>, download_only: bool, overwrite: bool },
    Downloading { asset: AssetView, directory: Seq<char>, archive: Seq<char>, download_only: bool },
    Unpacking,
    Removing { asset: AssetView },
    Saving,
    Finished,
    Aborted,
}

impl View for Stage {
    type V = StageView;

    open spec fn view(&self) -> StageView {
        match self {
            Stage::Launching => StageView::Launching,
            Stage::Fetching { root, release_tag, edition, download_only, overwrite } => {
                StageView::Fetching {
                    root: root@,
                    release_tag: release_tag@,
                    edition: *edition,
                    download_only: *download_only,
                    overwrite: *overwrite,
                }
            },
            Stage::Probing { asset, directory, download_only, overwrite } => StageView::Probing {
                asset: asset@,
                directory: directory@,
                download_only: *download_only,
                overwrite: *overwrite,
            },
            Stage::Downloading { asset, directory, archive, download_only } => {
                StageView::Downloading {
                    asset: asset@,
                    directory: directory@,
                    archive: archive@,
                    download_only: *download_only,
                }
            },
            Stage::Unpacking => StageView::Unpacking,
            Stage::Removing { asset } => StageView::Removing { asset: asset@ },
            Stage::Saving => StageView::Saving,
            Stage::Finished => StageView::Finished,
            Stage::Aborted => StageView::Aborted,
        }
    }
}

/// The lookup of an installed game to launch: it must be a Linux asset of
/// the release and edition.
pub open spec fn launch_query(release_tag: Seq<char>, edition: Edition) -> AssetQueryView {
    AssetQueryView { platform: Some(Platform::Linux), tag: Some(release_tag), edition }
}

/// The lookup of an installed game to remove: every platform counts.
pub open spec fn uninstall_query(release_tag: Seq<char>, edition: Edition) -> AssetQueryView {
    AssetQueryView { platform: None, tag: Some(release_tag), edition }
}

/// The lookup of the asset to install in a fetched release: the Linux asset
/// of the edition.
pub open spec fn install_query(edition: Edition) -> AssetQueryView {
    AssetQueryView { platform: Some(Platform::Linux), tag: None, edition }
}

/// The edition to install: the one asked for, or curses.
pub open spec fn edition_or_default(edition: Option<Edition>) -> Edition {
    match edition {
        Some(edition) => edition,
        None => Edition::Curses,
    }
}

/// The run's first stage and the first thing to do, for the user's command.
pub open spec fn started(settings: SettingsView, cache_directory: Seq<char>, options: OptionsView) -> (
    StageView,
    ActionView,
) {
    match options {
        OptionsView::Launch { release_tag, edition } => match first_match(
            settings.installed_games,
            launch_query(release_tag, edition),
        ) {
            Some(asset) => (
                StageView::Launching,
                ActionView::Launch {
                    launcher: joined(
                        joined(
                            asset.game_edition_directory_path,
                            settings.decompressed_game_directory_path,
                        ),
                        settings.launcher_name,
                    ),
                },
            ),
            None => (
                StageView::Aborted,
                ActionView::Abort { failure: FailureView::AssetNotFound { release_tag, edition } },
            ),
        },
        OptionsView::Install { release_tag, download_only, overwrite, edition } => (
            StageView::Fetching {
                root: joined(cache_directory, settings.root_download_directory_path),
                release_tag,
                edition: edition_or_default(edition),
                download_only,
                overwrite,
            },
            ActionView::FetchRelease {
                url: release_address(
                    settings.upstream_repository.owner_name,
                    settings.upstream_repository.repository_name,
                    release_tag,
                ),
            },
        ),
        OptionsView::Uninstall { release_tag, edition, remove_cdda_dir_only } => match first_match(
            settings.installed_games,
            uninstall_query(release_tag, edition),
        ) {
            Some(asset) => (
                StageView::Removing { asset },
                ActionView::RemoveDirectory {
                    directory: if remove_cdda_dir_only {
                        joined(
                            asset.game_edition_directory_path,
                            settings.decompressed_game_directory_path,
                        )
                    } else {
                        asset.game_edition_directory_path
                    },
                },
            ),
            None => (
                StageView::Aborted,
                ActionView::Abort { failure: FailureView::AssetNotFound { release_tag, edition } },
            ),
        },
    }
}

/// The stage, the settings and the thing to do after `event`, for a run at
/// `stage` with `settings`.
///
/// An event that the stage is not waiting for aborts the run. The settings
/// change in one place only: when the directory of an uninstalled asset is
/// gone, the asset is erased from the installed games.
pub open spec fn stepped(stage: StageView, settings: SettingsView, event: EventView) -> (
    StageView,
    SettingsView,
    ActionView,
) {
    match (stage, event) {
        (StageView::Launching, EventView::GameExited) => (
            StageView::Finished,
            settings,
            ActionView::Finish,
        ),
        (
            StageView::Fetching { root, release_tag, edition, download_only, overwrite },
            EventView::ReleaseFetched { release },
        ) => match first_match(release.assets, install_query(edition)) {
            Some(asset) => (
                StageView::Probing {
                    asset,
                    directory: edition_directory(root, asset),
                    download_only,
                    overwrite,
                },
                settings,
                ActionView::ProbeDirectory {
                    directory: joined(
                        edition_directory(root, asset),
                        settings.decompressed_game_directory_path,
                    ),
                },
            ),
            None => (
                StageView::Aborted,
                settings,
                ActionView::Abort { failure: FailureView::AssetNotFound { release_tag, edition } },
            ),
        },
        (
            StageView::Probing { asset, directory, download_only, overwrite },
            EventView::DirectoryProbed { exists },
        ) => if exists && !overwrite {
            (
                StageView::Aborted,
                settings,
                ActionView::Abort {
                    failure: FailureView::AlreadyInstalled {
                        directory: settings.decompressed_game_directory_path,
                    },
                },
            )
        } else {
            (
                StageView::Downloading {
                    asset,
                    directory,
                    archive: joined(directory, asset.name),
                    download_only,
                },
                settings,
                ActionView::Download {
                    directory,
                    url: asset.url,
                    archive: joined(directory, asset.name),
                },
            )
        },
        (
            StageView::Downloading { asset, directory, archive, download_only },
            EventView::Downloaded,
        ) => if download_only {
            (StageView::Finished, settings, ActionView::Finish)
        } else {
            (StageView::Unpacking, settings, ActionView::Unpack { asset, archive, directory })
        },
        (StageView::Unpacking, EventView::Unpacked) => (
            StageView::Finished,
            settings,
            ActionView::Finish,
        ),
        (StageView::Removing { asset }, EventView::DirectoryRemoved) => (
            StageView::Saving,
            SettingsView { installed_games: erased(settings.installed_games, asset), ..settings },
            ActionView::SaveSettings,
        ),
        (StageView::Saving, EventView::SettingsSaved) => (
            StageView::Finished,
            settings,
            ActionView::Finish,
        ),
        _ => (
            StageView::Aborted,
            settings,
            ActionView::Abort { failure: FailureView::UnexpectedEvent },
        ),
    }
}

/// What the user is told when a run is given up for `failure`.
pub open spec fn failure_text(failure: FailureView) -> Seq<char> {
    match failure {
        FailureView::AssetNotFound { release_tag, edition } => "No asset with release tag of "@
            + release_tag + " and edition of "@ + edition.text() + " was found to uninstall!"@,
        FailureView::AlreadyInstalled { directory } => directory
            + " installation directory already exists and we won't overwrite it!\nRetry with --overwrite flag to force installation directory overwrite.\nAborted for now"@,
        FailureView::UnexpectedEvent => "The installer was told of a step it did not ask for"@,
    }
}

impl Failure {
    /// What to tell the user about the failure.
    pub fn message(&self) -> (message: String)
        ensures
            message@ == failure_text(self@),
    {
        match self {
            Failure::AssetNotFound { release_tag, edition } => {
                let mut message = "No asset with release tag of ".to_owned();
                message.append(release_tag.as_str());
                message.append(" and edition of ");
                let edition = edition.to_string();
                message.append(edition.as_str());
                message.append(" was found to uninstall!");
                message
            },
            Failure::AlreadyInstalled { directory } => {
                let mut message = directory.clone();
                message.append(
                    " installation directory already exists and we won't overwrite it!\nRetry with --overwrite flag to force installation directory overwrite.\nAborted for now",
                );
                message
            },
            Failure::UnexpectedEvent => {
                "The installer was told of a step it did not ask for".to_owned()
            },
        }
    }
}

impl Stage {
    /// Starts a run for the user's command, with the settings as they were
    /// read and the directory in which downloads are kept.
    pub fn start(settings: &AppSettings, cache_directory: &str, options: Options) -> (begun: (
        Stage,
        Action,
    ))
        ensures
            (begun.0@, begun.1@) == started(settings@, cache_directory@, options@),
    {
        match options {
            Options::Launch { release_tag, edition } => {
                let query = AssetQuery {
                    platform: Some(Platform::Linux),
                    tag: Some(release_tag.clone()),
                    edition,
                };
                match settings.0.installed_games.find(&query) {
                    Some(asset) => {
                        let game_directory = join(
                            asset.game_edition_directory_path.as_str(),
                            settings.0.decompressed_game_directory_path.as_str(),
                        );
                        let launcher = join(
                            game_directory.as_str(),
                            settings.0.launcher_name.as_str(),
                        );
                        (Stage::Launching, Action::Launch { launcher })
                    },
                    None => (
                        Stage::Aborted,
                        Action::Abort { failure: Failure::AssetNotFound { release_tag, edition } },
                    ),
                }
            },
            Options::Install { release_tag, download_only, overwrite, edition } => {
                let root = join(
                    cache_directory,
                    settings.0.root_download_directory_path.as_str(),
                );
                let client = GithubClient::new(
                    settings.0.upstream_repository.owner_name.as_str(),
                    settings.0.upstream_repository.repository_name.as_str(),
                );
                let url = client.release_url(release_tag.as_str());
                let edition = match edition {
                    Some(edition) => edition,
                    None => Edition::default(),
                };
                (
                    Stage::Fetching {
                        root: RootDownloadDirectoryPath::new(root.as_str()),
                        release_tag,
                        edition,
                        download_only,
                        overwrite,
                    },
                    Action::FetchRelease { url },
                )
            },
            Options::Uninstall { release_tag, edition, remove_cdda_dir_only } => {
                let query = AssetQuery { platform: None, tag: Some(release_tag.clone()), edition };
                match settings.0.installed_games.find(&query) {
                    Some(asset) => {
                        let directory = if remove_cdda_dir_only {
                            join(
                                asset.game_edition_directory_path.as_str(),
                                settings.0.decompressed_game_directory_path.as_str(),
                            )
                        } else {
                            asset.game_edition_directory_path.as_str().to_owned()
                        };
                        (Stage::Removing { asset }, Action::RemoveDirectory { directory })
                    },
                    None => (
                        Stage::Aborted,
                        Action::Abort { failure: Failure::AssetNotFound { release_tag, edition } },
                    ),
                }
            },
        }
    }

    /// Goes on with the run after `event`: returns the next stage and the
    /// next thing to do, and changes the settings where the step calls for
    /// it.
    pub fn step(self, settings: &mut AppSettings, event: Event) -> (next: (Stage, Action))
        ensures
            (next.0@, final(settings)@, next.1@) == stepped(self@, old(settings)@, event@),
    {
        match (self, event) {
            (Stage::Launching, Event::GameExited) => (Stage::Finished, Action::Finish),
            (
                Stage::Fetching { root, release_tag, edition, download_only, overwrite },
                Event::ReleaseFetched { release },
            ) => {
                match release.0.get_asset(Platform::Linux, edition) {
                    Some(asset) => {
                        let directory = root.to_game_edition_directory_path(&asset);
                        let game_directory = join(
                            directory.as_str(),
                            settings.0.decompressed_game_directory_path.as_str(),
                        );
                        (
                            Stage::Probing { asset, directory, download_only, overwrite },
                            Action::ProbeDirectory { directory: game_directory },
                        )
                    },
                    None => (
                        Stage::Aborted,
                        Action::Abort { failure: Failure::AssetNotFound { release_tag, edition } },
                    ),
                }
            },
            (
                Stage::Probing { asset, directory, download_only, overwrite },
                Event::DirectoryProbed { exists },
            ) => {
                if exists && !overwrite {
                    let name = settings.0.decompressed_game_directory_path.as_str().to_owned();
                    (
                        Stage::Aborted,
                        Action::Abort { failure: Failure::AlreadyInstalled { directory: name } },
                    )
                } else {
                    let archive = join(directory.as_str(), asset.name.as_str());
                    let url = asset.url.clone();
                    (
                        Stage::Downloading {
                            asset,
                            directory: directory.clone(),
                            archive: ArchiveFilePath::new(archive.clone()),
                            download_only,
                        },
                        Action::Download {
                            directory,
                            url,
                            archive: ArchiveFilePath::new(archive),
                        },
                    )
                }
            },
            (
                Stage::Downloading { asset, directory, archive, download_only },
                Event::Downloaded,
            ) => {
                if download_only {
                    (Stage::Finished, Action::Finish)
                } else {
                    (Stage::Unpacking, Action::Unpack { asset, archive, directory })
                }
            },
            (Stage::Unpacking, Event::Unpacked) => (Stage::Finished, Action::Finish),
            (Stage::Removing { asset }, Event::DirectoryRemoved) => {
                let rest = settings.0.installed_games.without(&asset);
                settings.0.installed_games = rest;
                (Stage::Saving, Action::SaveSettings)
            },
            (Stage::Saving, Event::SettingsSaved) => (Stage::Finished, Action::Finish),
            _ => (Stage::Aborted, Action::Abort { failure: Failure::UnexpectedEvent }),
        }
    }
}

/// A step changes the settings only when the directory of an uninstalled
/// asset is gone, and then only the installed games: that asset is erased
/// from them. No asset enters them by a step.
pub proof fn settings_change_only_on_removal(
    stage: StageView,
    settings: SettingsView,
    event: EventView,
)
    ensures
        stepped(stage, settings, event).1 != settings ==> stage is Removing
            && event is DirectoryRemoved,
        stage matches StageView::Removing { asset } ==> (event is DirectoryRemoved ==> stepped(
            stage,
            settings,
            event,
        ).1 == (SettingsView {
            installed_games: erased(settings.installed_games, asset),
            ..settings
        })),
{
}

/// A run that has finished or was given up refuses every event and leaves
/// the settings as they are.
pub proof fn ended_runs_stay_ended(stage: StageView, settings: SettingsView, event: EventView)
    requires
        stage is Finished || stage is Aborted,
    ensures
        stepped(stage, settings, event) == (
            StageView::Aborted,
            settings,
            ActionView::Abort { failure: FailureView::UnexpectedEvent },
        ),
{
}

/// Installed games that are all different stay so after every step.
pub proof fn steps_keep_entries_distinct(stage: StageView, settings: SettingsView, event: EventView)
    requires
        settings.installed_games.no_duplicates(),
    ensures
        stepped(stage, settings, event).1.installed_games.no_duplicates(),
{
    if let StageView::Removing { asset } = stage {
        erasing_keeps_entries_distinct(settings.installed_games, asset);
    }
}

/// Uninstalling removes exactly the matching entry: where the installed
/// games are all different and the first of them with the release tag and
/// edition stands at `at`, the run asks for that asset's directory to be
/// removed, and once it is gone the installed games are the old ones
/// without the entry at `at`, the others untouched and in their order.
pub proof fn uninstall_removes_exactly_the_match(
    settings: SettingsView,
    cache_directory: Seq<char>,
    release_tag: Seq<char>,
    edition: Edition,
    remove_cdda_dir_only: bool,
    at: int,
)
    requires
        settings.installed_games.no_duplicates(),
        is_first_match(settings.installed_games, uninstall_query(release_tag, edition), at),
    ensures
        ({
            let options = OptionsView::Uninstall { release_tag, edition, remove_cdda_dir_only };
            let begun = started(settings, cache_directory, options);
            let after = stepped(begun.0, settings, EventView::DirectoryRemoved);
            &&& begun.0 == StageView::Removing { asset: settings.installed_games[at] }
            &&& after.0 == StageView::Saving
            &&& after.2 == ActionView::SaveSettings
            &&& after.1 == SettingsView {
                installed_games: settings.installed_games.remove(at),
                ..settings
            }
        }),
{
    first_match_is_unique(settings.installed_games, uninstall_query(release_tag, edition));
    erasing_removes_exactly_one_entry(settings.installed_games, at);
}

/// Uninstalling what is not installed changes nothing: the run is given up
/// at once.
pub proof fn uninstall_of_unknown_is_refused(
    settings: SettingsView,
    cache_directory: Seq<char>,
    release_tag: Seq<char>,
    edition: Edition,
    remove_cdda_dir_only: bool,
)
    requires
        first_match(settings.installed_games, uninstall_query(release_tag, edition)) is None,
    ensures
        started(
            settings,
            cache_directory,
            OptionsView::Uninstall { release_tag, edition, remove_cdda_dir_only },
        ) == (
            StageView::Aborted,
            ActionView::Abort { failure: FailureView::AssetNotFound { release_tag, edition } },
        ),
{
}

} // verus!
