use cdda_cat::cli::Options;
use cdda_cat::entities::{
    Asset, DateTimePublished, Edition, GameEditionDirectoryPath, Release, ReleaseAssets, Settings,
    TilesEdition,
};
use cdda_cat::installation_manager::{AppSettings, CDDARelease};
use cdda_cat::session::{Action, Event, Failure, Stage};

const CACHE: &str = "/home/u/.cache/cdda_cat";

fn installed(name: &str, tag: &str, directory: &str) -> Asset {
    let mut asset = Asset::resolve(name, tag, "https://example.org/archive");
    asset.game_edition_directory_path = GameEditionDirectoryPath::new(directory);
    asset
}

fn curses() -> Asset {
    installed("cdda-linux-curses.tar.gz", "0.G", "/cache/linux/0.G/curses")
}

fn tiles() -> Asset {
    installed("cdda-linux-tiles.tar.gz", "0.G", "/cache/linux/0.G/tiles-without-sound-pack")
}

fn windows() -> Asset {
    installed("cdda-windows-curses.zip", "0.F", "/cache/unsupported-platform/0.F/curses")
}

fn settings_with(games: Vec<Asset>) -> AppSettings {
    let mut settings = Settings::default();
    settings.installed_games = ReleaseAssets::new(games);
    AppSettings(settings)
}

fn fetched() -> CDDARelease {
    CDDARelease(Release {
        name: "Gaiman".to_string(),
        tag: "0.G".to_string(),
        description: String::new(),
        published_at: DateTimePublished::default(),
        url: String::new(),
        assets: ReleaseAssets::new(vec![
            Asset::resolve("cdda-android-arm64.apk", "0.G", "https://example.org/apk"),
            Asset::resolve("cdda-windows-curses-x64.zip", "0.G", "https://example.org/wc"),
            Asset::resolve("cdda-linux-curses-x64.tar.gz", "0.G", "https://example.org/lc"),
            Asset::resolve("cdda-linux-tiles-sounds-x64.tar.gz", "0.G", "https://example.org/ls"),
            Asset::resolve("cdda-linux-tiles-x64.tar.gz", "0.G", "https://example.org/lt"),
        ]),
    })
}

fn install(edition: Option<Edition>, download_only: bool, overwrite: bool) -> Options {
    Options::Install { release_tag: "0.G".to_string(), download_only, overwrite, edition }
}

#[test]
fn launch_starts_the_launcher_of_the_installed_game() {
    let settings = settings_with(vec![tiles(), curses()]);
    let options = Options::Launch { release_tag: "0.G".to_string(), edition: Edition::Curses };
    let (stage, action) = Stage::start(&settings, CACHE, options);
    assert!(matches!(stage, Stage::Launching));
    match action {
        Action::Launch { launcher } => {
            assert_eq!(launcher, "/cache/linux/0.G/curses/CDDA/cataclysm-launcher")
        }
        other => panic!("{:?}", other),
    }
    let mut settings = settings;
    let (stage, action) = stage.step(&mut settings, Event::GameExited);
    assert!(matches!(stage, Stage::Finished));
    assert!(matches!(action, Action::Finish));
    assert_eq!(settings, settings_with(vec![tiles(), curses()]));
}

#[test]
fn launch_of_what_is_not_installed_is_given_up() {
    let settings = settings_with(vec![tiles()]);
    let options = Options::Launch { release_tag: "0.G".to_string(), edition: Edition::Curses };
    let (stage, action) = Stage::start(&settings, CACHE, options);
    assert!(matches!(stage, Stage::Aborted));
    match action {
        Action::Abort { failure: Failure::AssetNotFound { release_tag, edition } } => {
            assert_eq!(release_tag, "0.G");
            assert_eq!(edition, Edition::Curses);
        }
        other => panic!("{:?}", other),
    }
}

#[test]
fn launch_looks_for_linux_games_only() {
    let settings = settings_with(vec![windows()]);
    let options = Options::Launch { release_tag: "0.F".to_string(), edition: Edition::Curses };
    let (stage, action) = Stage::start(&settings, CACHE, options);
    assert!(matches!(stage, Stage::Aborted));
    assert!(matches!(action, Action::Abort { failure: Failure::AssetNotFound { .. } }));
}

#[test]
fn install_fetches_probes_downloads_and_unpacks() {
    let mut settings = AppSettings::default();
    let (stage, action) = Stage::start(&settings, CACHE, install(None, false, false));
    match action {
        Action::FetchRelease { url } => assert_eq!(
            url,
            "https://api.github.com/repos/CleverRaven/Cataclysm-DDA/releases/tags/0.G"
        ),
        other => panic!("{:?}", other),
    }
    let (stage, action) = stage.step(&mut settings, Event::ReleaseFetched { release: fetched() });
    match action {
        Action::ProbeDirectory { directory } => assert_eq!(
            directory,
            "/home/u/.cache/cdda_cat/cdda-downloads/linux/0.G/curses/CDDA"
        ),
        other => panic!("{:?}", other),
    }
    let (stage, action) = stage.step(&mut settings, Event::DirectoryProbed { exists: false });
    match action {
        Action::Download { directory, url, archive } => {
            assert_eq!(directory.as_str(), "/home/u/.cache/cdda_cat/cdda-downloads/linux/0.G/curses");
            assert_eq!(url, "https://example.org/lc");
            assert_eq!(
                archive.as_str(),
                "/home/u/.cache/cdda_cat/cdda-downloads/linux/0.G/curses/cdda-linux-curses-x64.tar.gz"
            );
        }
        other => panic!("{:?}", other),
    }
    let (stage, action) = stage.step(&mut settings, Event::Downloaded);
    assert!(matches!(stage, Stage::Unpacking));
    match action {
        Action::Unpack { asset, archive, directory } => {
            assert_eq!(
                asset,
                Asset::resolve("cdda-linux-curses-x64.tar.gz", "0.G", "https://example.org/lc")
            );
            assert_eq!(
                archive.as_str(),
                "/home/u/.cache/cdda_cat/cdda-downloads/linux/0.G/curses/cdda-linux-curses-x64.tar.gz"
            );
            assert_eq!(directory.as_str(), "/home/u/.cache/cdda_cat/cdda-downloads/linux/0.G/curses");
        }
        other => panic!("{:?}", other),
    }
    let (stage, action) = stage.step(&mut settings, Event::Unpacked);
    assert!(matches!(stage, Stage::Finished));
    assert!(matches!(action, Action::Finish));
    assert_eq!(settings, AppSettings::default());
}

#[test]
fn install_takes_the_linux_asset_of_the_edition() {
    let mut settings = AppSettings::default();
    let wanted = Some(Edition::Tiles(TilesEdition::WithoutSoundPack));
    let (stage, _) = Stage::start(&settings, CACHE, install(wanted, false, false));
    let (_, action) = stage.step(&mut settings, Event::ReleaseFetched { release: fetched() });
    match action {
        Action::ProbeDirectory { directory } => assert_eq!(
            directory,
            "/home/u/.cache/cdda_cat/cdda-downloads/linux/0.G/tiles-without-sound-pack/CDDA"
        ),
        other => panic!("{:?}", other),
    }
    let wanted = Some(Edition::Tiles(TilesEdition::WithSoundPack));
    let (stage, _) = Stage::start(&settings, CACHE, install(wanted, false, false));
    let (stage, _) = stage.step(&mut settings, Event::ReleaseFetched { release: fetched() });
    let (_, action) = stage.step(&mut settings, Event::DirectoryProbed { exists: false });
    match action {
        Action::Download { url, .. } => assert_eq!(url, "https://example.org/ls"),
        other => panic!("{:?}", other),
    }
}

#[test]
fn install_without_a_matching_asset_is_given_up() {
    let mut settings = AppSettings::default();
    let (stage, _) = Stage::start(&settings, CACHE, install(None, false, false));
    let release = CDDARelease(Release {
        assets: ReleaseAssets::new(vec![
            Asset::resolve("cdda-windows-curses-x64.zip", "0.G", "https://example.org/wc"),
            Asset::resolve("cdda-linux-tiles-x64.tar.gz", "0.G", "https://example.org/lt"),
        ]),
        ..Release::default()
    });
    let (stage, action) = stage.step(&mut settings, Event::ReleaseFetched { release });
    assert!(matches!(stage, Stage::Aborted));
    match action {
        Action::Abort { failure } => {
            assert_eq!(
                failure.message(),
                "No asset with release tag of 0.G and edition of curses was found to uninstall!"
            );
            assert!(matches!(failure, Failure::AssetNotFound { edition: Edition::Curses, .. }));
        }
        other => panic!("{:?}", other),
    }
}

#[test]
fn install_does_not_overwrite_unasked() {
    let mut settings = AppSettings::default();
    let (stage, _) = Stage::start(&settings, CACHE, install(None, false, false));
    let (stage, _) = stage.step(&mut settings, Event::ReleaseFetched { release: fetched() });
    let (stage, action) = stage.step(&mut settings, Event::DirectoryProbed { exists: true });
    assert!(matches!(stage, Stage::Aborted));
    match action {
        Action::Abort { failure } => {
            assert_eq!(
                failure.message(),
                "CDDA installation directory already exists and we won't overwrite it!\nRetry with --overwrite flag to force installation directory overwrite.\nAborted for now"
            );
            match failure {
                Failure::AlreadyInstalled { directory } => assert_eq!(directory, "CDDA"),
                other => panic!("{:?}", other),
            }
        }
        other => panic!("{:?}", other),
    }
}

#[test]
fn install_overwrites_when_asked() {
    let mut settings = AppSettings::default();
    let (stage, _) = Stage::start(&settings, CACHE, install(None, false, true));
    let (stage, _) = stage.step(&mut settings, Event::ReleaseFetched { release: fetched() });
    let (stage, action) = stage.step(&mut settings, Event::DirectoryProbed { exists: true });
    assert!(matches!(stage, Stage::Downloading { .. }));
    assert!(matches!(action, Action::Download { .. }));
}

#[test]
fn download_only_ends_after_the_download() {
    let mut settings = AppSettings::default();
    let (stage, _) = Stage::start(&settings, CACHE, install(None, true, false));
    let (stage, _) = stage.step(&mut settings, Event::ReleaseFetched { release: fetched() });
    let (stage, _) = stage.step(&mut settings, Event::DirectoryProbed { exists: false });
    let (stage, action) = stage.step(&mut settings, Event::Downloaded);
    assert!(matches!(stage, Stage::Finished));
    assert!(matches!(action, Action::Finish));
}

#[test]
fn uninstall_removes_the_edition_directory_and_the_entry() {
    let mut settings = settings_with(vec![windows(), curses(), tiles()]);
    let options = Options::Uninstall {
        release_tag: "0.G".to_string(),
        edition: Edition::Curses,
        remove_cdda_dir_only: false,
    };
    let (stage, action) = Stage::start(&settings, CACHE, options);
    match action {
        Action::RemoveDirectory { directory } => assert_eq!(directory, "/cache/linux/0.G/curses"),
        other => panic!("{:?}", other),
    }
    assert_eq!(settings, settings_with(vec![windows(), curses(), tiles()]));
    let (stage, action) = stage.step(&mut settings, Event::DirectoryRemoved);
    assert!(matches!(stage, Stage::Saving));
    assert!(matches!(action, Action::SaveSettings));
    assert_eq!(settings, settings_with(vec![windows(), tiles()]));
    let (stage, action) = stage.step(&mut settings, Event::SettingsSaved);
    assert!(matches!(stage, Stage::Finished));
    assert!(matches!(action, Action::Finish));
    assert_eq!(settings, settings_with(vec![windows(), tiles()]));
}

#[test]
fn uninstall_can_remove_the_game_directory_only() {
    let settings = settings_with(vec![curses()]);
    let options = Options::Uninstall {
        release_tag: "0.G".to_string(),
        edition: Edition::Curses,
        remove_cdda_dir_only: true,
    };
    let (_, action) = Stage::start(&settings, CACHE, options);
    match action {
        Action::RemoveDirectory { directory } => {
            assert_eq!(directory, "/cache/linux/0.G/curses/CDDA")
        }
        other => panic!("{:?}", other),
    }
}

#[test]
fn uninstall_takes_any_platform() {
    let mut settings = settings_with(vec![windows(), curses()]);
    let options = Options::Uninstall {
        release_tag: "0.F".to_string(),
        edition: Edition::Curses,
        remove_cdda_dir_only: false,
    };
    let (stage, _) = Stage::start(&settings, CACHE, options);
    let _ = stage.step(&mut settings, Event::DirectoryRemoved);
    assert_eq!(settings, settings_with(vec![curses()]));
}

#[test]
fn uninstall_of_what_is_not_installed_is_given_up() {
    let settings = settings_with(vec![tiles()]);
    let options = Options::Uninstall {
        release_tag: "0.G".to_string(),
        edition: Edition::Curses,
        remove_cdda_dir_only: false,
    };
    let (stage, action) = Stage::start(&settings, CACHE, options);
    assert!(matches!(stage, Stage::Aborted));
    assert!(matches!(action, Action::Abort { failure: Failure::AssetNotFound { .. } }));
}

#[test]
fn an_event_nobody_waits_for_aborts_the_run() {
    let mut settings = settings_with(vec![curses()]);
    let (stage, _) = Stage::start(&settings, CACHE, install(None, false, false));
    let (stage, action) = stage.step(&mut settings, Event::Unpacked);
    assert!(matches!(stage, Stage::Aborted));
    match action {
        Action::Abort { failure } => {
            assert!(matches!(failure, Failure::UnexpectedEvent));
            assert_eq!(failure.message(), "The installer was told of a step it did not ask for");
        }
        other => panic!("{:?}", other),
    }
    let (stage, action) = Stage::Finished.step(&mut settings, Event::GameExited);
    assert!(matches!(stage, Stage::Aborted));
    assert!(matches!(action, Action::Abort { failure: Failure::UnexpectedEvent }));
    let (stage, _) = Stage::Unpacking.step(&mut settings, Event::DirectoryRemoved);
    assert!(matches!(stage, Stage::Aborted));
    assert_eq!(settings, settings_with(vec![curses()]));
}
