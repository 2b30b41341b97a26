//! Unpacking an archive: where its entries go, and how the installation is
//! remembered afterwards.

use crate::entities::{
    Asset, AssetView, DecompressedGameDirectoryPath, GameEditionDirectoryPath, SettingsView,
};
use crate::installation_manager::AppSettings;
use crate::paths::{join, joined, joined_all};
use crate::registry::{recorded, recording_keeps_entries_distinct, recording_twice_adds_nothing};
use crate::text::texts;
use vstd::prelude::*;
use vstd::std_specs::cmp::PartialEqSpecImpl;

verus! {

/// Where an archive entry is unpacked: below the unpacked game's directory,
/// which lies in the edition directory, at the entry's own path without its
/// first component.
pub open spec fn unpacked_path(
    directory: Seq<char>,
    decompressed: Seq<char>,
    components: Seq<Seq<char>>,
) -> Seq<char> {
    if components.len() == 0 {
        joined(directory, decompressed)
    } else {
        joined_all(joined(directory, decompressed), components.subrange(1, components.len() as int))
    }
}

/// The settings after `asset` has been installed into `directory`: the
/// asset, with that directory as its own, is recorded among the installed
/// games.
pub open spec fn installed(settings: SettingsView, asset: AssetView, directory: Seq<char>) -> SettingsView {
    SettingsView {
        installed_games: recorded(
            settings.installed_games,
            AssetView { game_edition_directory_path: directory, ..asset },
        ),
        ..settings
    }
}

/// Installing the same asset into the same directory a second time leaves
/// the settings as the first time left them, and installed games that were
/// all different stay so.
pub proof fn installing_twice_records_once(
    settings: SettingsView,
    asset: AssetView,
    directory: Seq<char>,
)
    ensures
        installed(installed(settings, asset, directory), asset, directory) == installed(
            settings,
            asset,
            directory,
        ),
        settings.installed_games.no_duplicates() ==> installed(
            settings,
            asset,
            directory,
        ).installed_games.no_duplicates(),
{
    let placed = AssetView { game_edition_directory_path: directory, ..asset };
    recording_twice_adds_nothing(settings.installed_games, placed);
    if settings.installed_games.no_duplicates() {
        recording_keeps_entries_distinct(settings.installed_games, placed);
    }
}

/// An asset whose archive is being unpacked.
#[derive(Debug)]
pub struct ArchiveAsset(pub Asset);

impl View for ArchiveAsset {
    type V = AssetView;

    open spec fn view(&self) -> AssetView {
        self.0@
    }
}

impl PartialEqSpecImpl for ArchiveAsset {
    open spec fn obeys_eq_spec() -> bool {
        true
    }

    open spec fn eq_spec(&self, other: &ArchiveAsset) -> bool {
        self@ == other@
    }
}

impl PartialEq for ArchiveAsset {
    fn eq(&self, other: &ArchiveAsset) -> (equal: bool) {
        self.0 == other.0
    }
}

impl ArchiveAsset {
    /// Wraps the asset whose archive is to be unpacked.
    pub fn new(asset: Asset) -> (wrapped: ArchiveAsset)
        ensures
            wrapped.0 == asset,
    {
        ArchiveAsset(asset)
    }

    /// The path at which the archive entry with the path components
    /// `components` is unpacked.
    pub fn entry_destination(
        game_edition_directory_path: &GameEditionDirectoryPath,
        decompressed_game_directory_path: &DecompressedGameDirectoryPath,
        components: &Vec<String>,
    ) -> (destination: String)
        ensures
            destination@ == unpacked_path(
                game_edition_directory_path@,
                decompressed_game_directory_path@,
                texts(components@),
            ),
    {
        let mut destination = join(
            game_edition_directory_path.as_str(),
            decompressed_game_directory_path.as_str(),
        );
        if components.len() == 0 {
            return destination;
        }
        let ghost base = destination@;
        let ghost parts = texts(components@);
        let mut at: usize = 1;
        assert(parts.subrange(1, 1) =~= Seq::<Seq<char>>::empty());
        while at < components.len()
            invariant
                1 <= at <= components.len(),
                parts == texts(components@),
                destination@ == joined_all(base, parts.subrange(1, at as int)),
            decreases components.len() - at,
        {
            assert(parts.subrange(1, at + 1).drop_last() =~= parts.subrange(1, at as int));
            assert(parts.subrange(1, at + 1).last() == components@[at as int]@);
            destination = join(destination.as_str(), components[at].as_str());
            at = at + 1;
        }
        destination
    }

    /// Remembers that the asset was unpacked into `game_edition_directory_path`:
    /// the asset takes that directory as its own and is recorded among the
    /// installed games, unless an equal asset is recorded there already.
    /// Says whether the settings changed.
    pub fn record_installation(
        &mut self,
        settings: &mut AppSettings,
        game_edition_directory_path: &GameEditionDirectoryPath,
    ) -> (changed: bool)
        ensures
            final(self).0@ == (AssetView {
                game_edition_directory_path: game_edition_directory_path@,
                ..old(self).0@
            }),
            final(settings)@ == installed(
                old(settings)@,
                old(self).0@,
                game_edition_directory_path@,
            ),
            changed == (final(settings)@ != old(settings)@),
    {
        self.0.game_edition_directory_path = game_edition_directory_path.clone();
        let installed = self.0.clone();
        settings.0.installed_games.record(installed)
    }
}

} // verus!
