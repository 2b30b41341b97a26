//! The data model: platforms, editions, assets, releases and settings.

use crate::paths::{join, joined};
use crate::text::{contains, contains_word, lowercase, same_text, to_lowercase};
use vstd::prelude::*;
use vstd::std_specs::cmp::PartialEqSpecImpl;
use vstd::std_specs::convert::FromSpecImpl;
use vstd::string::*;

verus! {

/// The operating system an archive was built for.
#[derive(Debug, PartialEq, Eq, Clone, Copy, Structural)]
pub enum Platform {
    Linux,
    Unsupported,
}

impl Platform {
    /// The name under which a platform appears in directory paths.
    pub open spec fn text(self) -> Seq<char> {
        match self {
            Platform::Linux => "linux"@,
            Platform::Unsupported => "unsupported-platform"@,
        }
    }

    /// The platform that a lowercased file name stands for: Linux when the
    /// name mentions `linux`, unsupported otherwise.
    pub open spec fn of_lowercase_name(lowered: Seq<char>) -> Platform {
        if contains_word(lowered, "linux"@) {
            Platform::Linux
        } else {
            Platform::Unsupported
        }
    }

    /// The platform that an archive's file name stands for: the one that
    /// its lowercase form stands for.
    pub open spec fn of_archive_name(name: Seq<char>) -> Platform {
        Platform::of_lowercase_name(lowercase(name))
    }

    /// The platform that a file name stands for, given the name in
    /// lowercase.
    pub fn from_lowercase_name(lowered: &str) -> (platform: Platform)
        ensures
            platform == Platform::of_lowercase_name(lowered@),
    {
        if contains(lowered, "linux") {
            Platform::Linux
        } else {
            Platform::Unsupported
        }
    }

    /// The platform's name as text.
    pub fn to_string(&self) -> (text: String)
        ensures
            text@ == self.text(),
    {
        match self {
            Platform::Linux => "linux".to_owned(),
            Platform::Unsupported => "unsupported-platform".to_owned(),
        }
    }
}

impl Default for Platform {
    fn default() -> (platform: Platform)
        ensures
            platform == Platform::Linux,
    {
        Platform::Linux
    }
}

impl FromSpecImpl<&str> for Platform {
    open spec fn obeys_from_spec() -> bool {
        true
    }

    open spec fn from_spec(archive_name: &str) -> Platform {
        Platform::of_archive_name(archive_name@)
    }
}

impl From<&str> for Platform {
    fn from(archive_name: &str) -> (platform: Platform) {
        let lowered = to_lowercase(archive_name);
        Platform::from_lowercase_name(lowered.as_str())
    }
}

impl core::str::FromStr for Platform {
    type Err = core::convert::Infallible;

    fn from_str(s: &str) -> (parsed: Result<Platform, core::convert::Infallible>)
        ensures
            parsed == Ok::<Platform, core::convert::Infallible>(Platform::of_archive_name(s@)),
    {
        Ok(Platform::from(s))
    }
}

/// Which build of the graphical edition an archive holds.
#[derive(Debug, PartialEq, Eq, Clone, Copy, Structural)]
pub enum TilesEdition {
    /// With the CC-Sounds sound pack.
    WithSoundPack,
    /// Without any bundled sound pack.
    WithoutSoundPack,
}

impl TilesEdition {
    /// The name under which a tiles edition appears in directory paths.
    pub open spec fn text(self) -> Seq<char> {
        match self {
            TilesEdition::WithSoundPack => "with-sound-pack"@,
            TilesEdition::WithoutSoundPack => "without-sound-pack"@,
        }
    }

    /// The tiles edition that a lowercased file name stands for: with the
    /// sound pack when the name mentions `sounds`, without it otherwise.
    pub open spec fn of_lowercase_name(lowered: Seq<char>) -> TilesEdition {
        if contains_word(lowered, "sounds"@) {
            TilesEdition::WithSoundPack
        } else {
            TilesEdition::WithoutSoundPack
        }
    }

    /// The tiles edition that an archive's file name stands for: the one
    /// that its lowercase form stands for.
    pub open spec fn of_archive_name(name: Seq<char>) -> TilesEdition {
        TilesEdition::of_lowercase_name(lowercase(name))
    }

    /// The tiles edition that a lowercased word selects: `with-sound-pack`
    /// selects the sound pack, every other word does not.
    pub open spec fn of_lowercase_word(lowered: Seq<char>) -> TilesEdition {
        if lowered == "with-sound-pack"@ {
            TilesEdition::WithSoundPack
        } else {
            TilesEdition::WithoutSoundPack
        }
    }

    /// The tiles edition that a user's word selects: the one that its
    /// lowercase form selects.
    pub open spec fn of_word(word: Seq<char>) -> TilesEdition {
        TilesEdition::of_lowercase_word(lowercase(word))
    }

    /// The tiles edition that a file name stands for, given the name in
    /// lowercase.
    pub fn from_lowercase_name(lowered: &str) -> (edition: TilesEdition)
        ensures
            edition == TilesEdition::of_lowercase_name(lowered@),
    {
        if contains(lowered, "sounds") {
            TilesEdition::WithSoundPack
        } else {
            TilesEdition::WithoutSoundPack
        }
    }

    /// The tiles edition that a user's word selects.
    pub fn from_word(word: &str) -> (edition: TilesEdition)
        ensures
            edition == TilesEdition::of_word(word@),
    {
        let lowered = to_lowercase(word);
        TilesEdition::from_lowercase_word(lowered.as_str())
    }

    /// The tiles edition that a word selects, given the word in lowercase.
    pub fn from_lowercase_word(lowered: &str) -> (edition: TilesEdition)
        ensures
            edition == TilesEdition::of_lowercase_word(lowered@),
    {
        if same_text(lowered, "with-sound-pack") {
            TilesEdition::WithSoundPack
        } else {
            TilesEdition::WithoutSoundPack
        }
    }

    /// The tiles edition's name as text.
    pub fn to_string(&self) -> (text: String)
        ensures
            text@ == self.text(),
    {
        match self {
            TilesEdition::WithSoundPack => "with-sound-pack".to_owned(),
            TilesEdition::WithoutSoundPack => "without-sound-pack".to_owned(),
        }
    }
}

impl Default for TilesEdition {
    fn default() -> (edition: TilesEdition)
        ensures
            edition == TilesEdition::WithSoundPack,
    {
        TilesEdition::WithSoundPack
    }
}

impl FromSpecImpl<&str> for TilesEdition {
    open spec fn obeys_from_spec() -> bool {
        true
    }

    open spec fn from_spec(archive_name: &str) -> TilesEdition {
        TilesEdition::of_archive_name(archive_name@)
    }
}

impl From<&str> for TilesEdition {
    fn from(archive_name: &str) -> (edition: TilesEdition) {
        let lowered = to_lowercase(archive_name);
        TilesEdition::from_lowercase_name(lowered.as_str())
    }
}

impl core::str::FromStr for TilesEdition {
    type Err = core::convert::Infallible;

    fn from_str(s: &str) -> (parsed: Result<TilesEdition, core::convert::Infallible>)
        ensures
            parsed == Ok::<TilesEdition, core::convert::Infallible>(TilesEdition::of_word(s@)),
    {
        Ok(TilesEdition::from_word(s))
    }
}

/// The presentation variant of the game.
#[derive(Debug, PartialEq, Eq, Clone, Copy, Structural)]
pub enum Edition {
    /// The text-mode edition.
    Curses,
    /// The graphical edition.
    Tiles(TilesEdition),
}

impl Edition {
    /// The name under which an edition appears in directory paths.
    pub open spec fn text(self) -> Seq<char> {
        match self {
            Edition::Curses => "curses"@,
            Edition::Tiles(tiles) => "tiles-"@ + tiles.text(),
        }
    }

    /// The edition that a lowercased file name stands for: curses when the
    /// name mentions `curses`, whatever else it mentions; otherwise the
    /// tiles edition that the name stands for.
    pub open spec fn of_lowercase_name(lowered: Seq<char>) -> Edition {
        if contains_word(lowered, "curses"@) {
            Edition::Curses
        } else {
            Edition::Tiles(TilesEdition::of_archive_name(lowered))
        }
    }

    /// The edition that an archive's file name stands for: the one that
    /// its lowercase form stands for.
    pub open spec fn of_archive_name(name: Seq<char>) -> Edition {
        Edition::of_lowercase_name(lowercase(name))
    }

    /// The edition that a lowercased word selects: `curses` selects curses,
    /// every other word the tiles edition that it selects.
    pub open spec fn of_lowercase_word(lowered: Seq<char>) -> Edition {
        if lowered == "curses"@ {
            Edition::Curses
        } else {
            Edition::Tiles(TilesEdition::of_word(lowered))
        }
    }

    /// The edition that a user's word selects: the one that its lowercase
    /// form selects.
    pub open spec fn of_word(word: Seq<char>) -> Edition {
        Edition::of_lowercase_word(lowercase(word))
    }

    /// The edition that a file name stands for, given the name in
    /// lowercase.
    pub fn from_lowercase_name(lowered: &str) -> (edition: Edition)
        ensures
            edition == Edition::of_lowercase_name(lowered@),
    {
        if contains(lowered, "curses") {
            Edition::Curses
        } else {
            Edition::Tiles(TilesEdition::from(lowered))
        }
    }

    /// The edition that a user's word selects.
    pub fn from_word(word: &str) -> (edition: Edition)
        ensures
            edition == Edition::of_word(word@),
    {
        let lowered = to_lowercase(word);
        Edition::from_lowercase_word(lowered.as_str())
    }

    /// The edition that a word selects, given the word in lowercase.
    pub fn from_lowercase_word(lowered: &str) -> (edition: Edition)
        ensures
            edition == Edition::of_lowercase_word(lowered@),
    {
        if same_text(lowered, "curses") {
            Edition::Curses
        } else {
            Edition::Tiles(TilesEdition::from_word(lowered))
        }
    }

    /// The edition's name as text.
    pub fn to_string(&self) -> (text: String)
        ensures
            text@ == self.text(),
    {
        match self {
            Edition::Curses => "curses".to_owned(),
            Edition::Tiles(tiles) => {
                let mut text = "tiles-".to_owned();
                let tail = tiles.to_string();
                text.append(tail.as_str());
                text
            },
        }
    }
}

impl Default for Edition {
    fn default() -> (edition: Edition)
        ensures
            edition == Edition::Curses,
    {
        Edition::Curses
    }
}

impl FromSpecImpl<&str> for Edition {
    open spec fn obeys_from_spec() -> bool {
        true
    }

    open spec fn from_spec(archive_name: &str) -> Edition {
        Edition::of_archive_name(archive_name@)
    }
}

impl From<&str> for Edition {
    fn from(archive_name: &str) -> (edition: Edition) {
        let lowered = to_lowercase(archive_name);
        Edition::from_lowercase_name(lowered.as_str())
    }
}

impl core::str::FromStr for Edition {
    type Err = core::convert::Infallible;

    fn from_str(s: &str) -> (parsed: Result<Edition, core::convert::Infallible>)
        ensures
            parsed == Ok::<Edition, core::convert::Infallible>(Edition::of_word(s@)),
    {
        Ok(Edition::from_word(s))
    }
}

/// An archive stands for Linux when the lowercase form of its name holds
/// `linux`, and for no supported platform otherwise.
pub proof fn platform_follows_the_archive_name(name: Seq<char>)
    ensures
        contains_word(lowercase(name), "linux"@) ==> Platform::of_archive_name(name)
            == Platform::Linux,
        !contains_word(lowercase(name), "linux"@) ==> Platform::of_archive_name(name)
            == Platform::Unsupported,
{
}

/// An archive of the graphical edition has the sound pack when the
/// lowercase form of its name holds `sounds`, and has none otherwise.
pub proof fn sound_pack_follows_the_archive_name(name: Seq<char>)
    ensures
        contains_word(lowercase(name), "sounds"@) ==> TilesEdition::of_archive_name(name)
            == TilesEdition::WithSoundPack,
        !contains_word(lowercase(name), "sounds"@) ==> TilesEdition::of_archive_name(name)
            == TilesEdition::WithoutSoundPack,
{
}

/// An archive whose lowercased name holds `curses` is of the curses
/// edition, whether or not the name holds `sounds` as well; every other
/// archive is of a graphical edition.
pub proof fn curses_comes_before_sounds(name: Seq<char>)
    ensures
        contains_word(lowercase(name), "curses"@) ==> Edition::of_archive_name(name)
            == Edition::Curses,
        !contains_word(lowercase(name), "curses"@) ==> Edition::of_archive_name(name) is Tiles,
{
}

/// The path of a downloaded archive file.
#[derive(Debug)]
pub struct ArchiveFilePath(String);

impl View for ArchiveFilePath {
    type V = Seq<char>;

    closed spec fn view(&self) -> Seq<char> {
        self.0@
    }
}

impl ArchiveFilePath {
    /// Wraps the path of an archive file.
    pub fn new(path: String) -> (wrapped: ArchiveFilePath)
        ensures
            wrapped@ == path@,
    {
        ArchiveFilePath(path)
    }

    /// The wrapped text.
    pub fn as_str(&self) -> (text: &str)
        ensures
            text@ == self@,
    {
        self.0.as_str()
    }
}

impl Clone for ArchiveFilePath {
    fn clone(&self) -> (copy: ArchiveFilePath)
        ensures
            copy@ == self@,
    {
        ArchiveFilePath(self.0.clone())
    }
}

impl PartialEqSpecImpl for ArchiveFilePath {
    open spec fn obeys_eq_spec() -> bool {
        true
    }

    open spec fn eq_spec(&self, other: &ArchiveFilePath) -> bool {
        self@ == other@
    }
}

impl PartialEq for ArchiveFilePath {
    fn eq(&self, other: &ArchiveFilePath) -> (equal: bool) {
        self.0 == other.0
    }
}

impl Default for ArchiveFilePath {
    fn default() -> (wrapped: ArchiveFilePath)
        ensures
            wrapped@ == Seq::<char>::empty(),
    {
        ArchiveFilePath(String::new())
    }
}

impl core::str::FromStr for ArchiveFilePath {
    type Err = core::convert::Infallible;

    fn from_str(s: &str) -> (parsed: Result<ArchiveFilePath, core::convert::Infallible>)
        ensures
            parsed matches Ok(wrapped) && wrapped@ == s@,
    {
        Ok(ArchiveFilePath(s.to_owned()))
    }
}

/// The directory that holds one edition of one release: its archive and its unpacked game.
#[derive(Debug)]
pub struct GameEditionDirectoryPath(String);

impl View for GameEditionDirectoryPath {
    type V = Seq<char>;

    closed spec fn view(&self) -> Seq<char> {
        self.0@
    }
}

impl GameEditionDirectoryPath {
    /// Wraps the path of an edition directory.
    pub fn new(path: &str) -> (wrapped: GameEditionDirectoryPath)
        ensures
            wrapped@ == path@,
    {
        GameEditionDirectoryPath(path.to_owned())
    }

    /// The wrapped text.
    pub fn as_str(&self) -> (text: &str)
        ensures
            text@ == self@,
    {
        self.0.as_str()
    }
}

impl Clone for GameEditionDirectoryPath {
    fn clone(&self) -> (copy: GameEditionDirectoryPath)
        ensures
            copy@ == self@,
    {
        GameEditionDirectoryPath(self.0.clone())
    }
}

impl PartialEqSpecImpl for GameEditionDirectoryPath {
    open spec fn obeys_eq_spec() -> bool {
        true
    }

    open spec fn eq_spec(&self, other: &GameEditionDirectoryPath) -> bool {
        self@ == other@
    }
}

impl PartialEq for GameEditionDirectoryPath {
    fn eq(&self, other: &GameEditionDirectoryPath) -> (equal: bool) {
        self.0 == other.0
    }
}

impl Default for GameEditionDirectoryPath {
    fn default() -> (wrapped: GameEditionDirectoryPath)
        ensures
            wrapped@ == Seq::<char>::empty(),
    {
        GameEditionDirectoryPath(String::new())
    }
}

impl core::str::FromStr for GameEditionDirectoryPath {
    type Err = core::convert::Infallible;

    fn from_str(s: &str) -> (parsed: Result<GameEditionDirectoryPath, core::convert::Infallible>)
        ensures
            parsed matches Ok(wrapped) && wrapped@ == s@,
    {
        Ok(GameEditionDirectoryPath(s.to_owned()))
    }
}

/// The name of the directory, inside an edition directory, into which the game is unpacked.
#[derive(Debug)]
pub struct DecompressedGameDirectoryPath(String);

impl View for DecompressedGameDirectoryPath {
    type V = Seq<char>;

    closed spec fn view(&self) -> Seq<char> {
        self.0@
    }
}

impl DecompressedGameDirectoryPath {
    /// Wraps the name of the unpacked game directory.
    pub fn new(path: &str) -> (wrapped: DecompressedGameDirectoryPath)
        ensures
            wrapped@ == path@,
    {
        DecompressedGameDirectoryPath(path.to_owned())
    }

    /// The wrapped text.
    pub fn as_str(&self) -> (text: &str)
        ensures
            text@ == self@,
    {
        self.0.as_str()
    }
}

impl Clone for DecompressedGameDirectoryPath {
    fn clone(&self) -> (copy: DecompressedGameDirectoryPath)
        ensures
            copy@ == self@,
    {
        DecompressedGameDirectoryPath(self.0.clone())
    }
}

impl PartialEqSpecImpl for DecompressedGameDirectoryPath {
    open spec fn obeys_eq_spec() -> bool {
        true
    }

    open spec fn eq_spec(&self, other: &DecompressedGameDirectoryPath) -> bool {
        self@ == other@
    }
}

impl PartialEq for DecompressedGameDirectoryPath {
    fn eq(&self, other: &DecompressedGameDirectoryPath) -> (equal: bool) {
        self.0 == other.0
    }
}

impl Default for DecompressedGameDirectoryPath {
    fn default() -> (wrapped: DecompressedGameDirectoryPath)
        ensures
            wrapped@ == "CDDA"@,
    {
        DecompressedGameDirectoryPath("CDDA".to_owned())
    }
}

impl core::str::FromStr for DecompressedGameDirectoryPath {
    type Err = core::convert::Infallible;

    fn from_str(s: &str) -> (parsed: Result<DecompressedGameDirectoryPath, core::convert::Infallible>)
        ensures
            parsed matches Ok(wrapped) && wrapped@ == s@,
    {
        Ok(DecompressedGameDirectoryPath(s.to_owned()))
    }
}

/// The file name of the executable that starts the game.
#[derive(Debug)]
pub struct LauncherName(String);

impl View for LauncherName {
    type V = Seq<char>;

    closed spec fn view(&self) -> Seq<char> {
        self.0@
    }
}

impl LauncherName {
    /// Wraps the name of the launcher.
    pub fn new(name: &str) -> (wrapped: LauncherName)
        ensures
            wrapped@ == name@,
    {
        LauncherName(name.to_owned())
    }

    /// The wrapped text.
    pub fn as_str(&self) -> (text: &str)
        ensures
            text@ == self@,
    {
        self.0.as_str()
    }
}

impl Clone for LauncherName {
    fn clone(&self) -> (copy: LauncherName)
        ensures
            copy@ == self@,
    {
        LauncherName(self.0.clone())
    }
}

impl PartialEqSpecImpl for LauncherName {
    open spec fn obeys_eq_spec() -> bool {
        true
    }

    open spec fn eq_spec(&self, other: &LauncherName) -> bool {
        self@ == other@
    }
}

impl PartialEq for LauncherName {
    fn eq(&self, other: &LauncherName) -> (equal: bool) {
        self.0 == other.0
    }
}

impl Default for LauncherName {
    fn default() -> (wrapped: LauncherName)
        ensures
            wrapped@ == "cataclysm-launcher"@,
    {
        LauncherName("cataclysm-launcher".to_owned())
    }
}

impl core::str::FromStr for LauncherName {
    type Err = core::convert::Infallible;

    fn from_str(s: &str) -> (parsed: Result<LauncherName, core::convert::Infallible>)
        ensures
            parsed matches Ok(wrapped) && wrapped@ == s@,
    {
        Ok(LauncherName(s.to_owned()))
    }
}

/// One downloadable archive of a release, for one platform and one edition.
#[derive(Debug)]
pub struct Asset {
    /// The archive's file name.
    pub name: String,
    /// The tag of the release the archive belongs to.
    pub tag: String,
    pub platform: Platform,
    pub edition: Edition,
    /// Where the archive can be downloaded from.
    pub url: String,
    /// Where this edition of this release is, or would be, installed.
    pub game_edition_directory_path: GameEditionDirectoryPath,
}

/// What an [`Asset`] holds, as mathematical values.
pub struct AssetView {
    pub name: Seq<char>,
    pub tag: Seq<char>,
    pub platform: Platform,
    pub edition: Edition,
    pub url: Seq<char>,
    pub game_edition_directory_path: Seq<char>,
}

impl View for Asset {
    type V = AssetView;

    open spec fn view(&self) -> AssetView {
        AssetView {
            name: self.name@,
            tag: self.tag@,
            platform: self.platform,
            edition: self.edition,
            url: self.url@,
            game_edition_directory_path: self.game_edition_directory_path@,
        }
    }
}

/// The asset that a file of a release stands for: its platform and edition
/// are those that its name stands for, and it is installed nowhere yet.
pub open spec fn resolved_asset(name: Seq<char>, tag: Seq<char>, url: Seq<char>) -> AssetView {
    AssetView {
        name,
        tag,
        platform: Platform::of_archive_name(name),
        edition: Edition::of_archive_name(name),
        url,
        game_edition_directory_path: Seq::empty(),
    }
}

impl Asset {
    /// The asset for the file called `name` of the release tagged `tag`,
    /// which can be downloaded from `url`.
    pub fn resolve(name: &str, tag: &str, url: &str) -> (asset: Asset)
        ensures
            asset@ == resolved_asset(name@, tag@, url@),
    {
        Asset {
            name: name.to_owned(),
            tag: tag.to_owned(),
            platform: Platform::from(name),
            edition: Edition::from(name),
            url: url.to_owned(),
            game_edition_directory_path: GameEditionDirectoryPath::default(),
        }
    }
}

impl Clone for Asset {
    fn clone(&self) -> (copy: Asset)
        ensures
            copy@ == self@,
    {
        Asset {
            name: self.name.clone(),
            tag: self.tag.clone(),
            platform: self.platform,
            edition: self.edition,
            url: self.url.clone(),
            game_edition_directory_path: self.game_edition_directory_path.clone(),
        }
    }
}

impl PartialEqSpecImpl for Asset {
    open spec fn obeys_eq_spec() -> bool {
        true
    }

    open spec fn eq_spec(&self, other: &Asset) -> bool {
        self@ == other@
    }
}

impl PartialEq for Asset {
    fn eq(&self, other: &Asset) -> (equal: bool) {
        self.name == other.name && self.tag == other.tag && self.platform == other.platform
            && self.edition == other.edition && self.url == other.url
            && self.game_edition_directory_path == other.game_edition_directory_path
    }
}

impl Default for Asset {
    fn default() -> (asset: Asset)
        ensures
            asset@ == (AssetView {
                name: Seq::empty(),
                tag: Seq::empty(),
                platform: Platform::Linux,
                edition: Edition::Curses,
                url: Seq::empty(),
                game_edition_directory_path: Seq::empty(),
            }),
    {
        Asset {
            name: String::new(),
            tag: String::new(),
            platform: Platform::default(),
            edition: Edition::default(),
            url: String::new(),
            game_edition_directory_path: GameEditionDirectoryPath::default(),
        }
    }
}

/// The directory for the edition and release of `asset` below `root`:
/// `root`, then the platform's name, the release tag and the edition's name.
pub open spec fn edition_directory(root: Seq<char>, asset: AssetView) -> Seq<char> {
    joined(joined(joined(root, asset.platform.text()), asset.tag), asset.edition.text())
}

/// The directory below which every release is downloaded and installed.
#[derive(Debug)]
pub struct RootDownloadDirectoryPath(String);

impl View for RootDownloadDirectoryPath {
    type V = Seq<char>;

    closed spec fn view(&self) -> Seq<char> {
        self.0@
    }
}

impl RootDownloadDirectoryPath {
    /// Wraps the path of a download directory.
    pub fn new(path: &str) -> (wrapped: RootDownloadDirectoryPath)
        ensures
            wrapped@ == path@,
    {
        RootDownloadDirectoryPath(path.to_owned())
    }

    /// The wrapped text.
    pub fn as_str(&self) -> (text: &str)
        ensures
            text@ == self@,
    {
        self.0.as_str()
    }

    /// The directory in which `asset` is installed below this root.
    pub fn to_game_edition_directory_path(&self, asset: &Asset) -> (directory:
        GameEditionDirectoryPath)
        ensures
            directory@ == edition_directory(self@, asset@),
    {
        let platform = asset.platform.to_string();
        let edition = asset.edition.to_string();
        let below_platform = join(self.0.as_str(), platform.as_str());
        let below_tag = join(below_platform.as_str(), asset.tag.as_str());
        let below_edition = join(below_tag.as_str(), edition.as_str());
        GameEditionDirectoryPath(below_edition)
    }
}

impl Clone for RootDownloadDirectoryPath {
    fn clone(&self) -> (copy: RootDownloadDirectoryPath)
        ensures
            copy@ == self@,
    {
        RootDownloadDirectoryPath(self.0.clone())
    }
}

impl PartialEqSpecImpl for RootDownloadDirectoryPath {
    open spec fn obeys_eq_spec() -> bool {
        true
    }

    open spec fn eq_spec(&self, other: &RootDownloadDirectoryPath) -> bool {
        self@ == other@
    }
}

impl PartialEq for RootDownloadDirectoryPath {
    fn eq(&self, other: &RootDownloadDirectoryPath) -> (equal: bool) {
        self.0 == other.0
    }
}

impl Default for RootDownloadDirectoryPath {
    fn default() -> (wrapped: RootDownloadDirectoryPath)
        ensures
            wrapped@ == "cdda-downloads"@,
    {
        RootDownloadDirectoryPath("cdda-downloads".to_owned())
    }
}

/// What a lookup asks of an asset: its edition, and optionally its platform
/// and the tag of its release.
#[derive(Debug)]
pub struct AssetQuery {
    pub platform: Option<Platform>,
    pub tag: Option<String>,
    pub edition: Edition,
}

/// What an [`AssetQuery`] holds, as mathematical values.
pub struct AssetQueryView {
    pub platform: Option<Platform>,
    pub tag: Option<Seq<char>>,
    pub edition: Edition,
}

impl AssetQueryView {
    /// `asset` has everything the query asks for.
    pub open spec fn matches(self, asset: AssetView) -> bool {
        &&& self.platform matches Some(platform) ==> asset.platform == platform
        &&& self.tag matches Some(tag) ==> asset.tag == tag
        &&& asset.edition == self.edition
    }
}

impl View for AssetQuery {
    type V = AssetQueryView;

    open spec fn view(&self) -> AssetQueryView {
        AssetQueryView {
            platform: self.platform,
            tag: match self.tag {
                Some(tag) => Some(tag@),
                None => None,
            },
            edition: self.edition,
        }
    }
}

impl AssetQuery {
    /// Whether `asset` has everything the query asks for.
    pub fn selects(&self, asset: &Asset) -> (selected: bool)
        ensures
            selected == self@.matches(asset@),
    {
        let platform_fits = match &self.platform {
            Some(platform) => asset.platform == *platform,
            None => true,
        };
        let tag_fits = match &self.tag {
            Some(tag) => asset.tag == *tag,
            None => true,
        };
        platform_fits && tag_fits && asset.edition == self.edition
    }
}

/// The views of a sequence of assets, in the same order.
pub open spec fn asset_views(assets: Seq<Asset>) -> Seq<AssetView> {
    assets.map_values(|asset: Asset| asset@)
}

/// `at` is the position of the first of `assets` that `query` matches.
pub open spec fn is_first_match(assets: Seq<AssetView>, query: AssetQueryView, at: int) -> bool {
    &&& 0 <= at < assets.len()
    &&& query.matches(assets[at])
    &&& forall|earlier: int| 0 <= earlier < at ==> !query.matches(#[trigger] assets[earlier])
}

/// None of `assets` is matched by `query`.
pub open spec fn no_match(assets: Seq<AssetView>, query: AssetQueryView) -> bool {
    forall|at: int| 0 <= at < assets.len() ==> !query.matches(#[trigger] assets[at])
}

/// The position of the first of `assets` that `query` matches, if there is
/// one.
pub open spec fn first_match_position(assets: Seq<AssetView>, query: AssetQueryView) -> Option<
    int,
> {
    if exists|at: int| is_first_match(assets, query, at) {
        Some(choose|at: int| is_first_match(assets, query, at))
    } else {
        None
    }
}

/// The first of `assets` that `query` matches, if there is one.
pub open spec fn first_match(assets: Seq<AssetView>, query: AssetQueryView) -> Option<AssetView> {
    match first_match_position(assets, query) {
        Some(at) => Some(assets[at]),
        None => None,
    }
}

/// The first match is found at `at` exactly when `at` is the least position
/// that the query matches, and there is none exactly when nothing matches.
pub proof fn first_match_is_unique(assets: Seq<AssetView>, query: AssetQueryView)
    ensures
        forall|at: int| #[trigger]
            is_first_match(assets, query, at) ==> first_match_position(assets, query) == Some(at),
        no_match(assets, query) <==> first_match_position(assets, query) is None,
{
    assert forall|at: int| #[trigger] is_first_match(assets, query, at) implies
        first_match_position(assets, query) == Some(at) by {
        let chosen = choose|other: int| is_first_match(assets, query, other);
        assert(is_first_match(assets, query, chosen));
        if chosen < at {
            assert(!query.matches(assets[chosen]));
        }
        if at < chosen {
            assert(!query.matches(assets[at]));
        }
    }
    if !no_match(assets, query) {
        least_match_exists(assets, query, assets.len() as int);
    }
}

/// Where one of the first `limit` assets is matched, one of them is the
/// first to be matched.
proof fn least_match_exists(assets: Seq<AssetView>, query: AssetQueryView, limit: int)
    requires
        0 <= limit <= assets.len(),
        exists|at: int| 0 <= at < limit && query.matches(#[trigger] assets[at]),
    ensures
        exists|at: int| is_first_match(assets, query, at),
    decreases limit,
{
    let witness = choose|at: int| 0 <= at < limit && query.matches(#[trigger] assets[at]);
    if exists|at: int| 0 <= at < witness && query.matches(#[trigger] assets[at]) {
        least_match_exists(assets, query, witness);
    } else {
        assert(is_first_match(assets, query, witness));
    }
}

/// A list of assets: those of a release, or those installed on this machine.
#[derive(Debug)]
pub struct ReleaseAssets(pub Vec<Asset>);

impl View for ReleaseAssets {
    type V = Seq<AssetView>;

    open spec fn view(&self) -> Seq<AssetView> {
        asset_views(self.0@)
    }
}

impl ReleaseAssets {
    /// Wraps a list of assets.
    pub fn new(assets: Vec<Asset>) -> (wrapped: ReleaseAssets)
        ensures
            wrapped.0 == assets,
    {
        ReleaseAssets(assets)
    }

    /// The position of the first asset that `query` matches, if any.
    pub fn position(&self, query: &AssetQuery) -> (found: Option<usize>)
        ensures
            match found {
                Some(at) => first_match_position(self@, query@) == Some(at as int),
                None => first_match_position(self@, query@) is None,
            },
    {
        proof {
            first_match_is_unique(self@, query@);
        }
        let mut at: usize = 0;
        while at < self.0.len()
            invariant
                at <= self.0.len(),
                forall|earlier: int|
                    0 <= earlier < at ==> !query@.matches(#[trigger] self@[earlier]),
                forall|at: int| #[trigger]
                    is_first_match(self@, query@, at) ==> first_match_position(self@, query@)
                        == Some(at),
                no_match(self@, query@) <==> first_match_position(self@, query@) is None,
            decreases self.0.len() - at,
        {
            if query.selects(&self.0[at]) {
                assert(is_first_match(self@, query@, at as int));
                return Some(at);
            }
            at = at + 1;
        }
        None
    }

    /// The first asset that `query` matches, if any.
    pub fn find(&self, query: &AssetQuery) -> (found: Option<Asset>)
        ensures
            match found {
                Some(asset) => first_match(self@, query@) == Some(asset@),
                None => first_match(self@, query@) is None,
            },
    {
        match self.position(query) {
            Some(at) => Some(self.0[at].clone()),
            None => None,
        }
    }

    /// Whether an asset equal to `asset` is in the list.
    pub fn contains(&self, asset: &Asset) -> (present: bool)
        ensures
            present == self@.contains(asset@),
    {
        let mut at: usize = 0;
        while at < self.0.len()
            invariant
                at <= self.0.len(),
                forall|earlier: int| 0 <= earlier < at ==> self@[earlier] != asset@,
            decreases self.0.len() - at,
        {
            if self.0[at] == *asset {
                assert(self@[at as int] == asset@);
                return true;
            }
            at = at + 1;
        }
        false
    }
}

impl Clone for ReleaseAssets {
    fn clone(&self) -> (copy: ReleaseAssets)
        ensures
            copy@ == self@,
    {
        let mut assets: Vec<Asset> = Vec::new();
        let mut at: usize = 0;
        while at < self.0.len()
            invariant
                at <= self.0.len(),
                assets.len() == at,
                forall|earlier: int| 0 <= earlier < at ==> assets@[earlier]@ == self@[earlier],
            decreases self.0.len() - at,
        {
            assets.push(self.0[at].clone());
            at = at + 1;
        }
        assert(asset_views(assets@) =~= self@);
        ReleaseAssets(assets)
    }
}

impl PartialEqSpecImpl for ReleaseAssets {
    open spec fn obeys_eq_spec() -> bool {
        true
    }

    open spec fn eq_spec(&self, other: &ReleaseAssets) -> bool {
        self@ == other@
    }
}

impl PartialEq for ReleaseAssets {
    fn eq(&self, other: &ReleaseAssets) -> (equal: bool) {
        if self.0.len() != other.0.len() {
            assert(self@.len() != other@.len());
            return false;
        }
        let mut at: usize = 0;
        while at < self.0.len()
            invariant
                self.0.len() == other.0.len(),
                at <= self.0.len(),
                forall|earlier: int| 0 <= earlier < at ==> self@[earlier] == other@[earlier],
            decreases self.0.len() - at,
        {
            if self.0[at] != other.0[at] {
                assert(self@[at as int] != other@[at as int]);
                return false;
            }
            at = at + 1;
        }
        assert(self@ =~= other@);
        true
    }
}

impl Default for ReleaseAssets {
    fn default() -> (empty: ReleaseAssets)
        ensures
            empty.0@ == Seq::<Asset>::empty(),
    {
        ReleaseAssets(Vec::new())
    }
}

/// A moment in time: the whole seconds since the start of 1970 in UTC, and
/// the nanoseconds that follow them.
#[derive(Debug, PartialEq, Eq, Clone, Copy, Structural)]
pub struct Timestamp {
    pub seconds: i64,
    pub nanoseconds: u32,
}

/// When a release was published, where that is known.
#[derive(Debug, PartialEq, Eq, Clone, Copy, Structural)]
pub struct DateTimePublished(pub Option<Timestamp>);

impl DateTimePublished {
    /// Wraps the time of publication.
    pub fn new(datetime: Option<Timestamp>) -> (wrapped: DateTimePublished)
        ensures
            wrapped.0 == datetime,
    {
        DateTimePublished(datetime)
    }
}

impl Default for DateTimePublished {
    fn default() -> (unknown: DateTimePublished)
        ensures
            unknown.0 == None::<Timestamp>,
    {
        DateTimePublished(None)
    }
}

/// A published version of the game with its downloadable archives.
#[derive(Debug)]
pub struct Release {
    pub name: String,
    pub tag: String,
    pub description: String,
    pub published_at: DateTimePublished,
    pub url: String,
    pub assets: ReleaseAssets,
}

/// What a [`Release`] holds, as mathematical values.
pub struct ReleaseView {
    pub name: Seq<char>,
    pub tag: Seq<char>,
    pub description: Seq<char>,
    pub published_at: Option<Timestamp>,
    pub url: Seq<char>,
    pub assets: Seq<AssetView>,
}

impl View for Release {
    type V = ReleaseView;

    open spec fn view(&self) -> ReleaseView {
        ReleaseView {
            name: self.name@,
            tag: self.tag@,
            description: self.description@,
            published_at: self.published_at.0,
            url: self.url@,
            assets: self.assets@,
        }
    }
}

impl Release {
    /// The first asset of the release for `platform` and `edition`, if it
    /// has one.
    pub fn get_asset(&self, platform: Platform, edition: Edition) -> (found: Option<Asset>)
        ensures
            match found {
                Some(asset) => first_match(
                    self.assets@,
                    AssetQueryView { platform: Some(platform), tag: None, edition },
                ) == Some(asset@),
                None => first_match(
                    self.assets@,
                    AssetQueryView { platform: Some(platform), tag: None, edition },
                ) is None,
            },
    {
        let query = AssetQuery { platform: Some(platform), tag: None, edition };
        self.assets.find(&query)
    }
}

impl PartialEqSpecImpl for Release {
    open spec fn obeys_eq_spec() -> bool {
        true
    }

    open spec fn eq_spec(&self, other: &Release) -> bool {
        self@ == other@
    }
}

impl PartialEq for Release {
    fn eq(&self, other: &Release) -> (equal: bool) {
        self.name == other.name && self.tag == other.tag && self.description == other.description
            && self.published_at == other.published_at && self.url == other.url && self.assets
            == other.assets
    }
}

impl Release {
    /// A release of which nothing is known: no texts, no time, no assets.
    pub open spec fn default_view() -> ReleaseView {
        ReleaseView {
            name: Seq::empty(),
            tag: Seq::empty(),
            description: Seq::empty(),
            published_at: None,
            url: Seq::empty(),
            assets: Seq::empty(),
        }
    }
}

impl Default for Release {
    fn default() -> (release: Release)
        ensures
            release@ == Release::default_view(),
    {
        let release = Release {
            name: String::new(),
            tag: String::new(),
            description: String::new(),
            published_at: DateTimePublished::default(),
            url: String::new(),
            assets: ReleaseAssets::default(),
        };
        assert(release.assets@ =~= Seq::empty());
        release
    }
}

/// The repository on GitHub whose releases are installed.
#[derive(Debug)]
pub struct UpstreamRepository {
    pub owner_name: String,
    pub repository_name: String,
}

/// What an [`UpstreamRepository`] holds, as mathematical values.
pub struct UpstreamRepositoryView {
    pub owner_name: Seq<char>,
    pub repository_name: Seq<char>,
}

impl View for UpstreamRepository {
    type V = UpstreamRepositoryView;

    open spec fn view(&self) -> UpstreamRepositoryView {
        UpstreamRepositoryView {
            owner_name: self.owner_name@,
            repository_name: self.repository_name@,
        }
    }
}

impl Clone for UpstreamRepository {
    fn clone(&self) -> (copy: UpstreamRepository)
        ensures
            copy@ == self@,
    {
        UpstreamRepository {
            owner_name: self.owner_name.clone(),
            repository_name: self.repository_name.clone(),
        }
    }
}

impl PartialEqSpecImpl for UpstreamRepository {
    open spec fn obeys_eq_spec() -> bool {
        true
    }

    open spec fn eq_spec(&self, other: &UpstreamRepository) -> bool {
        self@ == other@
    }
}

impl PartialEq for UpstreamRepository {
    fn eq(&self, other: &UpstreamRepository) -> (equal: bool) {
        self.owner_name == other.owner_name && self.repository_name == other.repository_name
    }
}

impl Default for UpstreamRepository {
    fn default() -> (repository: UpstreamRepository)
        ensures
            repository@ == (UpstreamRepositoryView {
                owner_name: "CleverRaven"@,
                repository_name: "Cataclysm-DDA"@,
            }),
    {
        UpstreamRepository {
            owner_name: "CleverRaven".to_owned(),
            repository_name: "Cataclysm-DDA".to_owned(),
        }
    }
}

/// What the installer remembers between runs.
#[derive(Debug)]
pub struct Settings {
    pub upstream_repository: UpstreamRepository,
    pub root_download_directory_path: RootDownloadDirectoryPath,
    pub decompressed_game_directory_path: DecompressedGameDirectoryPath,
    pub launcher_name: LauncherName,
    /// The assets installed on this machine.
    pub installed_games: ReleaseAssets,
}

/// What a [`Settings`] value holds, as mathematical values.
pub struct SettingsView {
    pub upstream_repository: UpstreamRepositoryView,
    pub root_download_directory_path: Seq<char>,
    pub decompressed_game_directory_path: Seq<char>,
    pub launcher_name: Seq<char>,
    pub installed_games: Seq<AssetView>,
}

impl View for Settings {
    type V = SettingsView;

    open spec fn view(&self) -> SettingsView {
        SettingsView {
            upstream_repository: self.upstream_repository@,
            root_download_directory_path: self.root_download_directory_path@,
            decompressed_game_directory_path: self.decompressed_game_directory_path@,
            launcher_name: self.launcher_name@,
            installed_games: self.installed_games@,
        }
    }
}

impl Settings {
    /// Settings made of the given parts.
    pub fn new(
        target_repository: UpstreamRepository,
        root_download_directory: &str,
        installation_directory: &str,
        launcher_name: &str,
        installed_games: Vec<Asset>,
    ) -> (settings: Settings)
        ensures
            settings@ == (SettingsView {
                upstream_repository: target_repository@,
                root_download_directory_path: root_download_directory@,
                decompressed_game_directory_path: installation_directory@,
                launcher_name: launcher_name@,
                installed_games: asset_views(installed_games@),
            }),
    {
        Settings {
            upstream_repository: target_repository,
            root_download_directory_path: RootDownloadDirectoryPath::new(root_download_directory),
            decompressed_game_directory_path: DecompressedGameDirectoryPath::new(
                installation_directory,
            ),
            launcher_name: LauncherName::new(launcher_name),
            installed_games: ReleaseAssets::new(installed_games),
        }
    }
}

impl Clone for Settings {
    fn clone(&self) -> (copy: Settings)
        ensures
            copy@ == self@,
    {
        Settings {
            upstream_repository: self.upstream_repository.clone(),
            root_download_directory_path: self.root_download_directory_path.clone(),
            decompressed_game_directory_path: self.decompressed_game_directory_path.clone(),
            launcher_name: self.launcher_name.clone(),
            installed_games: self.installed_games.clone(),
        }
    }
}

impl PartialEqSpecImpl for Settings {
    open spec fn obeys_eq_spec() -> bool {
        true
    }

    open spec fn eq_spec(&self, other: &Settings) -> bool {
        self@ == other@
    }
}

impl PartialEq for Settings {
    fn eq(&self, other: &Settings) -> (equal: bool) {
        self.upstream_repository == other.upstream_repository && self.root_download_directory_path
            == other.root_download_directory_path && self.decompressed_game_directory_path
            == other.decompressed_game_directory_path && self.launcher_name == other.launcher_name
            && self.installed_games == other.installed_games
    }
}

impl Settings {
    /// The settings of a fresh installation: the upstream repository of the
    /// game, the usual directory and launcher names, and nothing installed.
    pub open spec fn default_view() -> SettingsView {
        SettingsView {
            upstream_repository: UpstreamRepositoryView {
                owner_name: "CleverRaven"@,
                repository_name: "Cataclysm-DDA"@,
            },
            root_download_directory_path: "cdda-downloads"@,
            decompressed_game_directory_path: "CDDA"@,
            launcher_name: "cataclysm-launcher"@,
            installed_games: Seq::empty(),
        }
    }
}

impl Default for Settings {
    fn default() -> (settings: Settings)
        ensures
            settings@ == Settings::default_view(),
    {
        let settings = Settings {
            upstream_repository: UpstreamRepository::default(),
            root_download_directory_path: RootDownloadDirectoryPath::default(),
            decompressed_game_directory_path: DecompressedGameDirectoryPath::default(),
            launcher_name: LauncherName::default(),
            installed_games: ReleaseAssets::default(),
        };
        assert(settings.installed_games@ =~= Seq::empty());
        settings
    }
}

} // verus!
