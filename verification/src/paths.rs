//! Where Spotifast keeps its files.
//!
//! Configuration, durable non-secret state, and disposable caches live in the
//! platform's conventional directories. Spotify grants use the platform store;
//! the token paths below are kept for migration and clean-up at sign-out.

use vstd::prelude::*;
use vstd::utf8::{
    encode_utf8, encode_utf8_decode_utf8, is_ascii_chars, is_ascii_chars_encode_utf8,
};

use crate::file_path::{
    a_plain_name_stays_below, child, is_separator, lossy_text, place, takes_names, FilePath,
    PathView, Place,
};
use crate::text::join2;

verus! {

/// What the platform says about an application's directories: the bytes of each
/// path.
#[derive(Debug, PartialEq, Eq)]
pub struct ProjectPaths {
    pub config: Vec<u8>,
    pub state: Option<Vec<u8>>,
    pub data_local: Vec<u8>,
    pub cache: Vec<u8>,
}

/// Whether bytes stand one after the other among others.
pub open spec fn has_bytes(bytes: Seq<u8>, part: Seq<u8>) -> bool {
    exists|at: int|
        0 <= at <= bytes.len() - part.len() && #[trigger] bytes.subrange(at, at + part.len())
            == part
}

/// Whether a name is made of small letters.
pub open spec fn plain_name(name: Seq<char>) -> bool {
    forall|i: int| 0 <= i < name.len() ==> 'a' <= #[trigger] name[i] <= 'z'
}

impl ProjectPaths {
    /// Whether every directory has the application's name in it.
    pub open spec fn of_application(self, name: Seq<char>) -> bool {
        &&& has_bytes(self.config@, encode_utf8(name))
        &&& has_bytes(self.data_local@, encode_utf8(name))
        &&& has_bytes(self.cache@, encode_utf8(name))
        &&& (self.state matches Some(state) ==> has_bytes(state@, encode_utf8(name)))
    }
}

/// What an application is known by to the platform.
#[derive(Debug)]
pub struct ProjectNames {
    pub qualifier: String,
    pub organization: String,
    pub application: String,
}

/// What an application of this project is known by to the platform.
pub fn project_names(name: &str) -> (r: ProjectNames)
    ensures
        r.qualifier@ == "me"@,
        r.organization@ == "paolino"@,
        r.application@ == name@,
{
    ProjectNames {
        qualifier: "me".to_owned(),
        organization: "paolino".to_owned(),
        application: name.to_owned(),
    }
}

/// Calls `directories::ProjectDirs::from` and reads the directories off its
/// result, which is `None` for a user without a home. They follow from the
/// user's environment, so which ones they are is not claimed. The claim is
/// that each of them has the application's name in it, where that is made of
/// small letters, which no platform spells otherwise. Each comes as its bytes,
/// so that one that is no text is kept.
#[verifier::external_body]
fn project_dirs(names: &ProjectNames) -> (r: Option<ProjectPaths>)
    ensures
        plain_name(names.application@) ==> (r matches Some(paths) ==> paths.of_application(
            names.application@,
        )),
{
    let (qualifier, organization) = (names.qualifier.as_str(), names.organization.as_str());
    let application = names.application.as_str();
    let dirs = directories::ProjectDirs::from(qualifier, organization, application)?;
    Some(ProjectPaths {
        config: dirs.config_dir().as_os_str().as_encoded_bytes().to_vec(),
        state: dirs.state_dir().map(|path| path.as_os_str().as_encoded_bytes().to_vec()),
        data_local: dirs.data_local_dir().as_os_str().as_encoded_bytes().to_vec(),
        cache: dirs.cache_dir().as_os_str().as_encoded_bytes().to_vec(),
    })
}

/// The digest that `sha2::Sha256` computes.
pub uninterp spec fn sha256_of(bytes: Seq<u8>) -> Seq<u8>;

/// Calls `sha2::Sha256::digest`. The claim is that the digest is a function of
/// the bytes, which `sha256_of` names, and that it has 32 bytes.
#[verifier::external_body]
fn sha256(bytes: &[u8]) -> (digest: Vec<u8>)
    ensures
        digest@ == sha256_of(bytes@),
        digest@.len() == 32,
{
    <sha2::Sha256 as sha2::Digest>::digest(bytes).to_vec()
}

/// A digit of a number to base sixteen.
pub open spec fn hex_digit(value: int) -> char {
    if value < 10 {
        crate::text::digit(value as nat)
    } else if value == 10 {
        'a'
    } else if value == 11 {
        'b'
    } else if value == 12 {
        'c'
    } else if value == 13 {
        'd'
    } else if value == 14 {
        'e'
    } else {
        'f'
    }
}

/// Bytes as text, two digits to base sixteen each.
pub open spec fn hex(bytes: Seq<u8>) -> Seq<char>
    decreases bytes.len(),
{
    if bytes.len() == 0 {
        Seq::empty()
    } else {
        hex(bytes.drop_last()).push(hex_digit(bytes.last() as int / 16)).push(
            hex_digit(bytes.last() as int % 16),
        )
    }
}

fn hex_digit_text(value: u8) -> (r: &'static str)
    requires
        value < 16,
    ensures
        r@ == seq![hex_digit(value as int)],
{
    proof {
        reveal_strlit("0");
        reveal_strlit("1");
        reveal_strlit("2");
        reveal_strlit("3");
        reveal_strlit("4");
        reveal_strlit("5");
        reveal_strlit("6");
        reveal_strlit("7");
        reveal_strlit("8");
        reveal_strlit("9");
        reveal_strlit("a");
        reveal_strlit("b");
        reveal_strlit("c");
        reveal_strlit("d");
        reveal_strlit("e");
        reveal_strlit("f");
    }
    match value {
        0 => "0",
        1 => "1",
        2 => "2",
        3 => "3",
        4 => "4",
        5 => "5",
        6 => "6",
        7 => "7",
        8 => "8",
        9 => "9",
        10 => "a",
        11 => "b",
        12 => "c",
        13 => "d",
        14 => "e",
        _ => "f",
    }
}

/// Bytes as text, two digits to base sixteen each.
pub fn hex_text(bytes: &[u8]) -> (r: String)
    ensures
        r@ == hex(bytes@),
{
    let mut out = String::new();
    let mut i: usize = 0;
    assert(bytes@.take(0) =~= Seq::<u8>::empty());
    while i < bytes.len()
        invariant
            i <= bytes@.len(),
            out@ == hex(bytes@.take(i as int)),
        decreases bytes.len() - i,
    {
        let byte: u8 = bytes[i];
        proof {
            assert(bytes@.take(i + 1).drop_last() =~= bytes@.take(i as int));
            assert(bytes@.take(i + 1).last() == byte);
        }
        out.append(hex_digit_text(byte / 16));
        out.append(hex_digit_text(byte % 16));
        assert(out@ =~= hex(bytes@.take(i + 1)));
        i += 1;
    }
    assert(bytes@.take(i as int) =~= bytes@);
    out
}

proof fn hex_digits_differ(a: int, b: int)
    requires
        0 <= a < 16,
        0 <= b < 16,
        hex_digit(a) == hex_digit(b),
    ensures
        a == b,
{
}

proof fn hex_keeps_bytes_apart(a: Seq<u8>, b: Seq<u8>)
    requires
        hex(a) == hex(b),
    ensures
        a == b,
    decreases a.len() + b.len(),
{
    hex_length(a);
    hex_length(b);
    if a.len() > 0 {
        let (p, q) = (hex(a), hex(b));
        assert(p.drop_last().drop_last() =~= hex(a.drop_last()));
        assert(q.drop_last().drop_last() =~= hex(b.drop_last()));
        hex_keeps_bytes_apart(a.drop_last(), b.drop_last());
        assert(p[p.len() - 1] == q[q.len() - 1]);
        assert(p[p.len() - 2] == q[q.len() - 2]);
        hex_digits_differ(a.last() as int % 16, b.last() as int % 16);
        hex_digits_differ(a.last() as int / 16, b.last() as int / 16);
        assert(a =~= a.drop_last().push(a.last()));
        assert(b =~= b.drop_last().push(b.last()));
    } else {
        assert(a =~= b);
    }
}

/// Two digits stand for each byte.
pub proof fn hex_length(bytes: Seq<u8>)
    ensures
        hex(bytes).len() == 2 * bytes.len(),
    decreases bytes.len(),
{
    if bytes.len() > 0 {
        hex_length(bytes.drop_last());
    }
}

/// The name that stands for an account in a path.
pub open spec fn account_name(account_id: Seq<char>) -> Seq<char> {
    hex(encode_utf8(account_id))
}

fn account_text(account_id: &str) -> (r: String)
    ensures
        r@ == account_name(account_id@),
{
    hex_text(account_id.as_bytes())
}

/// Two accounts never share a name.
pub proof fn account_names_differ(a: Seq<char>, b: Seq<char>)
    requires
        account_name(a) == account_name(b),
    ensures
        a == b,
{
    hex_keeps_bytes_apart(encode_utf8(a), encode_utf8(b));
    encode_utf8_decode_utf8(a);
    encode_utf8_decode_utf8(b);
}

/// A digit or a letter from `a` to `f`.
pub open spec fn plain_name_char(c: char) -> bool {
    ('0' <= c <= '9') || ('a' <= c <= 'f')
}

/// However unusual an account's id, its name is made of digits and letters, so
/// a path with it stays below the directory that it is joined to.
pub proof fn account_names_are_plain(account_id: Seq<char>, i: int)
    requires
        0 <= i < account_name(account_id).len(),
    ensures
        plain_name_char(account_name(account_id)[i]),
{
    hex_is_plain(encode_utf8(account_id), i);
}

/// Whatever an account's id is, what is kept of it stays right below the
/// directory for it.
pub proof fn accounts_stay_below(directory: PathView, account_id: Seq<char>)
    requires
        takes_names(directory),
        account_id.len() > 0,
    ensures
        place(child(directory, account_name(account_id))) == (Place {
            names: place(directory).names.push(encode_utf8(account_name(account_id))),
            ..place(directory)
        }),
{
    let name = account_name(account_id);
    hex_length(encode_utf8(account_id));
    encode_utf8_decode_utf8(account_id);
    if encode_utf8(account_id).len() == 0 {
        assert(encode_utf8(account_id) =~= encode_utf8(Seq::empty()));
        encode_utf8_decode_utf8(Seq::empty());
    }
    assert(is_ascii_chars(name)) by {
        assert forall|i: int| 0 <= i < name.len() implies '\0' <= #[trigger] name[i] <= '\u{7f}' by {
            account_names_are_plain(account_id, i);
        }
    }
    is_ascii_chars_encode_utf8(name);
    let bytes = encode_utf8(name);
    assert forall|i: int| 0 <= i < bytes.len() implies !is_separator(
        directory.style,
        #[trigger] bytes[i],
    ) && bytes[i] != 58 by {
        account_names_are_plain(account_id, i);
        assert(name[i] as u8 == bytes[i]);
    }
    assert(bytes.len() != 1);
    a_plain_name_stays_below(directory, name);
}

proof fn hex_is_plain(bytes: Seq<u8>, i: int)
    requires
        0 <= i < hex(bytes).len(),
    ensures
        plain_name_char(hex(bytes)[i]),
    decreases bytes.len(),
{
    hex_length(bytes);
    hex_length(bytes.drop_last());
    if i < hex(bytes.drop_last()).len() {
        hex_is_plain(bytes.drop_last(), i);
    }
}

/// The three directories of a profile.
#[derive(Debug, PartialEq, Eq)]
pub struct AppDirs {
    pub config: FilePath,
    pub state: FilePath,
    pub cache: FilePath,
}

impl Clone for AppDirs {
    fn clone(&self) -> (r: Self)
        ensures
            r.config@ == self.config@,
            r.state@ == self.state@,
            r.cache@ == self.cache@,
    {
        AppDirs {
            config: self.config.clone(),
            state: self.state.clone(),
            cache: self.cache.clone(),
        }
    }
}

/// Which directories of two profiles exist.
#[derive(Clone, Copy, Debug, PartialEq, Eq, Structural)]
pub struct Existing {
    pub current_config: bool,
    pub current_state: bool,
    pub legacy_config: bool,
    pub legacy_state: bool,
}

impl Existing {
    /// Whether an updater's trial launch runs on the old profile: only that
    /// one exists yet.
    pub open spec fn only_legacy(self) -> bool {
        !self.current_config && !self.current_state && (self.legacy_config || self.legacy_state)
    }
}

/// The name of the application whose profile a launch runs on.
pub open spec fn launch_name(update_trial: bool, existing: Existing) -> Seq<char> {
    if update_trial && existing.only_legacy() {
        "fastpotify"@
    } else {
        "spotifast"@
    }
}

/// What tells whether the profile's identity has to be written down.
#[derive(Clone, Copy, Debug, PartialEq, Eq, Structural)]
pub struct MarkerFacts {
    pub old_state_is_dir: bool,
    pub new_state_exists: bool,
    pub marker_exists: bool,
}

/// A file to write before anything moves.
#[derive(Debug, PartialEq, Eq)]
pub struct Marker {
    /// Where the text is written first.
    pub temporary: FilePath,
    /// What the written file is then renamed to.
    pub target: FilePath,
    pub text: String,
}

/// What stands where a directory would move to.
#[derive(Debug, PartialEq, Eq)]
pub enum Destination {
    /// Anything, a dangling link among it.
    Present,
    Absent,
    Unreadable(String),
}

/// What stands where a directory would move from.
#[derive(Debug, PartialEq, Eq)]
pub enum Source {
    Directory,
    Other,
    Absent,
    Unreadable(String),
}

/// Why a profile could not be moved.
#[derive(Debug, PartialEq, Eq)]
pub enum MigrationError {
    NotADirectory,
    Io(String),
}

impl MigrationError {
    pub open spec fn text(self) -> Seq<char> {
        match self {
            MigrationError::NotADirectory => "The old profile is not a directory"@,
            MigrationError::Io(detail) => detail@,
        }
    }

    pub fn message(&self) -> (r: String)
        ensures
            r@ == self.text(),
    {
        match self {
            MigrationError::NotADirectory => "The old profile is not a directory".to_owned(),
            MigrationError::Io(detail) => detail.clone(),
        }
    }
}

/// One move of a migration.
#[derive(Debug, PartialEq, Eq)]
pub struct Move {
    pub from: FilePath,
    pub to: FilePath,
}

/// Whether moves take a profile's directories to those of another, in the
/// order in which they move.
pub open spec fn moves_profile(moves: Seq<Move>, old: AppDirs, new: AppDirs) -> bool {
    &&& moves.len() == 3
    &&& moves[0].from@ == old.config@ && moves[0].to@ == new.config@
    &&& moves[1].from@ == old.state@ && moves[1].to@ == new.state@
    &&& moves[2].from@ == old.cache@ && moves[2].to@ == new.cache@
}

pub open spec fn migration_step(destination: Destination, source: Source) -> Result<
    bool,
    MigrationError,
> {
    match destination {
        Destination::Present => Ok(false),
        Destination::Unreadable(detail) => Err(MigrationError::Io(detail)),
        Destination::Absent => match source {
            Source::Directory => Ok(true),
            Source::Other => Err(MigrationError::NotADirectory),
            Source::Absent => Ok(false),
            Source::Unreadable(detail) => Err(MigrationError::Io(detail)),
        },
    }
}

/// Whether a directory moves, which it does by a rename that keeps contents
/// and permissions. What stands at the destination always wins and is never
/// merged with.
pub fn migrate_directory(destination: Destination, source: Source) -> (r: Result<
    bool,
    MigrationError,
>)
    ensures
        r == migration_step(destination, source),
{
    match destination {
        Destination::Present => Ok(false),
        Destination::Unreadable(detail) => Err(MigrationError::Io(detail)),
        Destination::Absent => match source {
            Source::Directory => Ok(true),
            Source::Other => Err(MigrationError::NotADirectory),
            Source::Absent => Ok(false),
            Source::Unreadable(detail) => Err(MigrationError::Io(detail)),
        },
    }
}

impl AppDirs {
    /// Whether these are the directories for an application of this name.
    pub open spec fn named(
        self,
        name: Seq<char>,
        project: Option<ProjectPaths>,
        fallback: PathView,
    ) -> bool {
        match project {
            Some(project) => {
                &&& self.config@ == (PathView { raw: project.config@, style: fallback.style })
                &&& self.state@ == (PathView {
                    raw: match project.state {
                        Some(state) => state@,
                        None => project.data_local@,
                    },
                    style: fallback.style,
                })
                &&& self.cache@ == (PathView { raw: project.cache@, style: fallback.style })
            },
            None => {
                &&& self.config@ == child(fallback, name + "-config"@)
                &&& self.state@ == child(fallback, name + "-state"@)
                &&& self.cache@ == child(fallback, name + "-cache"@)
            },
        }
    }

    /// Whether these are directories that the platform names for an
    /// application, or, where it names none, the ones below `fallback`.
    pub open spec fn found_for(self, name: Seq<char>, fallback: PathView) -> bool {
        exists|project: Option<ProjectPaths>| #[trigger]
            self.named(name, project, fallback) && (project matches Some(paths)
                ==> paths.of_application(name))
    }

    /// The directories for an application of this name: the platform's, else
    /// ones below `fallback`, spelled as that is. A platform without a place for
    /// state keeps it with the local data.
    pub fn from_project(name: &str, project: Option<ProjectPaths>, fallback: &FilePath) -> (r: Self)
        ensures
            r.named(name@, project, fallback@),
    {
        match project {
            Some(project) => {
                let style = fallback.style;
                let state = match project.state {
                    Some(state) => state,
                    None => project.data_local,
                };
                AppDirs {
                    config: FilePath { raw: project.config, style },
                    state: FilePath { raw: state, style },
                    cache: FilePath { raw: project.cache, style },
                }
            },
            None => AppDirs {
                config: fallback.join(join2(name, "-config").as_str()),
                state: fallback.join(join2(name, "-state").as_str()),
                cache: fallback.join(join2(name, "-cache").as_str()),
            },
        }
    }

    fn for_name(name: &str, fallback: &FilePath) -> (r: Self)
        requires
            plain_name(name@),
        ensures
            r.found_for(name@, fallback@),
    {
        let project = project_dirs(&project_names(name));
        let dirs = Self::from_project(name, project, fallback);
        assert(dirs.named(name@, project, fallback@));
        dirs
    }

    /// The directories of this application. `fallback` takes their place where
    /// the platform names none.
    pub fn discover(fallback: &FilePath) -> (r: Self)
        ensures
            r.found_for("spotifast"@, fallback@),
    {
        proof {
            reveal_strlit("spotifast");
        }
        Self::for_name("spotifast", fallback)
    }

    /// The directories from before the application was renamed.
    pub fn legacy(fallback: &FilePath) -> (r: Self)
        ensures
            r.found_for("fastpotify"@, fallback@),
    {
        proof {
            reveal_strlit("fastpotify");
        }
        Self::for_name("fastpotify", fallback)
    }

    /// The profile to run on. An updater's trial launch leaves the old profile
    /// where a rollback finds it.
    pub fn select_profile(
        current: Self,
        legacy: Self,
        existing: Existing,
        update_trial: bool,
    ) -> (r: Self)
        ensures
            r == if update_trial && existing.only_legacy() {
                legacy
            } else {
                current
            },
    {
        if update_trial && !existing.current_config && !existing.current_state && (
        existing.legacy_config || existing.legacy_state) {
            legacy
        } else {
            current
        }
    }

    /// The profile for this launch.
    pub fn for_launch(update_trial: bool, existing: Existing, fallback: &FilePath) -> (r: Self)
        ensures
            r.found_for(launch_name(update_trial, existing), fallback@),
    {
        let current = Self::discover(fallback);
        let legacy = Self::legacy(fallback);
        Self::select_profile(current, legacy, existing, update_trial)
    }

    /// Whether this is the profile from before the renaming.
    pub fn is_legacy_profile(&self, legacy: &AppDirs) -> (r: bool)
        ensures
            r == (place(self.state@) == place(legacy.state@)),
    {
        self.state.same(&legacy.state)
    }

    /// The name under which the window's place is remembered.
    pub fn window_profile(&self, legacy: &AppDirs) -> (r: &'static str)
        ensures
            r@ == if place(self.state@) == place(legacy.state@) {
                "fastpotify"@
            } else {
                "spotifast"@
            },
    {
        if self.is_legacy_profile(legacy) {
            "fastpotify"
        } else {
            "spotifast"
        }
    }

    /// Whether the profile's identity has to be written down: it moves, and
    /// was not yet.
    pub open spec fn needs_marker(facts: MarkerFacts) -> bool {
        facts.old_state_is_dir && !facts.new_state_exists && !facts.marker_exists
    }

    /// Whether a file keeps an identity.
    pub open spec fn marks(old: AppDirs, marker: Marker, digest: Seq<u8>) -> bool {
        &&& marker.temporary@ == child(old.state@, "credential-profile.tmp"@)
        &&& marker.target@ == child(old.state@, "credential-profile"@)
        &&& marker.text@ == hex(digest)
    }

    /// The file that keeps an identity whose digest is known.
    pub fn marker_with(old: &AppDirs, facts: MarkerFacts, digest: &[u8]) -> (r: Option<Marker>)
        ensures
            r is Some == Self::needs_marker(facts),
            r matches Some(marker) ==> Self::marks(*old, marker, digest@),
    {
        if facts.old_state_is_dir && !facts.new_state_exists && !facts.marker_exists {
            Some(
                Marker {
                    temporary: old.state.join("credential-profile.tmp"),
                    target: old.state.join("credential-profile"),
                    text: hex_text(digest),
                },
            )
        } else {
            None
        }
    }

    /// The file that keeps the identity under which credentials were stored,
    /// to be written before anything moves. Stored credentials are named after
    /// the old state directory; no credential goes into the file.
    pub fn identity_marker(old: &AppDirs, facts: MarkerFacts) -> (r: Option<Marker>)
        ensures
            r is Some == Self::needs_marker(facts),
            r matches Some(marker) ==> Self::marks(
                *old,
                marker,
                sha256_of(encode_utf8(lossy_text(old.state@.raw))),
            ),
    {
        let text = old.state.text();
        let digest = sha256(text.as_str().as_bytes());
        Self::marker_with(old, facts, digest.as_slice())
    }

    /// Where each directory of an old profile moves to, in the order in which
    /// they move.
    pub fn migrate_from(&self, old: &AppDirs) -> (r: Vec<Move>)
        ensures
            moves_profile(r@, *old, *self),
    {
        vec![
            Move { from: old.config.clone(), to: self.config.clone() },
            Move { from: old.state.clone(), to: self.state.clone() },
            Move { from: old.cache.clone(), to: self.cache.clone() },
        ]
    }

    /// Where each directory of the profile from before the renaming moves to.
    /// Done once no other instance runs, before any state is read.
    pub fn migrate_legacy(&self, fallback: &FilePath) -> (r: Vec<Move>)
        ensures
            exists|old: AppDirs| #[trigger]
                old.found_for("fastpotify"@, fallback@) && moves_profile(r@, old, *self),
    {
        let old = Self::legacy(fallback);
        self.migrate_from(&old)
    }

    pub fn settings_file(&self) -> (r: FilePath)
        ensures
            r@ == child(self.config@, "settings.json"@),
    {
        self.config.join("settings.json")
    }

    /// Winamp skins that the listener has added, as `.wsz` files or folders.
    pub fn skins_dir(&self) -> (r: FilePath)
        ensures
            r@ == child(self.config@, "skins"@),
    {
        self.config.join("skins")
    }

    /// MilkDrop presets, as `.milk` files, in folders or not, with any textures
    /// they use in a `textures` folder inside.
    pub fn milkdrop_dir(&self) -> (r: FilePath)
        ensures
            r@ == child(self.config@, "milkdrop"@),
    {
        self.config.join("milkdrop")
    }

    /// Themes that the listener has added.
    pub fn themes_dir(&self) -> (r: FilePath)
        ensures
            r@ == child(self.config@, "themes"@),
    {
        self.config.join("themes")
    }

    pub fn session_file(&self) -> (r: FilePath)
        ensures
            r@ == child(self.state@, "session.json"@),
    {
        self.state.join("session.json")
    }

    /// What was played here, which Spotify never hears about.
    pub fn history_file(&self) -> (r: FilePath)
        ensures
            r@ == child(self.state@, "history.json"@),
    {
        self.state.join("history.json")
    }

    pub fn shared_web_token_file(&self) -> (r: FilePath)
        ensures
            r@ == child(self.state@, "shared_web_api_token.json"@),
    {
        self.state.join("shared_web_api_token.json")
    }

    pub fn personal_web_token_file(&self) -> (r: FilePath)
        ensures
            r@ == child(self.state@, "personal_web_api_token.json"@),
    {
        self.state.join("personal_web_api_token.json")
    }

    pub fn legacy_web_token_file(&self) -> (r: FilePath)
        ensures
            r@ == child(self.state@, "web_api_token.json"@),
    {
        self.state.join("web_api_token.json")
    }

    /// The log of the current run, replaced at every start.
    pub fn log_file(&self) -> (r: FilePath)
        ensures
            r@ == child(self.state@, "spotifast.log"@),
    {
        self.state.join("spotifast.log")
    }

    /// Where a panic is recorded before the process dies of it.
    pub fn panic_log(&self) -> (r: FilePath)
        ensures
            r@ == child(self.state@, "panic.log"@),
    {
        self.state.join("panic.log")
    }

    pub fn credentials_dir(&self) -> (r: FilePath)
        ensures
            r@ == child(self.state@, "credentials"@),
    {
        self.state.join("credentials")
    }

    /// Optional proxy password, owner-only, never written to the settings.
    pub fn proxy_secret_file(&self) -> (r: FilePath)
        ensures
            r@ == child(self.state@, "proxy_password"@),
    {
        self.state.join("proxy_password")
    }

    pub fn volume_dir(&self) -> (r: FilePath)
        ensures
            r@ == child(self.state@, "volume"@),
    {
        self.state.join("volume")
    }

    pub fn audio_cache_dir(&self) -> (r: FilePath)
        ensures
            r@ == child(self.cache@, "audio"@),
    {
        self.cache.join("audio")
    }

    pub fn art_cache_dir(&self) -> (r: FilePath)
        ensures
            r@ == child(self.cache@, "art"@),
    {
        self.cache.join("art")
    }

    pub fn lyrics_cache_dir(&self) -> (r: FilePath)
        ensures
            r@ == child(self.cache@, "lyrics"@),
    {
        self.cache.join("lyrics")
    }

    pub fn playlist_cache_dir(&self) -> (r: FilePath)
        ensures
            r@ == child(self.cache@, "playlists"@),
    {
        self.cache.join("playlists")
    }

    pub fn account_playlist_cache_dir(&self, account_id: &str) -> (r: FilePath)
        ensures
            r@ == child(child(self.cache@, "playlists"@), account_id@),
    {
        self.playlist_cache_dir().join(account_id)
    }

    pub fn liked_songs_cache_file(&self, account_id: &str) -> (r: FilePath)
        ensures
            r@ == child(
                child(self.cache@, "liked-songs"@),
                account_name(account_id@) + ".json"@,
            ),
    {
        let file = join2(account_text(account_id).as_str(), ".json");
        self.cache.join("liked-songs").join(file.as_str())
    }

    pub fn account_new_releases_cache_dir(&self, account_id: &str) -> (r: FilePath)
        ensures
            r@ == child(child(self.cache@, "new-releases"@), account_name(account_id@)),
    {
        self.cache.join("new-releases").join(account_text(account_id).as_str())
    }

    /// The directories that have to exist, in the order in which they are
    /// made.
    pub fn ensure(&self) -> (r: Vec<FilePath>)
        ensures
            r@.len() == 3,
            r@[0]@ == self.config@,
            r@[1]@ == self.state@,
            r@[2]@ == self.cache@,
    {
        vec![self.config.clone(), self.state.clone(), self.cache.clone()]
    }
}

} // verus!
