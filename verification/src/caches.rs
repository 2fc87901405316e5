//! Which answers are kept on disk, under which names, and when a kept answer
//! is still good.

use vstd::prelude::*;

use crate::api::{ApiRequest, ApiResponse};
use crate::gateway::AccountId;
use crate::models::{Album, PlaylistItem};
use crate::file_path::{child, FilePath};
use crate::paths::{account_name, AppDirs};
use crate::releases::{has_source, ReleaseArtistSource};
use crate::text::{decimal, digit, has_prefix, join2, join3, number, starts_with};

verus! {

/// For how long a scan's result is shown without a new scan.
pub const NEW_RELEASES_CACHE_FRESH_SECONDS: u64 = 1_800;

/// For how long a scan's result is shown while a new scan runs.
pub const NEW_RELEASES_CACHE_MAX_AGE_SECONDS: u64 = 604_800;

/// Where the result of a scan is kept.
#[derive(Debug, PartialEq, Eq)]
pub struct NewReleasesCacheRequest {
    pub account_id: String,
    pub generation: u64,
    pub force_refresh: bool,
    pub path: FilePath,
}

/// A number for a choice of sources, whatever their order.
pub open spec fn source_mask(sources: Seq<ReleaseArtistSource>) -> nat {
    (if sources.contains(ReleaseArtistSource::FollowedArtists) {
        1nat
    } else {
        0nat
    }) + (if sources.contains(ReleaseArtistSource::SavedAlbums) {
        2nat
    } else {
        0nat
    }) + (if sources.contains(ReleaseArtistSource::LikedSongs) {
        4nat
    } else {
        0nat
    })
}

/// Choices that differ in a source have different numbers.
pub proof fn masks_tell_choices_apart(
    a: Seq<ReleaseArtistSource>,
    b: Seq<ReleaseArtistSource>,
    source: ReleaseArtistSource,
)
    requires
        source_mask(a) == source_mask(b),
    ensures
        a.contains(source) == b.contains(source),
{
    match source {
        ReleaseArtistSource::FollowedArtists => {},
        ReleaseArtistSource::SavedAlbums => {},
        ReleaseArtistSource::LikedSongs => {},
    }
}

fn mask_of(sources: &Vec<ReleaseArtistSource>) -> (mask: u64)
    ensures
        mask == source_mask(sources@),
{
    let followed: u64 = if has_source(sources, ReleaseArtistSource::FollowedArtists) {
        1
    } else {
        0
    };
    let saved: u64 = if has_source(sources, ReleaseArtistSource::SavedAlbums) {
        2
    } else {
        0
    };
    let liked: u64 = if has_source(sources, ReleaseArtistSource::LikedSongs) {
        4
    } else {
        0
    };
    followed + saved + liked
}

/// The name of the file for a scan.
pub open spec fn releases_file(days: nat, mask: nat, minimum_liked_tracks: nat) -> Seq<char> {
    "days-"@ + decimal(days) + "-sources-"@ + decimal(mask) + "-liked-"@ + decimal(
        minimum_liked_tracks,
    ) + ".json"@
}

impl NewReleasesCacheRequest {
    /// Where the result of a request is kept: only of a scan, and only for a
    /// verified account.
    pub fn for_request(dirs: &AppDirs, account: Option<&AccountId>, request: &ApiRequest) -> (r:
        Option<Self>)
        ensures
            r is Some == (*request is NewReleases && account is Some),
            r matches Some(cache) ==> (*request matches ApiRequest::NewReleases {
                days,
                artist_sources,
                minimum_liked_tracks,
                force_refresh,
                generation,
            } && {
                &&& cache.account_id == account->0.id
                &&& cache.generation == generation
                &&& cache.force_refresh == force_refresh
                &&& cache.path@ == child(
                    child(child(dirs.cache@, "new-releases"@), account_name(account->0.id@)),
                    releases_file(
                        days as nat,
                        source_mask(artist_sources@),
                        minimum_liked_tracks as nat,
                    ),
                )
            }),
    {
        match (request, account) {
            (
                ApiRequest::NewReleases {
                    days,
                    artist_sources,
                    minimum_liked_tracks,
                    force_refresh,
                    generation,
                },
                Some(account),
            ) => {
                let first = join3("days-", number(*days as u64).as_str(), "-sources-");
                let second = join3(
                    first.as_str(),
                    number(mask_of(artist_sources)).as_str(),
                    "-liked-",
                );
                let name = join3(
                    second.as_str(),
                    number(*minimum_liked_tracks as u64).as_str(),
                    ".json",
                );
                Some(
                    NewReleasesCacheRequest {
                        account_id: account.id.clone(),
                        generation: *generation,
                        force_refresh: *force_refresh,
                        path: dirs.account_new_releases_cache_dir(account.as_str()).join(
                            name.as_str(),
                        ),
                    },
                )
            },
            _ => None,
        }
    }
}

/// The kept result of a scan.
#[derive(Debug, PartialEq, Eq)]
pub struct CachedNewReleases {
    pub saved_at: u64,
    pub releases: Vec<Album>,
}

/// How old a result is; one from the future is of no age that counts.
pub open spec fn cache_age(saved_at: u64, now: u64) -> Option<u64> {
    if now >= saved_at {
        Some((now - saved_at) as u64)
    } else {
        None
    }
}

/// Whether a result is no older than a bound.
pub open spec fn younger_than(saved_at: u64, now: u64, bound: u64) -> bool {
    match cache_age(saved_at, now) {
        Some(age) => age <= bound,
        None => false,
    }
}

impl CachedNewReleases {
    pub fn age(&self, now: u64) -> (r: Option<u64>)
        ensures
            r == cache_age(self.saved_at, now),
    {
        now.checked_sub(self.saved_at)
    }

    /// Whether the result is shown without a new scan.
    pub fn is_fresh(&self, now: u64) -> (r: bool)
        ensures
            r == younger_than(self.saved_at, now, NEW_RELEASES_CACHE_FRESH_SECONDS),
    {
        match self.age(now) {
            Some(age) => age <= NEW_RELEASES_CACHE_FRESH_SECONDS,
            None => false,
        }
    }

    /// Whether the result is shown at all.
    pub fn is_usable(&self, now: u64) -> (r: bool)
        ensures
            r == younger_than(self.saved_at, now, NEW_RELEASES_CACHE_MAX_AGE_SECONDS),
    {
        match self.age(now) {
            Some(age) => age <= NEW_RELEASES_CACHE_MAX_AGE_SECONDS,
            None => false,
        }
    }
}

/// What is fresh can be shown.
pub proof fn fresh_results_are_usable(saved_at: u64, now: u64)
    requires
        younger_than(saved_at, now, NEW_RELEASES_CACHE_FRESH_SECONDS),
    ensures
        younger_than(saved_at, now, NEW_RELEASES_CACHE_MAX_AGE_SECONDS),
        saved_at <= now,
{
}

/// A kept result that is shown at once.
#[derive(Debug, PartialEq, Eq)]
pub struct CachedAnswer {
    pub releases: Vec<Album>,
    /// Whether a new scan follows.
    pub refreshing: bool,
}

/// What is shown of a kept result, before any scan; `None` when it is missing,
/// unreadable, or too old. A scan follows unless a fresh result is shown to
/// somebody who did not ask for a new one.
pub fn cached_answer(
    force_refresh: bool,
    cached: Option<CachedNewReleases>,
    now: u64,
) -> (r: Option<CachedAnswer>)
    ensures
        r is Some == (cached is Some && younger_than(
            cached->0.saved_at,
            now,
            NEW_RELEASES_CACHE_MAX_AGE_SECONDS,
        )),
        r matches Some(answer) ==> answer.releases == cached->0.releases && answer.refreshing == (
        force_refresh || !younger_than(
            cached->0.saved_at,
            now,
            NEW_RELEASES_CACHE_FRESH_SECONDS,
        )),
{
    match cached {
        Some(cached) => {
            if cached.is_usable(now) {
                let refreshing = force_refresh || !cached.is_fresh(now);
                Some(CachedAnswer { releases: cached.releases, refreshing })
            } else {
                None
            }
        },
        None => None,
    }
}

/// The releases that an answer brings to be kept.
pub fn releases_to_keep(response: &ApiResponse) -> (r: Option<&Vec<Album>>)
    ensures
        match r {
            Some(releases) => *response matches ApiResponse::NewReleases { result, .. } && result
                == Ok::<Vec<Album>, crate::error::ApiError>(*releases),
            None => !(*response is NewReleases && response->NewReleases_result is Ok),
        },
{
    match response {
        ApiResponse::NewReleases { result: Ok(releases), .. } => Some(releases),
        _ => None,
    }
}

// ---- playlists -----------------------------------------------------------------

/// The kept rows of a playlist, good for exactly one snapshot.
#[derive(Debug, PartialEq, Eq)]
pub struct CachedPlaylist {
    pub snapshot: String,
    pub items: Vec<PlaylistItem>,
    /// Missing where whole playlists were kept.
    pub total: Option<u32>,
    /// Where the rows go on, when these are not all.
    pub next_offset: Option<u32>,
}

/// The kept rows of a playlist, as the interface gets them.
#[derive(Debug, PartialEq, Eq)]
pub struct PlaylistCache {
    pub snapshot: String,
    pub items: Vec<PlaylistItem>,
    pub total: u32,
    pub next_offset: Option<u32>,
}

/// How many rows a kept playlist has in all.
pub open spec fn cached_total(total: Option<u32>, items: nat) -> u32 {
    match total {
        Some(total) => total,
        None => if items <= u32::MAX {
            items as u32
        } else {
            u32::MAX
        },
    }
}

/// Whether kept rows agree with their own count.
pub open spec fn rows_agree(total: u32, items: nat, next_offset: Option<u32>) -> bool {
    &&& items <= total
    &&& next_offset matches Some(offset) ==> offset <= total
}

impl CachedPlaylist {
    /// The rows, when they agree with their own count.
    pub fn checked(self) -> (r: Option<PlaylistCache>)
        ensures
            r is Some == rows_agree(
                cached_total(self.total, self.items@.len()),
                self.items@.len(),
                self.next_offset,
            ),
            r matches Some(cache) ==> {
                &&& cache.snapshot == self.snapshot
                &&& cache.items == self.items
                &&& cache.total == cached_total(self.total, self.items@.len())
                &&& cache.next_offset == self.next_offset
            },
    {
        let held: usize = self.items.len();
        let total: u32 = match self.total {
            Some(total) => total,
            None => {
                if held <= u32::MAX as usize {
                    held as u32
                } else {
                    u32::MAX
                }
            },
        };
        if held > total as usize {
            return None;
        }
        match self.next_offset {
            Some(offset) => {
                if offset > total {
                    return None;
                }
            },
            None => {},
        }
        Some(
            PlaylistCache {
                snapshot: self.snapshot,
                items: self.items,
                total,
                next_offset: self.next_offset,
            },
        )
    }

    /// Rows to keep under a snapshot.
    pub fn checkpoint(
        snapshot: String,
        items: Vec<PlaylistItem>,
        total: u32,
        next_offset: Option<u32>,
    ) -> (r: Self)
        ensures
            r.snapshot == snapshot,
            r.items == items,
            r.total == Some(total),
            r.next_offset == next_offset,
    {
        CachedPlaylist { snapshot, items, total: Some(total), next_offset }
    }
}

/// Rows that are kept are read back as they were, when they agree with their
/// own count; the older form without a count counts its rows.
pub proof fn kept_rows_are_read_back(total: u32, items: nat, next_offset: Option<u32>)
    ensures
        cached_total(Some(total), items) == total,
        items <= u32::MAX ==> rows_agree(cached_total(None, items), items, None),
{
}

/// Where the rows of a playlist are kept.
pub fn playlist_cache_path(dirs: &AppDirs, account_id: &str, id: &str) -> (r: FilePath)
    ensures
        r@ == child(child(child(dirs.cache@, "playlists"@), account_id@), id@ + ".json"@),
{
    dirs.account_playlist_cache_dir(account_id).join(join2(id, ".json").as_str())
}

// ---- lyrics ----------------------------------------------------------------------

/// The file of a track's own lyrics.
pub open spec fn lyrics_file_spec(uri: Seq<char>) -> Option<Seq<char>> {
    if has_prefix(uri, "spotify:track:"@) {
        Some("spotify-"@ + uri.skip("spotify:track:"@.len() as int) + ".json"@)
    } else {
        None
    }
}

/// The file of a track's own lyrics; `None` for what is no track.
pub fn lyrics_file(uri: &str) -> (r: Option<String>)
    ensures
        match r {
            Some(name) => lyrics_file_spec(uri@) == Some(name@),
            None => lyrics_file_spec(uri@) is None,
        },
{
    let prefix = "spotify:track:";
    if !starts_with(uri, prefix) {
        return None;
    }
    let from: usize = vstd::string::StrSliceExecFns::unicode_len(prefix);
    let upto: usize = vstd::string::StrSliceExecFns::unicode_len(uri);
    let id = vstd::string::StrSliceExecFns::substring_char(uri, from, upto);
    assert(uri@.subrange(from as int, upto as int) =~= uri@.skip(from as int));
    Some(join3("spotify-", id, ".json"))
}

/// Whose lyrics are asked for.
#[derive(Clone, Copy, Debug, PartialEq, Eq, Structural)]
pub enum LyricsSource {
    /// Spotify's own, kept from before.
    Kept,
    /// Spotify's own, through the streaming session.
    Session,
    /// The public library's.
    Library,
}

/// Whose lyrics are asked for: Spotify's own follow the recording exactly and
/// go first, from disk or through the session; what they do not have, and
/// everything without a session, is the public library's.
pub fn lyrics_source(is_track: bool, kept: Option<bool>, session: bool) -> (r: LyricsSource)
    ensures
        r == if !is_track {
            LyricsSource::Library
        } else {
            match kept {
                Some(true) => LyricsSource::Kept,
                Some(false) => LyricsSource::Library,
                None => if session {
                    LyricsSource::Session
                } else {
                    LyricsSource::Library
                },
            }
        },
{
    if !is_track {
        return LyricsSource::Library;
    }
    match kept {
        Some(found) => {
            if found {
                LyricsSource::Kept
            } else {
                LyricsSource::Library
            }
        },
        None => {
            if session {
                LyricsSource::Session
            } else {
                LyricsSource::Library
            }
        },
    }
}

// ---- a file of its own for every scan --------------------------------------------

proof fn decimal_has_digits(value: nat)
    ensures
        decimal(value).len() > 0,
        forall|i: int| 0 <= i < decimal(value).len() ==> (#[trigger] decimal(value)[i]) != '-',
        forall|i: int| 0 <= i < decimal(value).len() ==> (#[trigger] decimal(value)[i]) != '.',
    decreases value,
{
    if value >= 10 {
        decimal_has_digits(value / 10);
    }
}

proof fn digits_differ(a: nat, b: nat)
    requires
        a < 10,
        b < 10,
        digit(a) == digit(b),
    ensures
        a == b,
{
}

/// Different numbers are spelled differently.
pub proof fn decimals_differ(a: nat, b: nat)
    requires
        decimal(a) == decimal(b),
    ensures
        a == b,
    decreases a + b,
{
    decimal_has_digits(a / 10);
    decimal_has_digits(b / 10);
    if a < 10 && b < 10 {
        assert(decimal(a)[0] == digit(a));
        assert(decimal(b)[0] == digit(b));
        digits_differ(a, b);
    } else if a >= 10 && b >= 10 {
        assert(decimal(a).drop_last() =~= decimal(a / 10));
        assert(decimal(b).drop_last() =~= decimal(b / 10));
        decimals_differ(a / 10, b / 10);
        assert(decimal(a).last() == digit(a % 10));
        assert(decimal(b).last() == digit(b % 10));
        digits_differ(a % 10, b % 10);
    } else if a < 10 {
        assert(decimal(b).len() == decimal(b / 10).len() + 1);
        assert(decimal(a).len() == 1);
    } else {
        assert(decimal(a).len() == decimal(a / 10).len() + 1);
        assert(decimal(b).len() == 1);
    }
}

/// A text up to the first `stop` is the same in both.
proof fn same_up_to_stop(
    a: Seq<char>,
    b: Seq<char>,
    rest_a: Seq<char>,
    rest_b: Seq<char>,
    stop: char,
)
    requires
        a + rest_a == b + rest_b,
        rest_a.len() > 0 && rest_a[0] == stop,
        rest_b.len() > 0 && rest_b[0] == stop,
        forall|i: int| 0 <= i < a.len() ==> (#[trigger] a[i]) != stop,
        forall|i: int| 0 <= i < b.len() ==> (#[trigger] b[i]) != stop,
    ensures
        a == b,
        rest_a == rest_b,
{
    let (p, q) = (a + rest_a, b + rest_b);
    if a.len() < b.len() {
        assert(p[a.len() as int] == stop);
        assert(q[a.len() as int] == b[a.len() as int]);
    } else if b.len() < a.len() {
        assert(q[b.len() as int] == stop);
        assert(p[b.len() as int] == a[b.len() as int]);
    }
    assert forall|i: int| 0 <= i < a.len() implies a[i] == b[i] by {
        assert(p[i] == q[i]);
    }
    assert(a =~= b);
    assert(p.len() == a.len() + rest_a.len());
    assert(q.len() == b.len() + rest_b.len());
    assert forall|i: int| 0 <= i < rest_a.len() implies rest_a[i] == rest_b[i] by {
        assert(p[a.len() + i] == q[a.len() + i]);
    }
    assert(rest_a =~= rest_b);
}

proof fn same_behind(prefix: Seq<char>, a: Seq<char>, b: Seq<char>)
    requires
        prefix + a == prefix + b,
    ensures
        a == b,
{
    assert((prefix + a).skip(prefix.len() as int) =~= a);
    assert((prefix + b).skip(prefix.len() as int) =~= b);
}

proof fn named_apart(
    p: Seq<char>,
    q: Seq<char>,
    r: Seq<char>,
    t: Seq<char>,
    a: (Seq<char>, Seq<char>, Seq<char>),
    b: (Seq<char>, Seq<char>, Seq<char>),
)
    requires
        q.len() > 0 && q[0] == '-',
        r.len() > 0 && r[0] == '-',
        t.len() > 0 && t[0] == '.',
        forall|i: int| 0 <= i < a.0.len() ==> (#[trigger] a.0[i]) != '-',
        forall|i: int| 0 <= i < b.0.len() ==> (#[trigger] b.0[i]) != '-',
        forall|i: int| 0 <= i < a.1.len() ==> (#[trigger] a.1[i]) != '-',
        forall|i: int| 0 <= i < b.1.len() ==> (#[trigger] b.1[i]) != '-',
        forall|i: int| 0 <= i < a.2.len() ==> (#[trigger] a.2[i]) != '.',
        forall|i: int| 0 <= i < b.2.len() ==> (#[trigger] b.2[i]) != '.',
        p + a.0 + q + a.1 + r + a.2 + t == p + b.0 + q + b.1 + r + b.2 + t,
    ensures
        a.0 == b.0,
        a.1 == b.1,
        a.2 == b.2,
{
    let tail_a = r + (a.2 + t);
    let tail_b = r + (b.2 + t);
    let middle_a = q + (a.1 + tail_a);
    let middle_b = q + (b.1 + tail_b);
    assert(p + a.0 + q + a.1 + r + a.2 + t =~= p + (a.0 + middle_a));
    assert(p + b.0 + q + b.1 + r + b.2 + t =~= p + (b.0 + middle_b));
    same_behind(p, a.0 + middle_a, b.0 + middle_b);
    same_up_to_stop(a.0, b.0, middle_a, middle_b, '-');
    same_behind(q, a.1 + tail_a, b.1 + tail_b);
    same_up_to_stop(a.1, b.1, tail_a, tail_b, '-');
    same_behind(r, a.2 + t, b.2 + t);
    same_up_to_stop(a.2, b.2, t, t, '.');
}

/// Scans with a different period, choice of sources, or threshold are kept in
/// different files.
pub proof fn every_scan_has_its_own_file(
    days_a: nat,
    mask_a: nat,
    liked_a: nat,
    days_b: nat,
    mask_b: nat,
    liked_b: nat,
)
    requires
        releases_file(days_a, mask_a, liked_a) == releases_file(days_b, mask_b, liked_b),
    ensures
        days_a == days_b,
        mask_a == mask_b,
        liked_a == liked_b,
{
    reveal_strlit("days-");
    reveal_strlit("-sources-");
    reveal_strlit("-liked-");
    reveal_strlit(".json");
    decimal_has_digits(days_a);
    decimal_has_digits(days_b);
    decimal_has_digits(mask_a);
    decimal_has_digits(mask_b);
    decimal_has_digits(liked_a);
    decimal_has_digits(liked_b);
    named_apart(
        "days-"@,
        "-sources-"@,
        "-liked-"@,
        ".json"@,
        (decimal(days_a), decimal(mask_a), decimal(liked_a)),
        (decimal(days_b), decimal(mask_b), decimal(liked_b)),
    );
    decimals_differ(days_a, days_b);
    decimals_differ(mask_a, mask_b);
    decimals_differ(liked_a, liked_b);
}

} // verus!
