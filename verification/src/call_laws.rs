//! What single calls leave behind, of the worker, the sessions, and the walks.

use vstd::prelude::*;

use crate::album_types::{AlbumTypeLookup, AlbumTypeRequest};
use crate::api::{ApiRequest, ApiResponse};
use crate::client::{ApiClient, DuplicateWalk, QueueBatch};
use crate::credentials::{
    has_word, Ledger, Lease, Refresh, Renewal, Slot, StoredToken, TokenProvider, WebTokens,
};
use crate::error::{ApiError, ApiResult, ApiSource};
use crate::events::{Command, Effect, Event, Message, Notice, PlaybackCredentials, Secret};
use crate::exchange::{answers, handle, over_session, settle, Failure, Reply, SessionAnswer};
use crate::file_path::{child, place, FilePath, Manner, PathStyle, PathView};
use crate::gateway::{AccountId, Gateway, PlaylistAccess, SessionState};
use crate::models::{
    Album, Artist, CursorPage, Page, Playlist, PlaylistItem, SavedAlbum, SavedTrack, Track, User,
};
use crate::paths::AppDirs;
use crate::release_library::{library_request, Collecting, LibraryAsk, Pages};
use crate::release_order::ordered;
use crate::release_scan::{collect_artists, AlbumWalk, FollowedWalk, ReleaseScan, TrackWalk};
use crate::release_view::{
    count_line, source_page, submitted, LibraryPage, PageContent, ReleaseGroup,
};
use crate::releases::{
    date_text, release_cutoff, release_horizon, ReleaseArtistSource, ReleaseScanPhase,
    ReleaseScanProgress,
};
use crate::request::{Body, HttpRequest, PlayRequest};
use crate::scan_laws::is_credited;
use crate::sending::{Action, Happened, Next, Sending, Stage};
use crate::sets::{with_all_is_a_union, TextSet};
use crate::tasks::{Verdict, Verification};
use crate::text::{decimal, text_below};
use crate::transport::{Cooldown, Framing, Method, NetActivity};
use crate::worker::{playback_account_matches, Worker};
use crate::worker_model::{Live, Outcome};

verus! {

// ---- the worker ---------------------------------------------------------------------

/// What a worker does with a command is what is stated of its state: of its own fields, and
/// of everything it has done outside.
pub proof fn a_worker_does_what_is_stated(
    worker: &mut Worker,
    command: Command,
    live: Live,
    effects: Vec<Effect>,
)
    requires
        call_ensures(Worker::run, (worker, command, live), effects),
    ensures
        ({
            let after = Outcome::start(old(worker)@).step(command, live);
            &&& effects@ == after.effects
            &&& final(worker).credentials == after.state.credentials
            &&& final(worker).sign_in == after.state.sign_in
            &&& final(worker).playback == after.state.playback
            &&& final(worker).network == after.state.network
            &&& final(worker).tasks == after.state.tasks
            &&& final(worker).api.shared == after.state.shared
            &&& final(worker).api.personal == after.state.personal
            &&& final(worker).waiting_for_proxy@ == after.state.waiting
            &&& final(worker).search_tasks@ == after.state.searches
            &&& final(worker).reconnects@ == after.state.drops
            &&& final(worker).scopes@ == after.state.scopes
        }),
        ({
            let before = old(worker)@;
            &&& before.credentials == old(worker).credentials
            &&& before.sign_in == old(worker).sign_in
            &&& before.playback == old(worker).playback
            &&& before.network == old(worker).network
            &&& before.shared == old(worker).api.shared
            &&& before.personal == old(worker).api.personal
            &&& before.searches == old(worker).search_tasks@
            &&& before.scopes == old(worker).scopes@
        }),
{
}

/// The proxy that an engine is given is noted, and nothing else changes; a restart begins
/// with reading the proxy's password.
pub proof fn a_worker_notes_what_it_is_told(
    worker: &mut Worker,
    proxy: Option<String>,
    restored: &mut Worker,
    lease: Lease,
)
    requires
        call_ensures(Worker::engine_started, (worker, proxy), ()),
        call_ensures(Worker::restore_session, (restored,), lease),
    ensures
        final(worker).playback.engine_proxy == proxy,
        final(worker).playback.engine == old(worker).playback.engine,
        final(worker).sign_in == old(worker).sign_in,
        final(restored).network.restoring_proxy,
        final(restored).network.network_error == old(restored).network.network_error,
        final(restored).sign_in == old(restored).sign_in,
        lease == (Lease { slot: Slot::Proxy, epoch: old(restored).credentials.proxy }),
{
    let (a, b) = (final(restored)@, old(restored)@);
    assert(a.sign_in == b.sign_in);
    assert(a.network == final(restored).network);
    let (c, d) = (final(worker)@, old(worker)@);
    assert(c.sign_in == d.sign_in && c.playback == final(worker).playback);
}

// ---- the sessions -------------------------------------------------------------------

/// A session becomes ready for an account, unless the other one is another account's: then
/// nothing changes.
pub proof fn a_session_is_installed_for_one_account(
    api: &mut Gateway,
    account: AccountId,
    held: AccountId,
    installed: bool,
)
    requires
        call_ensures(Gateway::install, (api, ApiSource::Shared, account), installed),
    ensures
        !(old(api).personal is Ready) ==> installed,
        old(api).personal == (SessionState::Ready { account: held }) ==> installed == (held.id@
            == account.id@),
        installed ==> final(api).shared == (SessionState::Ready { account }),
        !installed ==> final(api).shared == old(api).shared,
        final(api).personal == old(api).personal,
        final(api).access == old(api).access,
{
}

/// The same for the personal application.
pub proof fn a_personal_session_is_installed_for_one_account(
    api: &mut Gateway,
    account: AccountId,
    held: AccountId,
    installed: bool,
)
    requires
        call_ensures(Gateway::install, (api, ApiSource::Personal, account), installed),
    ensures
        !(old(api).shared is Ready) ==> installed,
        old(api).shared == (SessionState::Ready { account: held }) ==> installed == (held.id@
            == account.id@),
        installed ==> final(api).personal == (SessionState::Ready { account }),
        !installed ==> final(api).personal == old(api).personal,
        final(api).shared == old(api).shared,
{
}

/// Clearing a session leaves the other one alone; clearing all forgets the playlists, too.
pub proof fn sessions_are_cleared(
    one: &mut Gateway,
    all: &mut Gateway,
    source: ApiSource,
    id: Seq<char>,
)
    requires
        call_ensures(Gateway::clear, (one, source), ()),
        call_ensures(Gateway::clear_all, (all,), ()),
    ensures
        source == ApiSource::Shared ==> final(one).shared is Unavailable && final(one).personal
            == old(one).personal,
        source == ApiSource::Personal ==> final(one).personal is Unavailable && final(one).shared
            == old(one).shared,
        final(one).access == old(one).access,
        final(all).shared is Unavailable && final(all).personal is Unavailable,
        final(all).access.of(id) == PlaylistAccess::Unknown,
{
}

/// The end of a request gives its answer, and leaves the sessions as they are.
pub proof fn a_request_ends_with_its_answer(
    api: &mut Gateway,
    request: ApiRequest,
    account: Option<AccountId>,
    reply: Reply,
    r: Option<(ApiResponse, Option<ApiSource>)>,
    response: ApiResponse,
)
    requires
        call_ensures(handle, (api, request, account, reply), r),
    ensures
        r matches Some((told, _)) ==> answers(request, reply, account, told),
        answers(request, reply, account, response) ==> r is Some,
        final(api).shared == old(api).shared,
        final(api).personal == old(api).personal,
{
}

// ---- tokens and leases --------------------------------------------------------------

/// A grant whose account is known is stored from then on, at once while it counts.
pub proof fn a_known_grant_is_remembered(
    tokens: &mut WebTokens,
    ledger: Ledger,
    store: Option<StoredToken>,
)
    requires
        call_ensures(WebTokens::remember, (tokens, &ledger), store),
    ensures
        final(tokens).remember,
        final(tokens).token == old(tokens).token,
        ledger.holds(old(tokens).lease) ==> store == Some(old(tokens).token),
        !ledger.holds(old(tokens).lease) ==> store is None,
{
}

/// A renewed token is held, given out, and stored when the account is known.
pub proof fn a_renewed_token_is_used(
    tokens: &mut WebTokens,
    ledger: Ledger,
    updated: StoredToken,
    force: bool,
    expired: bool,
    r: Renewal,
)
    requires
        call_ensures(
            WebTokens::renewed,
            (tokens, &ledger, Refresh::Renewed(updated), force, expired),
            r,
        ),
        ledger.holds(old(tokens).lease),
    ensures
        r.answer == ApiResult::<String>::Ok(updated.access_token),
        final(tokens).token == updated,
        old(tokens).remember ==> r.store == Some(updated),
        !old(tokens).remember ==> r.store is None,
        final(tokens).lease == old(tokens).lease,
{
}

/// A fresh grant gives its token; one that was withdrawn asks for a new sign-in.
pub proof fn a_token_is_given_while_it_counts(
    tokens: WebTokens,
    ledger: Ledger,
    r: Result<Option<String>, ApiError>,
    aging: Result<Option<String>, ApiError>,
)
    requires
        call_ensures(WebTokens::access_token, (&tokens, &ledger, false, false), r),
        call_ensures(WebTokens::access_token, (&tokens, &ledger, false, true), aging),
    ensures
        ledger.holds(tokens.lease) ==> r == Result::<Option<String>, ApiError>::Ok(
            Some(tokens.token.access_token),
        ) && aging == Result::<Option<String>, ApiError>::Ok(None),
        !ledger.holds(tokens.lease) ==> r == Result::<Option<String>, ApiError>::Err(
            ApiError::SignInExpired { api_source: tokens.source },
        ),
{
}

/// Withdrawing a slot makes its lease stale, and no other; withdrawing what is Spotify's
/// leaves the proxy's.
pub proof fn leases_are_withdrawn(
    ledger: &mut Ledger,
    slot: Slot,
    lease: Lease,
    all: &mut Ledger,
)
    requires
        call_ensures(Ledger::invalidate, (ledger, slot), ()),
        call_ensures(Ledger::revoke_spotify, (all,), ()),
        old(ledger).spare(1),
        old(all).spare(1),
    ensures
        old(ledger).holds(lease) ==> final(ledger).holds(lease) == (lease.slot != slot),
        old(all).holds(lease) ==> final(all).holds(lease) == (lease.slot == Slot::Proxy),
{
}

/// An answer about the account ends the asking, and a passing trouble waits longer each time.
pub proof fn a_verification_goes_on(
    known: &mut Verification,
    troubled: &mut Verification,
    user: User,
    detail: String,
    current: bool,
    told: Verdict,
    wait: Verdict,
)
    requires
        call_ensures(Verification::answered, (known, Ok(user), current), told),
        call_ensures(
            Verification::answered,
            (troubled, Err(ApiError::Network(detail)), current),
            wait,
        ),
        old(troubled).wait_s <= 60,
    ensures
        told == Verdict::Report(
            Command::WebVerified {
                source: old(known).source,
                token: old(known).token,
                user,
                lease: old(known).lease,
                attempt: old(known).attempt,
            },
        ),
        wait == (Verdict::Wait { seconds: old(troubled).wait_s }),
        final(troubled).wait_s == if old(troubled).wait_s <= 30 {
            old(troubled).wait_s * 2
        } else {
            60
        },
        final(troubled).token == old(troubled).token,
{
}

// ---- requests under way -------------------------------------------------------------

/// A request sets out for its address, when somebody is signed in, with its body framed as
/// what it is.
pub proof fn a_request_sets_out(client: ApiClient, request: HttpRequest, r: ApiResult<Sending>)
    requires
        call_ensures(Sending::start, (&client, &request), r),
        request.path@.len() > 0,
        request.path@[0] == '/',
    ensures
        client.tokens is None ==> r == ApiResult::<Sending>::Err(ApiError::NotSignedIn),
        client.tokens is Some ==> (r matches Ok(sending) && sending.address@
            == "https://api.spotify.com/v1"@ + request.path@ && sending.stage == Stage::Place
            && sending.delivery.attempt == 1 && sending.delivery.method == request.method
            && sending.delivery.queue_write == (request.method == Method::Post && request.path@
            == "/me/player/queue"@) && sending.framing == (match request.body {
            Body::Jpeg(_) => Framing::Jpeg,
            Body::Json(_) => Framing::Json,
            Body::Empty => if request.method == Method::Get {
                Framing::Bare
            } else {
                Framing::EmptyLength
            },
        })),
{
    reveal_strlit("http");
    if crate::text::has_prefix(request.path@, "http"@) {
        assert(request.path@.take("http"@.len() as int)[0] == "http"@[0]);
    }
}

/// What happens to a request moves it on as is stated, and what it was not waiting for does
/// nothing.
pub proof fn a_request_moves_on(
    sending: &mut Sending,
    cooldown: &mut Cooldown,
    happened: Happened,
    now_ms: u64,
    r: Option<Action>,
)
    requires
        call_ensures(Sending::step, (sending, cooldown, happened, now_ms), r),
    ensures
        match old(sending).turn(*old(cooldown), happened, now_ms) {
            Some(turn) => final(sending).stage == turn.stage && final(sending).delivery
                == turn.delivery && *final(cooldown) == turn.cooldown
                    && (turn.next matches Next::Do(
                action,
            ) ==> r == Some(action)),
            None => r is None && *final(sending) == *old(sending)
                && *final(cooldown) == *old(cooldown),
        },
        final(sending).address == old(sending).address,
{
}

/// A session is held back until the later of two times, and for as long as is left of it.
pub proof fn a_session_is_held_back(
    cooldown: &mut Cooldown,
    now_ms: u64,
    wait_ms: u128,
    at_ms: u64,
    left: Option<u128>,
)
    requires
        call_ensures(Cooldown::extend, (cooldown, now_ms, wait_ms), ()),
        now_ms + wait_ms <= u128::MAX,
        call_ensures(Cooldown::remaining, (final(cooldown), at_ms), left),
    ensures
        final(cooldown).until_ms == if old(cooldown).until_ms >= now_ms + wait_ms {
            old(cooldown).until_ms as int
        } else {
            now_ms + wait_ms
        },
        at_ms < now_ms + wait_ms ==> (
            left matches Some(ms) && at_ms + ms == final(cooldown).until_ms
        ),
        at_ms > final(cooldown).until_ms ==> left is None,
{
}

/// The client is busy from the first request of a burst to the last.
pub proof fn traffic_is_counted(
    activity: &mut NetActivity,
    ended: &mut NetActivity,
    now_ms: u64,
    busy: bool,
    later_ms: u64,
    long_ms: u64,
)
    requires
        call_ensures(NetActivity::begin, (activity, now_ms), ()),
        call_ensures(NetActivity::end, (ended,), ()),
        call_ensures(NetActivity::busy, (final(activity), later_ms, long_ms), busy),
        old(activity).requests() == 0,
        old(ended).requests() > 0,
        later_ms >= now_ms,
    ensures
        final(activity).requests() == 1,
        final(ended).requests() == old(ended).requests() - 1,
        busy == (later_ms - now_ms >= long_ms),
{
}

// ---- songs for the queue, and songs that are there already --------------------------

/// Songs are appended one after the other, in their order, each once; the first failure
/// ends it.
pub proof fn a_batch_goes_song_by_song(
    batch: &mut QueueBatch,
    client: ApiClient,
    next: Option<HttpRequest>,
    end: Option<(usize, ApiResult<()>)>,
    result: ApiResult<()>,
)
    requires
        call_ensures(QueueBatch::next_append, (old(batch), &client), next),
        call_ensures(QueueBatch::appended, (batch, result), end),
        old(batch).added < old(batch).uris@.len(),
    ensures
        next matches Some(request) && request.method == Method::Post && request.path@
            == "/me/player/queue"@ && request@.query.last() == (
            "uri"@,
            old(batch).uris@[old(batch).added as int]@,
        ),
        result is Ok ==> final(batch).added == old(batch).added + 1,
        result is Err ==> final(batch).added == old(batch).added && end == Some(
            (old(batch).added, result),
        ),
        result is Ok && old(batch).added + 1 < old(batch).uris@.len() ==> end is None,
        result is Ok && old(batch).added + 1 == old(batch).uris@.len() ==> end == Some(
            (final(batch).added, ApiResult::<()>::Ok(())),
        ),
        final(batch).uris == old(batch).uris,
{
}

/// A playlist is read on while a song is missing and there is more of it.
pub proof fn a_playlist_is_read_on(
    walk: &mut DuplicateWalk,
    page: Page<PlaylistItem>,
    more: bool,
)
    requires
        call_ensures(DuplicateWalk::add_page, (walk, &page), more),
    ensures
        final(walk).pages@ == old(walk).pages@.push(page),
        final(walk).uris == old(walk).uris,
        page.next is None ==> !more,
        page.next is Some && page.offset + page.limit <= u32::MAX && final(walk).found.list().len()
            != old(walk).wanted.list().len() ==> more && final(walk).offset == page.offset
            + page.limit,
{
}

// ---- the scan -----------------------------------------------------------------------

/// An artist's albums are read on while there are more; the recent ones of each page are kept.
pub proof fn an_artists_albums_are_read_on(
    walk: &mut AlbumWalk,
    page: Page<Album>,
    cutoff: &str,
    tomorrow: &str,
    more: bool,
    i: int,
)
    requires
        call_ensures(AlbumWalk::add_page, (walk, page, cutoff, tomorrow), more),
        0 <= i < page.items@.len(),
    ensures
        page.items@[i].release_date matches Some(date) ==> (!text_below(date@, cutoff@)
            && !text_below(tomorrow@, date@) ==> final(walk).found@.contains(page.items@[i])),
        page.next is Some && old(walk).offset < page.offset + page.limit <= u32::MAX ==> more
            && final(walk).offset == page.offset + page.limit,
        page.next is None ==> !more,
{
    crate::scan_laws::every_recent_album_is_kept(
        page.items@,
        cutoff@,
        tomorrow@,
        i,
        page.items@[i],
    );
    let kept = crate::release_scan::recent_albums(page.items@, cutoff@, tomorrow@);
    if kept.contains(page.items@[i]) {
        let k = kept.index_of(page.items@[i]);
        assert(final(walk).found@[old(walk).found@.len() + k] == page.items@[i]);
    }
}

/// An artist's albums are asked for in all groups, from where the last page ended.
pub proof fn an_artists_albums_are_asked_for(walk: AlbumWalk, client: ApiClient, r: HttpRequest)
    requires
        call_ensures(AlbumWalk::next_page, (&walk, &client), r),
        client.artist_albums_limit >= 50,
    ensures
        r.method == Method::Get,
        r.path@ == "/artists/"@ + walk.artist_id@ + "/albums"@,
        r@.query == seq![
            ("include_groups"@, "album,single,compilation,appears_on"@),
            ("limit"@, decimal(50)),
            ("offset"@, decimal(walk.offset as nat)),
        ],
{
    assert(r@.query =~= seq![
        ("include_groups"@, "album,single,compilation,appears_on"@),
        ("limit"@, decimal(50)),
        ("offset"@, decimal(walk.offset as nat)),
    ]);
}

/// The songs of an album are put together from all of its pages, in their order.
pub proof fn an_albums_songs_are_put_together(
    walk: &mut TrackWalk,
    page: Page<Track>,
    held: Page<Track>,
)
    requires
        call_ensures(TrackWalk::add_page, (walk, page), ()),
    ensures
        old(walk).tracks is None ==> final(walk).tracks == Some(page),
        old(walk).tracks == Some(held) ==> (final(walk).tracks matches Some(now) && now.items@
            == held.items@ + page.items@),
        page.next is None ==> final(walk).wanted is None,
        page.next is Some && page.offset + page.limit <= u32::MAX ==> final(walk).wanted == Some(
            (page.offset + page.limit) as u32,
        ),
        final(walk).album == old(walk).album,
{
}

/// Artists are handed out in their order, two at a time; what one has listed is counted.
pub proof fn artists_are_looked_at_in_order(
    scan: &mut ReleaseScan,
    artist: Option<String>,
    looked: &mut ReleaseScan,
    artist_id: &str,
    albums: Vec<Album>,
    progress: ReleaseScanProgress,
)
    requires
        call_ensures(ReleaseScan::next_artist, (scan,), artist),
        call_ensures(ReleaseScan::artist_scanned, (looked, artist_id, albums), progress),
    ensures
        old(scan).started < old(scan).artists@.len() && old(scan).started - old(scan).scanned < 2
            ==> artist == Some(old(scan).artists@[old(scan).started as int]) && final(scan).started
            == old(scan).started + 1,
        old(scan).started >= old(scan).artists@.len() ==> artist is None,
        old(scan).started - old(scan).scanned >= 2 ==> artist is None,
        final(looked).scanned == old(looked).scanned + 1,
        progress.phase == ReleaseScanPhase::ScanningArtists
            && progress.completed == final(looked).scanned
                && progress.total == final(looked).artists@.len() && progress.found_releases
            == final(looked).releases@.len(),
        final(looked).finds@.len() == old(looked).finds@.len() + albums@.len(),
{
    assert(final(looked).artists.len() == final(looked).artists@.len());
    assert(final(looked).releases.len() == final(looked).releases@.len());
}

/// Releases are loaded twenty at a time, in the order in which they were found, until all
/// were asked for. A release that came is counted, and so is one that did not.
pub proof fn releases_are_loaded_in_batches(
    scan: &mut ReleaseScan,
    ids: Option<Vec<String>>,
    ended: &mut ReleaseScan,
    asked: usize,
    answered: usize,
    i: int,
)
    requires
        call_ensures(ReleaseScan::next_batch, (scan,), ids),
        call_ensures(ReleaseScan::batch_ended, (ended, asked, answered), ()),
        answered <= asked,
    ensures
        old(scan).requested < old(scan).releases@.len() ==> ids is Some,
        old(scan).requested == old(scan).releases@.len() ==> ids is None,
        ids matches Some(list) ==> 0 < list@.len() <= 20
            && final(scan).requested == old(scan).requested + list@.len() && (
            0 <= i < list@.len() ==> list@[i]@ == old(scan).releases@[old(scan).requested
                + i].album.id@
        ) && (list@.len() == 20 || final(scan).requested == old(scan).releases@.len()),
        final(ended).loaded == old(ended).loaded + asked - answered,
{
    if ids is Some && 0 <= i < ids->0@.len() {
        assert(crate::text::texts(ids->0@)[i] == ids->0@[i]@);
    }
}

/// The library is collected from the parts that were chosen, and the artists are known once
/// every page has come.
pub proof fn a_library_is_collected(
    sources: Vec<ReleaseArtistSource>,
    minimum: u16,
    r: (Collecting, Vec<LibraryAsk>),
    known: Option<Vec<String>>,
    collecting: Collecting,
    id: Seq<char>,
)
    requires
        call_ensures(Collecting::start, (&sources, minimum), r),
        call_ensures(Collecting::artists, (&collecting,), known),
    ensures
        sources@.contains(ReleaseArtistSource::FollowedArtists) ==> r.1@.contains(
            LibraryAsk::Followed { after: None },
        ),
        sources@.contains(ReleaseArtistSource::SavedAlbums) ==> r.1@.contains(
            LibraryAsk::SavedAlbums { offset: 0, limit: 50 },
        ),
        sources@.contains(ReleaseArtistSource::LikedSongs) ==> r.1@.contains(
            LibraryAsk::LikedSongs { offset: 0, limit: 50 },
        ),
        known is Some == (!collecting.followed_open && collecting.saved_pages == Pages::Left(0)
            && collecting.liked_pages == Pages::Left(0)),
        known matches Some(list) ==> crate::text::texts(list@).to_set().contains(id) == (
        collecting.followed.artists@.contains(id) || collecting.saved@.contains(id)
            || collecting.liked.count(id) >= (if collecting.minimum_liked_tracks == 0 {
            1
        } else {
            collecting.minimum_liked_tracks as nat
        })),
{
    let followed = sources@.contains(ReleaseArtistSource::FollowedArtists);
    let saved = sources@.contains(ReleaseArtistSource::SavedAlbums);
    let n: int = if followed {
        1
    } else {
        0
    };
    let m: int = if saved {
        1
    } else {
        0
    };
    if followed {
        assert(r.1@[0] == (LibraryAsk::Followed { after: None }));
    }
    if saved {
        assert(r.1@[n] == (LibraryAsk::SavedAlbums { offset: 0, limit: 50 }));
    }
    if sources@.contains(ReleaseArtistSource::LikedSongs) {
        assert(r.1@[n + m] == (LibraryAsk::LikedSongs { offset: 0, limit: 50 }));
    }
}

/// Every page that comes is taken over: the artists of its albums are among those collected.
pub proof fn a_page_of_albums_is_taken_over(
    collecting: &mut Collecting,
    page: Page<SavedAlbum>,
    asks: Vec<LibraryAsk>,
    i: int,
    id: Seq<char>,
)
    requires
        call_ensures(Collecting::saved_page, (collecting, &page), asks),
        0 <= i < page.items@.len(),
        id.len() > 0,
        is_credited(page.items@[i].album.artists@, id),
    ensures
        final(collecting).saved@.contains(id),
        forall|held: Seq<char>|
            old(collecting).saved@.contains(held) ==> #[trigger] final(collecting).saved@.contains(
                held,
            ),
{
    let more = crate::releases::album_credits(page.items@);
    crate::scan_laws::the_library_names_its_artists(page.items@, Seq::empty(), id, i);
    with_all_is_a_union(old(collecting).saved.list(), more);
    assert(more.to_set().contains(id));
}

/// The followed artists of a page are taken over, and the next page is asked for where this
/// one says.
pub proof fn a_page_of_followed_artists_is_taken_over(
    collecting: &mut Collecting,
    page: CursorPage<Artist>,
    ask: Option<LibraryAsk>,
    i: int,
    next: String,
)
    requires
        call_ensures(Collecting::followed_page, (collecting, page), ask),
        0 <= i < page.items@.len(),
        page.items@[i].id@.len() > 0,
    ensures
        final(collecting).followed.artists@.contains(page.items@[i].id@),
        (page.cursors matches Some(cursors) && cursors.after == Some(next)) && (
            old(collecting).followed.after matches Some(asked) ==> asked@ != next@
        ) ==> ask == Some(
            LibraryAsk::Followed { after: Some(next) },
        ) && final(collecting).followed_open,
        page.cursors is None ==> ask is None && !final(collecting).followed_open,
{
    let id = page.items@[i].id@;
    let more = crate::release_scan::artist_ids(page.items@);
    crate::scan_laws::followed_artists_are_collected(
        page.items@,
        id,
        old(collecting).followed.after,
        page,
    );
    with_all_is_a_union(old(collecting).followed.artists.list(), more);
    assert(more.to_set().contains(id));
}

// ---- lookups ------------------------------------------------------------------------

/// The next lookup is the first that waits, and an answer to it is taken once.
pub proof fn lookups_are_handed_out(
    lookup: &mut AlbumTypeLookup,
    next: Option<AlbumTypeRequest>,
    answered: &mut AlbumTypeLookup,
    request: AlbumTypeRequest,
    accepted: bool,
)
    requires
        call_ensures(AlbumTypeLookup::next, (lookup,), next),
        call_ensures(AlbumTypeLookup::finish, (answered, &request), accepted),
    ensures
        old(lookup).active is None && old(lookup).pending@.len() > 0 ==> (next matches Some(found)
            && found.uri == old(lookup).pending@[0]),
        old(lookup).active is Some ==> next is None,
        old(answered).active == Some(request) ==> accepted && final(answered).active is None,
        old(answered).active is None ==> !accepted,
{
}

/// A release that came is kept with the songs of the artists who listed it, under the group
/// that it was found under; one that nothing is left of, and one that was not asked for, is
/// not.
pub proof fn a_release_that_came_is_kept(
    scan: &mut ReleaseScan,
    album: Album,
    progress: ReleaseScanProgress,
    other: Album,
    accepted: Option<Album>,
    k: int,
    t: int,
    c: int,
)
    requires
        call_ensures(ReleaseScan::album_loaded, (scan, album), progress),
        call_ensures(ReleaseScan::accept_album, (old(scan), other), accepted),
        0 <= k < old(scan).releases@.len(),
    ensures
        old(scan).releases@[k].album.id@ == album.id@ ==> (album.tracks matches Some(page) ==> (0
            <= t < page.items@.len() && 0 <= c < page.items@[t].artists@.len() && (
        page.items@[t].artists@[c].id matches Some(id)
            && old(scan).releases@[k].artist_ids.list().contains(
            id@,
        )) ==> final(scan).hydrated@.len() == old(scan).hydrated@.len() + 1 && (
            final(scan).hydrated@.last().tracks matches Some(kept) && kept.items@.contains(
                page.items@[t],
            )
        )
            && final(scan).hydrated@.last().id == album.id)),
        progress.completed == old(scan).loaded + 1,
        old(scan).releases@[k].album.id@ == other.id@ ==> (accepted matches Some(shown)
            && shown.album_group == old(scan).releases@[k].album.album_group && shown.id == other.id
            && shown.tracks == other.tracks && shown.release_date == other.release_date),
        (forall|i: int|
            0 <= i < old(scan).releases@.len() ==> (#[trigger] old(scan).releases@[i]).album.id@
                != other.id@) ==> accepted is None,
{
    let releases = crate::release_scan::found(old(scan).releases@);
    if old(scan).releases@[k].album.id@ == other.id@ {
        assert(releases[k].album.id@ == other.id@);
    }
    if accepted is Some {
        let i = choose|i: int|
            0 <= i < releases.len() && (#[trigger] releases[i]).album.id@ == other.id@;
        assert(old(scan).releases@[i].album.id@ == other.id@);
    }
    if old(scan).releases@[k].album.id@ == album.id@ && album.tracks is Some {
        let tracks = album.tracks->0.items@;
        let artists = old(scan).releases@[k].artist_ids.list();
        if 0 <= t < tracks.len() {
            crate::scan_laws::songs_of_the_listed_artists_are_kept(
                tracks,
                artists,
                t,
                c,
                tracks[t],
            );
            let kept = crate::release_scan::selected_tracks(tracks, artists);
            if kept.contains(tracks[t]) {
                let m = kept.index_of(tracks[t]);
                assert(kept.len() > 0);
            }
        }
    }
}

/// The period begins as many days before today as was chosen, and ends tomorrow.
pub proof fn the_period_lies_around_today(days: u16, now: i64, cutoff: String, tomorrow: String)
    requires
        call_ensures(release_cutoff, (days, now), cutoff),
        call_ensures(release_horizon, (now,), tomorrow),
        i64::MIN <= now - days * 86_400,
        now + 86_400 <= i64::MAX,
    ensures
        cutoff@ == date_text((now - days * 86_400) as i64),
        tomorrow@ == date_text((now + 86_400) as i64),
{
}

/// The artists of all parts of the library are scanned, each once, and nobody else.
pub proof fn artists_of_all_parts_are_scanned(
    followed: TextSet,
    saved: TextSet,
    liked: TextSet,
    r: Vec<String>,
    id: Seq<char>,
)
    requires
        call_ensures(collect_artists, (&followed, &saved, &liked), r),
    ensures
        crate::text::texts(r@).to_set().contains(id) == (followed@.contains(id) || saved@.contains(
            id,
        ) || liked@.contains(id)),
        forall|i: int, j: int|
            0 <= i < j < r@.len() ==> text_below((#[trigger] r@[i])@, (#[trigger] r@[j])@),
{
    let list = crate::text::texts(r@);
    assert forall|i: int, j: int| 0 <= i < j < r@.len() implies text_below(
        (#[trigger] r@[i])@,
        (#[trigger] r@[j])@,
    ) by {
        assert(text_below(list[i], list[j]));
    }
}

/// Liked songs count for the artists who are credited on them.
pub proof fn liked_songs_count_for_their_artists(
    collecting: &mut Collecting,
    page: Page<SavedTrack>,
    asks: Vec<LibraryAsk>,
    i: int,
    id: Seq<char>,
)
    requires
        call_ensures(Collecting::liked_page, (collecting, &page), asks),
        0 <= i < page.items@.len(),
        id.len() > 0,
        is_credited(page.items@[i].track.artists@, id),
    ensures
        final(collecting).liked.count(id) > old(collecting).liked.count(id),
{
    crate::scan_laws::the_library_names_its_artists(Seq::empty(), page.items@, id, i);
}

/// What to play is a context, or songs in a row, from their beginning or from where it is
/// said.
pub proof fn what_to_play_is_what_was_chosen(
    uri: &str,
    uris: Vec<String>,
    index: u32,
    context: PlayRequest,
    songs: PlayRequest,
    at_song: PlayRequest,
    at_index: PlayRequest,
)
    requires
        call_ensures(PlayRequest::context, (uri,), context),
        call_ensures(PlayRequest::tracks, (uris,), songs),
        call_ensures(PlayRequest::starting_at_uri, (context, uri), at_song),
        call_ensures(PlayRequest::starting_at_index, (songs, index), at_index),
    ensures
        context.context_uri matches Some(text) && text@ == uri@,
        context.uris@.len() == 0 && context.position_ms == 0 && context.offset_uri is None,
        songs.uris == uris && songs.context_uri is None && songs.offset_position is None,
        at_song.offset_uri matches Some(text) && text@ == uri@ && at_song.context_uri
            == context.context_uri,
        at_index.offset_position == Some(index) && at_index.uris == uris,
{
}

/// A token has its permissions when each is a word of its scope.
pub proof fn a_token_has_its_permissions(token: StoredToken, needed: Vec<String>, r: bool, i: int)
    requires
        call_ensures(StoredToken::has_scopes, (&token, &needed), r),
    ensures
        r ==> (0 <= i < needed@.len() ==> has_word(token.scope@, needed@[i]@)),
        (forall|k: int| 0 <= k < needed@.len() ==> has_word(token.scope@, (#[trigger] needed@[k])@))
            ==> r,
{
}

/// Credentials are an account's when they name it.
pub proof fn credentials_name_their_account(
    credentials: PlaybackCredentials,
    account: AccountId,
    r: bool,
    nobody: bool,
)
    requires
        call_ensures(playback_account_matches, (&credentials, Some(account)), r),
        call_ensures(playback_account_matches, (&credentials, None), nobody),
    ensures
        r == (credentials.username matches Some(name) && name@.len() > 0 && name@ == account.id@),
        !nobody,
{
}

/// A verification goes on only while its grant counts and its application is being signed
/// in; a line that failed and an answer that cannot be read are told apart.
pub proof fn trouble_is_told_apart(
    verification: Verification,
    on: Option<Command>,
    off: Option<Command>,
    detail: String,
    line: ApiError,
    answer: ApiError,
)
    requires
        call_ensures(Verification::before_asking, (&verification, true, true), on),
        call_ensures(Verification::before_asking, (&verification, false, true), off),
        call_ensures(ApiError::from_transport, (false, detail), line),
        call_ensures(ApiError::from_transport, (true, detail), answer),
    ensures
        on is None,
        off == Some(
            Command::SignInEnded {
                source: verification.source,
                attempt: verification.attempt,
            },
        ),
        line == ApiError::Network(detail),
        answer == ApiError::Decode(detail),
{
}

/// A listener is called by the name that they show, else by their id, and has Premium when
/// their plan says so.
pub proof fn a_listener_is_called_by_their_name(user: User, name: String, premium: Option<bool>)
    requires
        call_ensures(User::name, (&user,), name),
        call_ensures(User::premium, (&user,), premium),
    ensures
        user.display_name matches Some(shown) ==> name == shown,
        user.display_name is None ==> name == user.id,
        user.product matches Some(product) ==> premium == Some(product@ == "premium"@),
        user.product is None ==> premium is None,
{
}

/// Paths lead to the same place whatever the number of slashes between and behind their
/// names, and a path that starts at the root is never one that does not.
pub proof fn slashes_make_no_difference(raw: Seq<u8>, a: FilePath, b: FilePath, r: bool)
    requires
        raw.len() > 0,
        call_ensures(FilePath::same, (&a, &b), r),
    ensures
        a@ == b@ ==> r,
        a@ == (PathView { raw: raw.push(47), style: PathStyle::Unix }) && b@ == (PathView {
            raw,
            style: PathStyle::Unix,
        }) && raw != seq![46u8] ==> r,
        a.style == PathStyle::Unix && b.style == PathStyle::Unix && a.raw@.len() > 0 && b.raw@.len()
            > 0 && a.raw@[0] == 47 && b.raw@[0] != 47 ==> !r,
{
    let (x, y) = (
        PathView { raw: raw.push(47), style: PathStyle::Unix },
        PathView { raw, style: PathStyle::Unix },
    );
    let manner = Manner::of(PathStyle::Unix, raw);
    assert(raw.push(47).skip(0) =~= raw.push(47));
    assert(raw.skip(0) =~= raw);
    assert(raw.push(47).drop_last() =~= raw);
    assert(manner.names_in(raw.push(47)) == manner.names_in(raw));
    assert(raw.push(47)[0] == raw[0]);
    if raw.len() > 1 {
        assert(raw.push(47)[1] == raw[1]);
    } else {
        assert(raw =~= seq![raw[0]]);
    }
    assert(place(x).prefix =~= place(y).prefix);
}

// ---- beginnings and ends -----------------------------------------------------------------

/// A session, a grant in use and a verification begin with what they are given, and with
/// nothing else.
pub proof fn a_session_begins_anew(
    client: ApiClient,
    provider: TokenProvider,
    now_ms: u64,
    r: ApiClient,
    token: StoredToken,
    lease: Lease,
    source: ApiSource,
    tokens: WebTokens,
    attempt: u64,
    verification: Verification,
)
    requires
        call_ensures(ApiClient::for_authorization, (&client, provider, now_ms), r),
        call_ensures(WebTokens::new, (token, lease, source), tokens),
        call_ensures(Verification::new, (source, token, lease, attempt), verification),
    ensures
        r.tokens == Some(provider),
        r.cooldown.until_ms == now_ms,
        r.search_limit == client.search_limit && r.artist_albums_limit
            == client.artist_albums_limit && r.source == client.source,
        tokens.token == token && tokens.lease == lease && tokens.source == source
            && !tokens.remember,
        verification.source == source && verification.token == token && verification.lease == lease
            && verification.attempt == attempt && verification.wait_s == 2,
{
}

/// A batch and a check begin with all their songs, and a batch is complete when every song
/// was appended.
pub proof fn songs_are_all_taken(
    uris: Vec<String>,
    device_id: Option<String>,
    batch: QueueBatch,
    walk: (DuplicateWalk, bool),
    done: Option<(usize, ApiResult<()>)>,
    held: QueueBatch,
    client: ApiClient,
    id: &str,
    page: HttpRequest,
    there: DuplicateWalk,
)
    requires
        call_ensures(QueueBatch::new, (uris, device_id), batch),
        call_ensures(DuplicateWalk::new, (uris,), walk),
        call_ensures(QueueBatch::completed, (&held,), done),
        call_ensures(DuplicateWalk::next_page, (&there, &client, id), page),
    ensures
        batch.uris == uris && batch.device_id == device_id && batch.added == 0,
        walk.0.uris == uris && walk.0.offset == 0 && walk.0.pages@.len() == 0,
        walk.1 == (uris@.len() > 0),
        held.added == held.uris@.len() ==> (done matches Some((_, end)) && end is Ok),
        held.added != held.uris@.len() ==> done is None,
        page.method == Method::Get,
        page.path@ == "/playlists/"@ + id@ + "/items"@,
        page@.query[1] == ("offset"@, decimal(there.offset as nat)),
{
}

/// A streaming session's answer is used as it is; where it has none, the Web API is asked.
pub proof fn a_sessions_answer_is_used(
    id: String,
    generation: u64,
    playlist: Playlist,
    answered: Option<ApiResponse>,
    silent: Option<ApiResponse>,
    good: Option<ApiResult<Playlist>>,
    bad: Option<ApiResult<Playlist>>,
    detail: String,
)
    requires
        call_ensures(
            over_session,
            (
                &ApiRequest::Playlist { id, generation },
                Some(SessionAnswer::Header(Ok(playlist))),
            ),
            answered,
        ),
        call_ensures(over_session, (&ApiRequest::Playlist { id, generation }, None), silent),
        call_ensures(settle::<Playlist>, (Ok(playlist),), good),
        call_ensures(settle::<Playlist>, (Err(Failure::Retry(detail)),), bad),
    ensures
        answered == Some(ApiResponse::Playlist { id, generation, result: Ok(playlist) }),
        silent is None,
        good == Some(Ok::<Playlist, ApiError>(playlist)),
        bad is None,
{
}

/// A scan starts with its artists and nothing found, and shows what it has loaded, the newest
/// first.
pub proof fn a_scan_starts_and_ends(
    artists: Vec<String>,
    scan: ReleaseScan,
    done: ReleaseScan,
    shown: Vec<Album>,
    progress: ReleaseScanProgress,
    i: int,
)
    requires
        call_ensures(ReleaseScan::new, (artists,), scan),
        call_ensures(ReleaseScan::finish, (done,), shown),
        call_ensures(ReleaseScan::collecting, (), progress),
        0 <= i < done.hydrated@.len(),
    ensures
        scan.artists == artists && scan.started == 0 && scan.scanned == 0
            && scan.releases@.len() == 0 && scan.hydrated@.len() == 0 && scan.loaded == 0,
        shown@.to_multiset() == done.hydrated@.to_multiset(),
        shown@ == ordered(done.hydrated@),
        progress.phase == ReleaseScanPhase::CollectingArtists && progress.completed == 0,
{
    crate::release_order::sorting_orders_and_keeps_all(done.hydrated@);
}

/// The songs that came with an album are the first ones; the rest is asked for where they
/// end, below the album. In the end every song names its album.
pub proof fn an_albums_songs_are_loaded(
    album: Album,
    walk: TrackWalk,
    held: TrackWalk,
    client: ApiClient,
    request: Option<HttpRequest>,
    done: Album,
    i: int,
)
    requires
        call_ensures(TrackWalk::new, (album,), walk),
        call_ensures(TrackWalk::next_page, (&held, &client), request),
        call_ensures(TrackWalk::finish, (held,), done),
        held.tracks is Some,
        0 <= i < held.tracks->0.items@.len(),
    ensures
        walk.tracks == album.tracks,
        album.tracks is None ==> walk.wanted == Some(0u32),
        album.tracks matches Some(page) ==> (page.next is None ==> walk.wanted is None),
        walk.album.id == album.id && walk.album.release_date == album.release_date,
        held.wanted is None ==> request is None,
        held.wanted matches Some(offset) ==> (request matches Some(call) && call.method
            == Method::Get && call.path@ == "/albums/"@ + held.album.id@ + "/tracks"@
            && call@.query == seq![
            ("limit"@, decimal(50)),
            ("offset"@, decimal(offset as nat)),
        ]),
        done.id == held.album.id && done.release_date == held.album.release_date,
        done.tracks matches Some(page) && page.items@.len() == held.tracks->0.items@.len()
            && page.items@[i].uri == held.tracks->0.items@[i].uri && page.items@[i].artists
            == held.tracks->0.items@[i].artists && (page.items@[i].album matches Some(summary)
            && summary.id == held.album.id),
{
    if held.wanted is Some {
        assert(request->0@.query =~= seq![
            ("limit"@, decimal(50)),
            ("offset"@, decimal(held.wanted->0 as nat)),
        ]);
    }
    let page = done.tracks->0;
    assert(page.items@[i].album is Some);
}

/// A page of the library is asked for as it is stated, and a walk over followed artists goes
/// on where its page says.
pub proof fn library_pages_are_asked_for(
    ask: LibraryAsk,
    client: ApiClient,
    request: HttpRequest,
    walk: &mut FollowedWalk,
    page: CursorPage<Artist>,
    next: String,
    more: bool,
)
    requires
        call_ensures(LibraryAsk::request, (&ask, &client), request),
        call_ensures(FollowedWalk::add_page, (walk, page), more),
        page.items@.len() > 0,
        page.cursors matches Some(cursors) && cursors.after == Some(next),
        old(walk).after is None,
    ensures
        request@ == library_request(ask),
        more,
        final(walk).after == Some(next),
{
}

// ---- small things ---------------------------------------------------------------------------

/// What the listener is told is worded, and what the streaming session signs in with is taken
/// as it is.
pub proof fn words_and_secrets_are_kept(
    message: Message,
    told: Event,
    words: String,
    secret: Vec<u8>,
    bytes: Vec<u8>,
)
    requires
        call_ensures(Notice::event, (Notice::Error(message),), told),
        call_ensures(Message::text, (&message,), words),
        call_ensures(Secret::bytes, (&Secret::Bytes(secret),), bytes),
    ensures
        told matches Event::Error(text) && text@ == message.words(),
        words@ == message.words(),
        bytes@ == secret@,
{
}

/// The page of new releases offers every group, names its parts, and takes a number over when
/// it was entered.
pub proof fn the_page_names_its_parts(
    groups: Vec<ReleaseGroup>,
    followed: LibraryPage,
    saved: LibraryPage,
    liked: LibraryPage,
    releases: &str,
    songs: &str,
    line: String,
    content: PageContent,
    empty: Option<(&'static str, &'static str)>,
    entered: bool,
    left: bool,
)
    requires
        call_ensures(ReleaseGroup::all, (), groups),
        call_ensures(source_page, (ReleaseArtistSource::FollowedArtists,), followed),
        call_ensures(source_page, (ReleaseArtistSource::SavedAlbums,), saved),
        call_ensures(source_page, (ReleaseArtistSource::LikedSongs,), liked),
        call_ensures(count_line, (releases, songs), line),
        call_ensures(PageContent::empty_state, (&content,), empty),
        call_ensures(submitted, (false, true, true, false), entered),
        call_ensures(submitted, (false, true, false, false), left),
    ensures
        groups@ == seq![
            ReleaseGroup::Album,
            ReleaseGroup::Single,
            ReleaseGroup::Compilation,
            ReleaseGroup::AppearsOn,
        ],
        followed == LibraryPage::Artists && saved == LibraryPage::Albums && liked
            == LibraryPage::LikedSongs,
        line@ == releases@ + " releases, "@ + songs@ + " songs"@,
        content == PageContent::Table ==> empty is None,
        content == PageContent::NothingFound ==> (empty matches Some((heading, advice)) && heading@
            == "No matching releases"@ && advice@ == "Try another artist, track, or album name."@),
        entered && !left,
{
}

/// A text becomes the path that it spells, a name is joined to it, and its three directories
/// are made for a profile. The window of the old profile is remembered by the old name.
pub proof fn paths_are_made_of_texts(
    text: &str,
    style: PathStyle,
    path: FilePath,
    name: &str,
    joined: FilePath,
    dirs: AppDirs,
    legacy: AppDirs,
    made: Vec<FilePath>,
    window: &'static str,
)
    requires
        call_ensures(FilePath::base, (text, style), path),
        call_ensures(FilePath::join, (&path, name), joined),
        call_ensures(AppDirs::ensure, (&dirs,), made),
        call_ensures(AppDirs::window_profile, (&dirs, &legacy), window),
    ensures
        path.raw@ == vstd::utf8::encode_utf8(text@) && path.style == style,
        joined@ == child(path@, name@),
        made@.len() == 3 && made@[0]@ == dirs.config@ && made@[1]@ == dirs.state@ && made@[2]@
            == dirs.cache@,
        dirs.state@ == legacy.state@ ==> window@ == "fastpotify"@,
        place(dirs.state@) != place(legacy.state@) ==> window@ == "spotifast"@,
{
}

/// Albums are asked about while somebody is signed in who may have Premium, and else are not.
pub proof fn albums_are_asked_about_for_a_listener(
    lookup: &mut AlbumTypeLookup,
    premium: Option<bool>,
    uris: Vec<String>,
    uri: String,
)
    requires
        call_ensures(AlbumTypeLookup::enqueue, (lookup, true, premium, uris), ()),
        uris@ == seq![uri],
        old(lookup).active is None,
        old(lookup).pending@.len() == 0,
        !old(lookup).seen.list().contains(uri@),
    ensures
        premium != Some(false) ==> final(lookup).pending@ == seq![uri],
        premium == Some(false) ==> final(lookup).pending@.len() == 0,
{
    assert(uris@.len() == 1 && uris@.last() == uri);
    assert(uris@.drop_last() =~= Seq::<String>::empty());
    reveal_with_fuel(crate::album_types::LookupModel::ask_all, 2);
    let before = old(lookup)@;
    assert(before.ask_all(uris@) == before.ask(uri));
    assert(final(lookup)@.pending == final(lookup).pending@);
    assert(before.pending.push(uri) =~= seq![uri]);
}

} // verus!
