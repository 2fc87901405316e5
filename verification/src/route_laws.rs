//! Which session serves a request, and what answers show of playlists.

use vstd::prelude::*;

use crate::api::{ApiRequest, ApiResponse};
use crate::error::{ApiError, ApiResult, ApiSource};
use crate::exchange::{
    course, course_of, session_read_spec, session_response_spec, settled, Course, Failure,
    ReadModel, SessionAnswer,
};
use crate::gateway::{
    access_seen, operation_spec, AccessTable, AccountId, Gateway, PlaylistAccess, SessionState,
};
use crate::models::{Page, Playlist, PlaylistItem};

verus! {

/// Whether a request is about a playlist, and which.
pub open spec fn about_playlist(request: ApiRequest) -> Option<Seq<char>> {
    match request {
        ApiRequest::Playlist { id, .. } => Some(id@),
        ApiRequest::PlaylistItems { id, .. } => Some(id@),
        ApiRequest::PlaylistSample { id, .. } => Some(id@),
        ApiRequest::UploadPlaylistCover { id, .. } => Some(id@),
        ApiRequest::UpdatePlaylist { id, .. } => Some(id@),
        ApiRequest::FollowPlaylist { id, .. } => Some(id@),
        ApiRequest::CheckPlaylistDuplicates { playlist_id, .. } => Some(playlist_id@),
        ApiRequest::AddToPlaylist { playlist_id, .. } => Some(playlist_id@),
        ApiRequest::RemoveFromPlaylist { playlist_id, .. } => Some(playlist_id@),
        ApiRequest::ReorderPlaylist { playlist_id, .. } => Some(playlist_id@),
        _ => None,
    }
}

/// A personal application that is signed in serves all that it may: everything but
/// the account itself, the whole playlist library, searches for playlists,
/// recommendations, related artists, an artist's top tracks, whether a playlist is
/// in the library, and playlists that are not known to be the account's to edit.
pub proof fn the_personal_application_serves_what_it_may(
    access: AccessTable,
    request: ApiRequest,
    at: int,
)
    ensures
        ({
            let source = Gateway::source_for_spec(true, operation_spec(access, request));
            let denied = request is Me || request is MyPlaylists || request is Search || request
                is SearchPlaylists || request is Discover || request is Recommendations || request
                is RelatedArtists || request is ArtistTopTracks;
            &&& denied ==> source == ApiSource::Shared
            &&& about_playlist(request) matches Some(id) ==> (source == ApiSource::Personal <==> (
            access.of(id) == PlaylistAccess::Owned || access.of(id)
                == PlaylistAccess::Collaborative))
            &&& request matches ApiRequest::Contains { uris } ==> (0 <= at < uris@.len()
                && uris@[at]@.len() >= 17 && uris@[at]@.take(17) == "spotify:playlist:"@
                ==> source == ApiSource::Shared)
            &&& request matches ApiRequest::Contains { uris } ==> ((forall|i: int|
                0 <= i < uris@.len() && (#[trigger] uris@[i])@.len() >= 17 ==> uris@[i]@.take(17)
                    != "spotify:playlist:"@) ==> source == ApiSource::Personal)
            &&& !denied && about_playlist(request) is None && !(request is Contains) ==> source
                == ApiSource::Personal
        }),
        Gateway::source_for_spec(false, operation_spec(access, request)) == ApiSource::Shared,
{
    reveal_strlit("spotify:playlist:");
    assert("spotify:playlist:"@.len() == 17);
    if request is Contains {
        let uris = request->Contains_uris@;
        if 0 <= at < uris.len() && uris[at]@.len() >= 17 && uris[at]@.take(17)
            == "spotify:playlist:"@ {
            assert(crate::text::has_prefix(uris[at]@, "spotify:playlist:"@));
            assert(crate::gateway::names_a_playlist(uris));
        }
    }
}

/// A request goes to the session that serves it once that is signed in, waits while it
/// is being signed in, and is refused when nobody is.
pub proof fn a_request_goes_to_a_session_that_is_signed_in(
    api: Gateway,
    request: ApiRequest,
    account: AccountId,
)
    ensures
        ({
            let personal = Gateway::source_for_spec(
                api.personal is Ready,
                operation_spec(api.access, request),
            ) == ApiSource::Personal;
            let course = course_of(api, request, None, false);
            &&& personal ==> course == Course::Web(ApiSource::Personal)
            &&& !personal && api.shared == (SessionState::Ready { account }) ==> course
                == Course::Web(ApiSource::Shared)
            &&& !personal && api.shared is Authorizing ==> course == Course::Wait
            &&& !personal && api.shared is Unavailable ==> course == Course::Refuse(
                ApiError::NotSignedIn,
            )
            &&& course_of(api, request, None, true) == course
        }),
{
}

/// A streaming session of the same account is asked once for a playlist's header or
/// rows, unless the personal application serves them, and for nothing else. One of
/// another account is never asked.
pub proof fn a_session_is_asked_for_its_own_account(
    api: Gateway,
    request: ApiRequest,
    account: AccountId,
    username: Seq<char>,
)
    requires
        api.shared == (SessionState::Ready { account }),
    ensures
        ({
            let course = course_of(api, request, Some(username), false);
            let reads = request is Playlist || request is PlaylistItems || request
                is PlaylistSample;
            &&& username != account.id@ || !reads ==> !(course is Session)
            &&& username == account.id@ && reads && !(api.personal is Ready) ==> course
                == Course::Session
            &&& username == account.id@ && reads ==> (about_playlist(request) matches Some(id)
                && (course == Course::Session <==> !(api.personal is Ready) || (api.access.of(id)
                != PlaylistAccess::Owned && api.access.of(id) != PlaylistAccess::Collaborative)))
            &&& !(course_of(api, request, Some(username), true) is Session)
        }),
{
}

/// The session reads the playlist and the rows that were asked for, and its answer
/// goes to who asked. A final refusal is an answer; a line that failed is none.
pub proof fn a_session_answers_who_asked(
    id: String,
    offset: u32,
    generation: u64,
    header: ApiResult<Playlist>,
    rows: ApiResult<Page<PlaylistItem>>,
    error: ApiError,
    detail: String,
    playlist: Playlist,
)
    ensures
        session_read_spec(ApiRequest::Playlist { id, generation }) == Some(ReadModel::Header(id@)),
        session_read_spec(ApiRequest::PlaylistItems { id, offset, generation }) == Some(
            ReadModel::Rows(id@, offset),
        ),
        session_read_spec(ApiRequest::PlaylistSample { id, offset, generation }) == Some(
            ReadModel::Sample(id@, offset),
        ),
        session_response_spec(
            ApiRequest::Playlist { id, generation },
            SessionAnswer::Header(header),
        ) == Some(ApiResponse::Playlist { id, generation, result: header }),
        session_response_spec(
            ApiRequest::PlaylistItems { id, offset, generation },
            SessionAnswer::Rows(rows),
        ) == Some(ApiResponse::PlaylistItems { id, offset, generation, result: rows }),
        session_response_spec(
            ApiRequest::PlaylistSample { id, offset, generation },
            SessionAnswer::Rows(rows),
        ) == Some(ApiResponse::PlaylistSample { id, generation, result: rows }),
        settled(Ok::<Playlist, Failure>(playlist)) == Some(Ok::<Playlist, ApiError>(playlist)),
        settled(Err::<Playlist, Failure>(Failure::Definitive(error))) == Some(
            Err::<Playlist, ApiError>(error),
        ),
        settled(Err::<Playlist, Failure>(Failure::Retry(detail))) is None,
{
}

/// What an answer shows of a playlist is remembered: that the account owns it, that
/// it is open to others, or that it is somebody else's. Of playlists that an answer
/// does not show nothing is forgotten.
pub proof fn a_playlist_that_was_seen_is_remembered(
    api: Gateway,
    account: AccountId,
    playlist: Playlist,
    asked: String,
    generation: u64,
    other: Seq<char>,
)
    requires
        api.shared == (SessionState::Ready { account }),
    ensures
        ({
            let owned = playlist.owner.id matches Some(owner) && owner@ == account.id@;
            let shown = if owned {
                PlaylistAccess::Owned
            } else if playlist.collaborative {
                PlaylistAccess::Collaborative
            } else {
                PlaylistAccess::Foreign
            };
            let read = ApiResponse::Playlist { id: asked, generation, result: Ok(playlist) };
            let made = ApiResponse::PlaylistCreated(Ok(playlist));
            &&& access_seen(api, read, playlist.id@) == shown
            &&& access_seen(api, made, playlist.id@) == shown
            &&& other != playlist.id@ ==> access_seen(api, read, other) == api.access.of(other)
                && access_seen(api, made, other) == api.access.of(other)
        }),
{
    let one = seq![playlist];
    assert(one.last() == playlist);
    assert(one.drop_last() =~= Seq::<Playlist>::empty());
    reveal_with_fuel(Gateway::access_after, 3);
}

/// Every playlist of a list that came is remembered, by what the list says of it
/// last.
pub proof fn playlists_of_a_list_are_remembered(
    api: Gateway,
    account: AccountId,
    page: Page<Playlist>,
    offset: u32,
    at: int,
)
    requires
        api.shared == (SessionState::Ready { account }),
        0 <= at < page.items@.len(),
        forall|i: int| at < i < page.items@.len() ==> (#[trigger] page.items@[i]).id@
            != page.items@[at].id@,
    ensures
        ({
            let playlist = page.items@[at];
            let owned = playlist.owner.id matches Some(owner) && owner@ == account.id@;
            access_seen(
                api,
                ApiResponse::MyPlaylists { offset, result: Ok(page) },
                playlist.id@,
            ) == if owned {
                PlaylistAccess::Owned
            } else if playlist.collaborative {
                PlaylistAccess::Collaborative
            } else {
                PlaylistAccess::Foreign
            }
        }),
{
    the_last_word_counts(api, page.items@, at);
}

proof fn the_last_word_counts(api: Gateway, list: Seq<Playlist>, at: int)
    requires
        0 <= at < list.len(),
        forall|i: int| at < i < list.len() ==> (#[trigger] list[i]).id@ != list[at].id@,
    ensures
        api.access_after(list, list[at].id@) == api.shown_access(list[at]),
    decreases list.len(),
{
    if at < list.len() - 1 {
        assert(list[list.len() - 1].id@ != list[at].id@);
        assert forall|i: int| at < i < list.drop_last().len() implies (
        #[trigger] list.drop_last()[i]).id@ != list.drop_last()[at].id@ by {
            assert(list[i].id@ != list[at].id@);
        }
        the_last_word_counts(api, list.drop_last(), at);
    }
}

/// A playlist that Spotify forbids to read or to change is no longer known; any other
/// failure leaves what is known.
pub proof fn a_forbidden_playlist_is_no_longer_known(
    api: Gateway,
    id: String,
    message: String,
    offset: u32,
    generation: u64,
    followed: bool,
    error: ApiError,
)
    ensures
        ({
            let forbidden = error matches ApiError::Status { status, .. } && status == 403;
            let known = if forbidden {
                PlaylistAccess::Unknown
            } else {
                api.access.of(id@)
            };
            &&& access_seen(api, ApiResponse::PlaylistUpdated { id, result: Err(error) }, id@)
                == known
            &&& access_seen(
                api,
                ApiResponse::PlaylistItemsChanged { id, message, result: Err(error) },
                id@,
            ) == known
            &&& access_seen(
                api,
                ApiResponse::PlaylistItems { id, offset, generation, result: Err(error) },
                id@,
            ) == known
            &&& access_seen(
                api,
                ApiResponse::PlaylistSample { id, generation, result: Err(error) },
                id@,
            ) == known
            &&& access_seen(
                api,
                ApiResponse::PlaylistFollowChanged { id, followed, result: Err(error) },
                id@,
            ) == known
        }),
{
    reveal_with_fuel(Gateway::access_after, 2);
}

/// A request goes where its course leads, and an operation to the session that serves it.
pub proof fn a_course_is_taken_as_it_is_stated(
    api: Gateway,
    request: ApiRequest,
    asked: bool,
    r: Course,
)
    requires
        call_ensures(course, (&api, &request, None, asked), r),
    ensures
        r == course_of(api, request, None, asked),
{
}

} // verus!
