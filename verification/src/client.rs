//! The calls of the Web API: what each one sends.

use vstd::prelude::*;
use vstd::utf8::encode_utf8;

use crate::credentials::TokenProvider;
use crate::error::{ApiError, ApiResult, ApiSource};
use crate::models::{Page, PlaylistItem};
use crate::request::{
    bare, clone_texts, fields_model, flag_field, no_fields, number_field, opt_text, push_field,
    push_flag, push_number, push_text, text_field, Body, BodyModel, HttpRequest, JsonValue,
    PlayRequest, RequestModel, ValueModel,
};
use crate::sets::{with_all, with_all_is_a_union, TextSet};
use crate::text::{join, join2, join3, joined, texts};
use crate::transport::{Cooldown, Method};

verus! {

/// The largest picture, in bytes of base64, that a playlist cover may be.
pub const MAX_COVER_PAYLOAD: usize = 262_144;

/// One authorized session with the Web API.
pub struct ApiClient {
    pub tokens: Option<TokenProvider>,
    pub cooldown: Cooldown,
    pub search_limit: u32,
    pub artist_albums_limit: u32,
    pub source: ApiSource,
}

/// A path with an id at its end.
pub open spec fn path1(before: Seq<char>, id: Seq<char>) -> Seq<char> {
    before + id
}

/// A path around an id.
pub open spec fn path2(before: Seq<char>, id: Seq<char>, after: Seq<char>) -> Seq<char> {
    before + id + after
}

/// A read of one page of a list.
pub open spec fn paged(path: Seq<char>, limit: u32, offset: u32) -> RequestModel {
    bare(Method::Get, path).with_number("limit"@, limit as nat).with_number(
        "offset"@,
        offset as nat,
    )
}

fn page_request(path: String, limit: u32, offset: u32) -> (r: HttpRequest)
    ensures
        r@ == paged(path@, limit, offset),
{
    HttpRequest::bare(Method::Get, path).with_number("limit", limit).with_number("offset", offset)
}

/// A write to the library, for the things named.
pub open spec fn library_write(method: Method, uris: Seq<Seq<char>>) -> RequestModel {
    bare(method, "/me/library"@).with("uris"@, joined(uris, ","@))
}

fn library_request(method: Method, uris: &Vec<String>) -> (r: HttpRequest)
    ensures
        r@ == library_write(method, texts(uris@)),
{
    HttpRequest::to(method, "/me/library").with("uris", join(uris, ","))
}

/// An append to the player's queue.
pub open spec fn queue_append(uri: Seq<char>, device_id: Option<Seq<char>>) -> RequestModel {
    bare(Method::Post, "/me/player/queue"@).on_device(device_id).with("uri"@, uri)
}

/// A page of a playlist's rows.
pub open spec fn playlist_page(id: Seq<char>, offset: u32, limit: u32) -> RequestModel {
    paged(path2("/playlists/"@, id, "/items"@), limit, offset).with(
        "additional_types"@,
        "track,episode"@,
    )
}

/// A search for things of the given kinds.
pub open spec fn search_for(query: Seq<char>, types: Seq<Seq<char>>, limit: u32) -> RequestModel {
    bare(Method::Get, "/search"@).with("q"@, query).with("type"@, joined(types, ","@)).with_number(
        "limit"@,
        limit as nat,
    )
}

/// A page of an artist's albums.
pub open spec fn artist_albums_page(
    id: Seq<char>,
    groups: Seq<char>,
    limit: u32,
    offset: u32,
) -> RequestModel {
    bare(Method::Get, path2("/artists/"@, id, "/albums"@)).with(
        "include_groups"@,
        groups,
    ).with_number("limit"@, limit as nat).with_number("offset"@, offset as nat)
}

/// The smaller of two limits.
pub open spec fn at_most(limit: u32, bound: u32) -> u32 {
    if limit <= bound {
        limit
    } else {
        bound
    }
}

/// An edit of a playlist's rows.
pub open spec fn playlist_edit(
    method: Method,
    id: Seq<char>,
    fields: Seq<(Seq<char>, ValueModel)>,
) -> RequestModel {
    bare(method, path2("/playlists/"@, id, "/items"@)).carrying(fields)
}

/// Fields with the snapshot that an edit is meant for, when it is known.
pub open spec fn with_snapshot(
    fields: Seq<(Seq<char>, ValueModel)>,
    snapshot_id: Option<Seq<char>>,
) -> Seq<(Seq<char>, ValueModel)> {
    match snapshot_id {
        Some(snapshot) => fields.push(text_field("snapshot_id"@, snapshot)),
        None => fields,
    }
}

/// What an edit of a playlist's details changes.
pub open spec fn detail_fields(
    name: Option<Seq<char>>,
    description: Option<Seq<char>>,
    public: Option<bool>,
) -> Seq<(Seq<char>, ValueModel)> {
    let named = match name {
        Some(name) => seq![text_field("name"@, name)],
        None => Seq::empty(),
    };
    let described = match description {
        Some(description) => named.push(text_field("description"@, description)),
        None => named,
    };
    match public {
        Some(public) => described.push(flag_field("public"@, public)),
        None => described,
    }
}

impl ApiClient {
    /// A session that is not signed in yet.
    pub fn new(search_limit: u32, artist_albums_limit: u32, source: ApiSource, now_ms: u64) -> (r:
        ApiClient)
        ensures
            r.tokens is None,
            r.cooldown.until_ms == now_ms,
            r.search_limit == search_limit,
            r.artist_albums_limit == artist_albums_limit,
            r.source == source,
    {
        ApiClient {
            tokens: None,
            cooldown: Cooldown::new(now_ms),
            search_limit,
            artist_albums_limit,
            source,
        }
    }

    pub fn set_token_provider(&mut self, provider: Option<TokenProvider>)
        ensures
            *final(self) == (ApiClient { tokens: provider, ..*old(self) }),
    {
        self.tokens = provider;
    }

    /// A new authorization gets its own tokens and its own cooldown: a request
    /// of the old one can neither use nor hold up the new account.
    pub fn for_authorization(&self, provider: TokenProvider, now_ms: u64) -> (r: ApiClient)
        ensures
            r.tokens == Some(provider),
            r.cooldown.until_ms == now_ms,
            r.search_limit == self.search_limit,
            r.artist_albums_limit == self.artist_albums_limit,
            r.source == self.source,
    {
        let mut client = ApiClient::new(
            self.search_limit,
            self.artist_albums_limit,
            self.source,
            now_ms,
        );
        client.set_token_provider(Some(provider));
        client
    }

    /// Whether there is a grant to send requests with.
    pub fn provider(&self) -> (r: ApiResult<&TokenProvider>)
        ensures
            match self.tokens {
                Some(tokens) => r matches Ok(held) && *held == tokens,
                None => r == ApiResult::<&TokenProvider>::Err(ApiError::NotSignedIn),
            },
    {
        match &self.tokens {
            Some(tokens) => Ok(tokens),
            None => Err(ApiError::NotSignedIn),
        }
    }

    // ---- identity and player -------------------------------------------------

    pub fn me(&self) -> (r: HttpRequest)
        ensures
            r@ == bare(Method::Get, "/me"@),
    {
        HttpRequest::to(Method::Get, "/me")
    }

    pub fn devices(&self) -> (r: HttpRequest)
        ensures
            r@ == bare(Method::Get, "/me/player/devices"@),
    {
        HttpRequest::to(Method::Get, "/me/player/devices")
    }

    pub fn playback_state(&self) -> (r: HttpRequest)
        ensures
            r@ == bare(Method::Get, "/me/player"@).with("additional_types"@, "track,episode"@),
    {
        HttpRequest::to(Method::Get, "/me/player").with(
            "additional_types",
            "track,episode".to_owned(),
        )
    }

    pub fn queue(&self) -> (r: HttpRequest)
        ensures
            r@ == bare(Method::Get, "/me/player/queue"@),
    {
        HttpRequest::to(Method::Get, "/me/player/queue")
    }

    pub fn recently_played(&self, limit: u32, after: Option<&str>, before: Option<&str>) -> (r:
        HttpRequest)
        ensures
            r@ == bare(Method::Get, "/me/player/recently-played"@).with_number(
                "limit"@,
                limit as nat,
            ).with_optional("after"@, opt_text(after)).with_optional("before"@, opt_text(before)),
    {
        HttpRequest::to(Method::Get, "/me/player/recently-played").with_number(
            "limit",
            limit,
        ).with_optional("after", after).with_optional("before", before)
    }

    pub fn play(&self, device_id: Option<&str>, request: Option<&PlayRequest>) -> (r: HttpRequest)
        ensures
            r@ == ({
                let plain = bare(Method::Put, "/me/player/play"@).on_device(opt_text(device_id));
                match request {
                    Some(request) => plain.carrying(request.body_spec()),
                    None => plain,
                }
            }),
    {
        let plain = HttpRequest::to(Method::Put, "/me/player/play").on_device(device_id);
        match request {
            Some(request) => plain.carrying(request.body()),
            None => plain,
        }
    }

    pub fn pause(&self, device_id: Option<&str>) -> (r: HttpRequest)
        ensures
            r@ == bare(Method::Put, "/me/player/pause"@).on_device(opt_text(device_id)),
    {
        HttpRequest::to(Method::Put, "/me/player/pause").on_device(device_id)
    }

    pub fn next(&self, device_id: Option<&str>) -> (r: HttpRequest)
        ensures
            r@ == bare(Method::Post, "/me/player/next"@).on_device(opt_text(device_id)),
    {
        HttpRequest::to(Method::Post, "/me/player/next").on_device(device_id)
    }

    pub fn previous(&self, device_id: Option<&str>) -> (r: HttpRequest)
        ensures
            r@ == bare(Method::Post, "/me/player/previous"@).on_device(opt_text(device_id)),
    {
        HttpRequest::to(Method::Post, "/me/player/previous").on_device(device_id)
    }

    pub fn seek(&self, position_ms: u32, device_id: Option<&str>) -> (r: HttpRequest)
        ensures
            r@ == bare(Method::Put, "/me/player/seek"@).on_device(opt_text(device_id)).with_number(
                "position_ms"@,
                position_ms as nat,
            ),
    {
        HttpRequest::to(Method::Put, "/me/player/seek").on_device(device_id).with_number(
            "position_ms",
            position_ms,
        )
    }

    /// Sets the volume, which is a hundred at most.
    pub fn set_volume(&self, percent: u8, device_id: Option<&str>) -> (r: HttpRequest)
        ensures
            r@ == bare(Method::Put, "/me/player/volume"@).on_device(
                opt_text(device_id),
            ).with_number("volume_percent"@, at_most(percent as u32, 100) as nat),
    {
        let percent: u32 = if percent <= 100 {
            percent as u32
        } else {
            100
        };
        HttpRequest::to(Method::Put, "/me/player/volume").on_device(device_id).with_number(
            "volume_percent",
            percent,
        )
    }

    pub fn set_shuffle(&self, state: bool, device_id: Option<&str>) -> (r: HttpRequest)
        ensures
            r@ == bare(Method::Put, "/me/player/shuffle"@).on_device(opt_text(device_id)).with(
                "state"@,
                if state {
                    "true"@
                } else {
                    "false"@
                },
            ),
    {
        let text = if state {
            "true"
        } else {
            "false"
        };
        HttpRequest::to(Method::Put, "/me/player/shuffle").on_device(device_id).with(
            "state",
            text.to_owned(),
        )
    }

    /// `state` is `off`, `context`, or `track`.
    pub fn set_repeat(&self, state: &str, device_id: Option<&str>) -> (r: HttpRequest)
        ensures
            r@ == bare(Method::Put, "/me/player/repeat"@).on_device(opt_text(device_id)).with(
                "state"@,
                state@,
            ),
    {
        HttpRequest::to(Method::Put, "/me/player/repeat").on_device(device_id).with(
            "state",
            state.to_owned(),
        )
    }

    pub fn transfer(&self, device_id: &str, play: bool) -> (r: HttpRequest)
        ensures
            r@ == bare(Method::Put, "/me/player"@).carrying(
                seq![
                    ("device_ids"@, ValueModel::Texts(seq![device_id@])),
                    flag_field("play"@, play),
                ],
            ),
    {
        let mut ids: Vec<String> = Vec::new();
        ids.push(device_id.to_owned());
        assert(texts(ids@) =~= seq![device_id@]);
        let mut fields = no_fields();
        push_field(&mut fields, "device_ids", JsonValue::Texts(ids));
        push_flag(&mut fields, "play", play);
        assert(fields_model(fields@) =~= seq![
            ("device_ids"@, ValueModel::Texts(seq![device_id@])),
            flag_field("play"@, play),
        ]);
        HttpRequest::to(Method::Put, "/me/player").carrying(fields)
    }

    pub fn add_to_queue(&self, uri: &str, device_id: Option<&str>) -> (r: HttpRequest)
        ensures
            r@ == queue_append(uri@, opt_text(device_id)),
    {
        HttpRequest::to(Method::Post, "/me/player/queue").on_device(device_id).with(
            "uri",
            uri.to_owned(),
        )
    }

    // ---- playlists -------------------------------------------------------------

    pub fn my_playlists(&self, offset: u32, limit: u32) -> (r: HttpRequest)
        ensures
            r@ == paged("/me/playlists"@, limit, offset),
    {
        page_request("/me/playlists".to_owned(), limit, offset)
    }

    pub fn playlist(&self, id: &str) -> (r: HttpRequest)
        ensures
            r@ == bare(Method::Get, path1("/playlists/"@, id@)),
    {
        HttpRequest::bare(Method::Get, join2("/playlists/", id))
    }

    pub fn playlist_items(&self, id: &str, offset: u32, limit: u32) -> (r: HttpRequest)
        ensures
            r@ == playlist_page(id@, offset, limit),
    {
        page_request(join3("/playlists/", id, "/items"), limit, offset).with(
            "additional_types",
            "track,episode".to_owned(),
        )
    }

    pub fn create_playlist(&self, name: &str, public: bool, description: &str) -> (r: HttpRequest)
        ensures
            r@ == bare(Method::Post, "/me/playlists"@).carrying(
                seq![
                    text_field("name"@, name@),
                    flag_field("public"@, public),
                    text_field("description"@, description@),
                ],
            ),
    {
        let mut fields = no_fields();
        push_text(&mut fields, "name", name);
        push_flag(&mut fields, "public", public);
        push_text(&mut fields, "description", description);
        assert(fields_model(fields@) =~= seq![
            text_field("name"@, name@),
            flag_field("public"@, public),
            text_field("description"@, description@),
        ]);
        HttpRequest::to(Method::Post, "/me/playlists").carrying(fields)
    }

    /// Whether a picture can be sent: there is one, and it is small enough.
    pub open spec fn cover_fits(encoded: Seq<char>) -> bool {
        encoded.len() > 0 && encode_utf8(encoded).len() <= MAX_COVER_PAYLOAD
    }

    /// Sends a picture. One that is missing or too large is refused before
    /// anything is sent.
    pub fn upload_playlist_cover(&self, id: &str, encoded: &str) -> (r: ApiResult<HttpRequest>)
        ensures
            Self::cover_fits(encoded@) ==> (r matches Ok(request) && request@ == (RequestModel {
                body: BodyModel::Jpeg(encoded@),
                ..bare(Method::Put, path2("/playlists/"@, id@, "/images"@))
            })),
            !Self::cover_fits(encoded@) ==> (r matches Err(ApiError::Status { status, message })
                && status == 413 && message@ == "Choose a smaller image."@),
    {
        if encoded.is_empty() || encoded.as_bytes().len() > MAX_COVER_PAYLOAD {
            return Err(
                ApiError::Status { status: 413, message: "Choose a smaller image.".to_owned() },
            );
        }
        let mut request = HttpRequest::bare(Method::Put, join3("/playlists/", id, "/images"));
        request.body = Body::Jpeg(encoded.to_owned());
        Ok(request)
    }

    pub fn update_playlist(
        &self,
        id: &str,
        name: Option<&str>,
        description: Option<&str>,
        public: Option<bool>,
    ) -> (r: HttpRequest)
        ensures
            r@ == bare(Method::Put, path1("/playlists/"@, id@)).carrying(
                detail_fields(opt_text(name), opt_text(description), public),
            ),
    {
        let mut fields = no_fields();
        match name {
            Some(name) => {
                push_text(&mut fields, "name", name);
            },
            None => {},
        }
        match description {
            Some(description) => {
                push_text(&mut fields, "description", description);
            },
            None => {},
        }
        match public {
            Some(public) => {
                push_flag(&mut fields, "public", public);
            },
            None => {},
        }
        assert(fields_model(fields@) =~= detail_fields(
            opt_text(name),
            opt_text(description),
            public,
        ));
        HttpRequest::bare(Method::Put, join2("/playlists/", id)).carrying(fields)
    }

    pub fn add_playlist_items(&self, id: &str, uris: &Vec<String>, position: Option<u32>) -> (r:
        HttpRequest)
        ensures
            r@ == playlist_edit(
                Method::Post,
                id@,
                ({
                    let listed = seq![("uris"@, ValueModel::Texts(texts(uris@)))];
                    match position {
                        Some(position) => listed.push(number_field("position"@, position)),
                        None => listed,
                    }
                }),
            ),
    {
        let mut fields = no_fields();
        push_field(&mut fields, "uris", JsonValue::Texts(clone_texts(uris)));
        assert(fields_model(fields@) =~= seq![("uris"@, ValueModel::Texts(texts(uris@)))]);
        match position {
            Some(position) => {
                push_number(&mut fields, "position", position);
            },
            None => {},
        }
        HttpRequest::bare(Method::Post, join3("/playlists/", id, "/items")).carrying(fields)
    }

    pub fn remove_playlist_items(
        &self,
        id: &str,
        uris: &Vec<String>,
        snapshot_id: Option<&str>,
    ) -> (r: HttpRequest)
        ensures
            r@ == playlist_edit(
                Method::Delete,
                id@,
                with_snapshot(
                    seq![("items"@, ValueModel::Objects("uri"@, texts(uris@)))],
                    opt_text(snapshot_id),
                ),
            ),
    {
        let mut fields = no_fields();
        push_field(&mut fields, "items", JsonValue::Objects("uri".to_owned(), clone_texts(uris)));
        assert(fields_model(fields@) =~= seq![
            ("items"@, ValueModel::Objects("uri"@, texts(uris@))),
        ]);
        match snapshot_id {
            Some(snapshot) => {
                push_text(&mut fields, "snapshot_id", snapshot);
            },
            None => {},
        }
        HttpRequest::bare(Method::Delete, join3("/playlists/", id, "/items")).carrying(fields)
    }

    /// Moves one row in front of another.
    pub fn reorder_playlist(
        &self,
        id: &str,
        range_start: u32,
        insert_before: u32,
        snapshot_id: Option<&str>,
    ) -> (r: HttpRequest)
        ensures
            r@ == playlist_edit(
                Method::Put,
                id@,
                with_snapshot(
                    seq![
                        number_field("range_start"@, range_start),
                        number_field("insert_before"@, insert_before),
                        number_field("range_length"@, 1),
                    ],
                    opt_text(snapshot_id),
                ),
            ),
    {
        let mut fields = no_fields();
        push_number(&mut fields, "range_start", range_start);
        push_number(&mut fields, "insert_before", insert_before);
        push_number(&mut fields, "range_length", 1);
        assert(fields_model(fields@) =~= seq![
            number_field("range_start"@, range_start),
            number_field("insert_before"@, insert_before),
            number_field("range_length"@, 1),
        ]);
        match snapshot_id {
            Some(snapshot) => {
                push_text(&mut fields, "snapshot_id", snapshot);
            },
            None => {},
        }
        HttpRequest::bare(Method::Put, join3("/playlists/", id, "/items")).carrying(fields)
    }

    pub fn follow_playlist(&self, id: &str) -> (r: HttpRequest)
        ensures
            r@ == bare(Method::Put, "/me/library"@).with(
                "uris"@,
                path1("spotify:playlist:"@, id@),
            ),
    {
        HttpRequest::to(Method::Put, "/me/library").with("uris", join2("spotify:playlist:", id))
    }

    pub fn unfollow_playlist(&self, id: &str) -> (r: HttpRequest)
        ensures
            r@ == bare(Method::Delete, "/me/library"@).with(
                "uris"@,
                path1("spotify:playlist:"@, id@),
            ),
    {
        HttpRequest::to(Method::Delete, "/me/library").with("uris", join2("spotify:playlist:", id))
    }

    // ---- library ---------------------------------------------------------------

    pub fn saved_tracks(&self, offset: u32, limit: u32) -> (r: HttpRequest)
        ensures
            r@ == paged("/me/tracks"@, limit, offset),
    {
        page_request("/me/tracks".to_owned(), limit, offset)
    }

    pub fn saved_albums(&self, offset: u32, limit: u32) -> (r: HttpRequest)
        ensures
            r@ == paged("/me/albums"@, limit, offset),
    {
        page_request("/me/albums".to_owned(), limit, offset)
    }

    pub fn followed_artists(&self, after: Option<&str>, limit: u32) -> (r: HttpRequest)
        ensures
            r@ == bare(Method::Get, "/me/following"@).with("type"@, "artist"@).with_number(
                "limit"@,
                limit as nat,
            ).with_optional("after"@, opt_text(after)),
    {
        HttpRequest::to(Method::Get, "/me/following").with("type", "artist".to_owned()).with_number(
            "limit",
            limit,
        ).with_optional("after", after)
    }

    pub fn saved_shows(&self, offset: u32, limit: u32) -> (r: HttpRequest)
        ensures
            r@ == paged("/me/shows"@, limit, offset),
    {
        page_request("/me/shows".to_owned(), limit, offset)
    }

    pub fn saved_episodes(&self, offset: u32, limit: u32) -> (r: HttpRequest)
        ensures
            r@ == paged("/me/episodes"@, limit, offset),
    {
        page_request("/me/episodes".to_owned(), limit, offset)
    }

    pub fn top_tracks(&self, time_range: &str, limit: u32, offset: u32) -> (r: HttpRequest)
        ensures
            r@ == paged("/me/top/tracks"@, limit, offset).with("time_range"@, time_range@),
    {
        page_request("/me/top/tracks".to_owned(), limit, offset).with(
            "time_range",
            time_range.to_owned(),
        )
    }

    pub fn top_artists(&self, time_range: &str, limit: u32) -> (r: HttpRequest)
        ensures
            r@ == bare(Method::Get, "/me/top/artists"@).with_number("limit"@, limit as nat).with(
                "time_range"@,
                time_range@,
            ),
    {
        HttpRequest::to(Method::Get, "/me/top/artists").with_number("limit", limit).with(
            "time_range",
            time_range.to_owned(),
        )
    }

    /// Saves tracks, albums, artists, shows, episodes, or playlists.
    pub fn save(&self, uris: &Vec<String>) -> (r: HttpRequest)
        ensures
            r@ == library_write(Method::Put, texts(uris@)),
            r.method == Method::Put,
            r.path@ == "/me/library"@,
            r.query@.len() == 1,
            r.query@[0].name@ == "uris"@,
            r.query@[0].value@ == joined(texts(uris@), ","@),
            r.body is Empty,
    {
        let r = library_request(Method::Put, uris);
        assert(r@.query.len() == 1);
        assert(r@.query.len() == r.query@.len());
        assert(r@.query[0] == (r.query@[0].name@, r.query@[0].value@));
        r
    }

    pub fn unsave(&self, uris: &Vec<String>) -> (r: HttpRequest)
        ensures
            r@ == library_write(Method::Delete, texts(uris@)),
            r.method == Method::Delete,
            r.path@ == "/me/library"@,
            r.query@.len() == 1,
            r.query@[0].name@ == "uris"@,
            r.query@[0].value@ == joined(texts(uris@), ","@),
            r.body is Empty,
    {
        let r = library_request(Method::Delete, uris);
        assert(r@.query.len() == 1);
        assert(r@.query.len() == r.query@.len());
        assert(r@.query[0] == (r.query@[0].name@, r.query@[0].value@));
        r
    }

    /// Asks whether each thing is in the library, in the order of `uris`.
    pub fn contains(&self, uris: &Vec<String>) -> (r: HttpRequest)
        ensures
            r@ == bare(Method::Get, "/me/library/contains"@).with(
                "uris"@,
                joined(texts(uris@), ","@),
            ),
    {
        HttpRequest::to(Method::Get, "/me/library/contains").with("uris", join(uris, ","))
    }

    // ---- catalog ---------------------------------------------------------------

    pub fn search(&self, query: &str, types: &Vec<String>) -> (r: HttpRequest)
        ensures
            r@ == search_for(query@, texts(types@), self.search_limit),
    {
        HttpRequest::to(Method::Get, "/search").with("q", query.to_owned()).with(
            "type",
            join(types, ","),
        ).with_number("limit", self.search_limit)
    }

    pub fn artist(&self, id: &str) -> (r: HttpRequest)
        ensures
            r@ == bare(Method::Get, path1("/artists/"@, id@)),
    {
        HttpRequest::bare(Method::Get, join2("/artists/", id))
    }

    pub fn artist_top_tracks(&self, id: &str) -> (r: HttpRequest)
        ensures
            r@ == bare(Method::Get, path2("/artists/"@, id@, "/top-tracks"@)),
    {
        HttpRequest::bare(Method::Get, join3("/artists/", id, "/top-tracks"))
    }

    /// A page of an artist's albums, no larger than the session allows.
    pub fn artist_albums(&self, id: &str, groups: &str, offset: u32, limit: u32) -> (r: HttpRequest)
        ensures
            r@ == artist_albums_page(id@, groups@, at_most(limit, self.artist_albums_limit), offset),
    {
        let limit: u32 = if limit <= self.artist_albums_limit {
            limit
        } else {
            self.artist_albums_limit
        };
        HttpRequest::bare(Method::Get, join3("/artists/", id, "/albums")).with(
            "include_groups",
            groups.to_owned(),
        ).with_number("limit", limit).with_number("offset", offset)
    }

    pub fn related_artists(&self, id: &str) -> (r: HttpRequest)
        ensures
            r@ == bare(Method::Get, path2("/artists/"@, id@, "/related-artists"@)),
    {
        HttpRequest::bare(Method::Get, join3("/artists/", id, "/related-artists"))
    }

    pub fn album(&self, id: &str) -> (r: HttpRequest)
        ensures
            r@ == bare(Method::Get, path1("/albums/"@, id@)),
    {
        HttpRequest::bare(Method::Get, join2("/albums/", id))
    }

    pub fn albums(&self, ids: &Vec<String>) -> (r: HttpRequest)
        ensures
            r@ == bare(Method::Get, "/albums"@).with("ids"@, joined(texts(ids@), ","@)),
    {
        HttpRequest::to(Method::Get, "/albums").with("ids", join(ids, ","))
    }

    pub fn album_tracks(&self, id: &str, offset: u32, limit: u32) -> (r: HttpRequest)
        ensures
            r@ == paged(path2("/albums/"@, id@, "/tracks"@), limit, offset),
    {
        page_request(join3("/albums/", id, "/tracks"), limit, offset)
    }

    pub fn show(&self, id: &str) -> (r: HttpRequest)
        ensures
            r@ == bare(Method::Get, path1("/shows/"@, id@)),
    {
        HttpRequest::bare(Method::Get, join2("/shows/", id))
    }

    pub fn show_episodes(&self, id: &str, offset: u32, limit: u32) -> (r: HttpRequest)
        ensures
            r@ == paged(path2("/shows/"@, id@, "/episodes"@), limit, offset),
    {
        page_request(join3("/shows/", id, "/episodes"), limit, offset)
    }

    pub fn track(&self, id: &str) -> (r: HttpRequest)
        ensures
            r@ == bare(Method::Get, path1("/tracks/"@, id@)),
    {
        HttpRequest::bare(Method::Get, join2("/tracks/", id))
    }

    pub fn episode(&self, id: &str) -> (r: HttpRequest)
        ensures
            r@ == bare(Method::Get, path1("/episodes/"@, id@)),
    {
        HttpRequest::bare(Method::Get, join2("/episodes/", id))
    }

    /// Songs like the seeds. A kind of seed that is missing is not sent.
    pub fn recommendations(
        &self,
        seed_tracks: &Vec<String>,
        seed_artists: &Vec<String>,
        limit: u32,
    ) -> (r: HttpRequest)
        ensures
            r@ == bare(Method::Get, "/recommendations"@).with_number(
                "limit"@,
                limit as nat,
            ).with_optional(
                "seed_tracks"@,
                if seed_tracks@.len() > 0 {
                    Some(joined(texts(seed_tracks@), ","@))
                } else {
                    None
                },
            ).with_optional(
                "seed_artists"@,
                if seed_artists@.len() > 0 {
                    Some(joined(texts(seed_artists@), ","@))
                } else {
                    None
                },
            ),
    {
        let mut request = HttpRequest::to(Method::Get, "/recommendations").with_number(
            "limit",
            limit,
        );
        if seed_tracks.len() > 0 {
            request = request.with("seed_tracks", join(seed_tracks, ","));
        }
        if seed_artists.len() > 0 {
            request = request.with("seed_artists", join(seed_artists, ","));
        }
        request
    }
}

// ---- appending songs to the queue ------------------------------------------------

/// Appending songs to the player's queue, one request per song. Each write is
/// answered before the next is sent, so an album keeps its order.
pub struct QueueBatch {
    pub uris: Vec<String>,
    pub device_id: Option<String>,
    /// How many songs were appended.
    pub added: usize,
}

impl QueueBatch {
    pub open spec fn wf(&self) -> bool {
        self.added <= self.uris@.len()
    }

    pub fn new(uris: Vec<String>, device_id: Option<String>) -> (r: QueueBatch)
        ensures
            r.wf(),
            r.uris == uris,
            r.device_id == device_id,
            r.added == 0,
    {
        QueueBatch { uris, device_id, added: 0 }
    }

    /// The append to send now; `None` when every song was appended.
    pub fn next_append(&self, client: &ApiClient) -> (r: Option<HttpRequest>)
        requires
            self.wf(),
        ensures
            match r {
                Some(request) => next_append_spec(
                    texts(self.uris@),
                    crate::models::text_of(self.device_id),
                    self.added as int,
                ) == Some(request@),
                None => self.added == self.uris@.len(),
            },
    {
        if self.added == self.uris.len() {
            return None;
        }
        let device = match &self.device_id {
            Some(id) => Some(id.as_str()),
            None => None,
        };
        Some(client.add_to_queue(self.uris[self.added].as_str(), device))
    }

    /// What the batch comes to once nothing is left to append, an empty one from
    /// the start: every song, and a success.
    pub fn completed(&self) -> (end: Option<(usize, ApiResult<()>)>)
        requires
            self.wf(),
        ensures
            end == if self.added == self.uris@.len() {
                Some((self.uris.len(), ApiResult::<()>::Ok(())))
            } else {
                None
            },
    {
        if self.added == self.uris.len() {
            Some((self.added, Ok(())))
        } else {
            None
        }
    }

    /// Takes the answer to an append. The end of the batch: the first error,
    /// with the number of songs appended before it, or the last success.
    pub fn appended(&mut self, result: ApiResult<()>) -> (end: Option<(usize, ApiResult<()>)>)
        requires
            old(self).wf(),
            old(self).added < old(self).uris@.len(),
        ensures
            final(self).wf(),
            final(self).uris == old(self).uris,
            final(self).device_id == old(self).device_id,
            final(self).added == added_after(old(self).added as int, result),
            end == batch_end(old(self).added as int, old(self).uris@.len() as int, result),
    {
        let all: usize = self.uris.len();
        match result {
            Err(error) => Some((self.added, Err(error))),
            Ok(_) => {
                self.added = self.added + 1;
                if self.added == all {
                    Some((self.added, Ok(())))
                } else {
                    None
                }
            },
        }
    }
}

/// The append that is sent once `added` songs were appended; `None` at the end.
pub open spec fn next_append_spec(
    uris: Seq<Seq<char>>,
    device_id: Option<Seq<char>>,
    added: int,
) -> Option<RequestModel> {
    if 0 <= added < uris.len() {
        Some(queue_append(uris[added], device_id))
    } else {
        None
    }
}

/// How many songs were appended once one more append is answered.
pub open spec fn added_after(added: int, result: ApiResult<()>) -> int {
    match result {
        Ok(_) => added + 1,
        Err(_) => added,
    }
}

/// What a batch of `total` songs comes to at an answer, when it is the last.
pub open spec fn batch_end(added: int, total: int, result: ApiResult<()>) -> Option<
    (usize, ApiResult<()>),
> {
    match result {
        Err(error) => Some((added as usize, Err(error))),
        Ok(_) => if added + 1 == total {
            Some(((added + 1) as usize, Ok(())))
        } else {
            None
        },
    }
}

/// How many songs were appended once all these answers have come.
pub open spec fn added_by(answers: Seq<ApiResult<()>>) -> int
    decreases answers.len(),
{
    if answers.len() == 0 {
        0
    } else {
        added_after(added_by(answers.drop_last()), answers.last())
    }
}

/// A batch keeps its order, repeated songs among it: after as many successes
/// as there are answers, the song at that place is sent next. The first
/// failure ends it, and counts the songs before it.
pub proof fn a_queue_batch_keeps_its_order_and_stops_at_a_failure(
    uris: Seq<Seq<char>>,
    device_id: Option<Seq<char>>,
    answers: Seq<ApiResult<()>>,
    error: ApiError,
)
    requires
        answers.len() < uris.len() <= usize::MAX,
        forall|i: int| 0 <= i < answers.len() ==> (#[trigger] answers[i]) is Ok,
    ensures
        added_by(answers) == answers.len(),
        next_append_spec(uris, device_id, added_by(answers)) == Some(
            queue_append(uris[answers.len() as int], device_id),
        ),
        batch_end(added_by(answers), uris.len() as int, Err(error)) == Some(
            (answers.len() as usize, ApiResult::<()>::Err(error)),
        ),
        (batch_end(added_by(answers), uris.len() as int, Ok(())) is Some) == (answers.len() + 1
            == uris.len()),
    decreases answers.len(),
{
    if answers.len() > 0 {
        let shorter = answers.drop_last();
        assert forall|i: int| 0 <= i < shorter.len() implies (#[trigger] shorter[i]) is Ok by {
            assert(answers[i] is Ok);
        }
        assert(answers[answers.len() - 1] is Ok);
        a_queue_batch_keeps_its_order_and_stops_at_a_failure(uris, device_id, shorter, error);
    }
}

// ---- songs that a playlist holds already -------------------------------------------

/// The addresses of the rows of a page that are wanted.
pub open spec fn wanted_uris(rows: Seq<PlaylistItem>, wanted: Seq<Seq<char>>) -> Seq<Seq<char>>
    decreases rows.len(),
{
    if rows.len() == 0 {
        Seq::empty()
    } else {
        let before = wanted_uris(rows.drop_last(), wanted);
        match rows.last().uri_spec() {
            Some(uri) => if wanted.contains(uri) {
                before.push(uri)
            } else {
                before
            },
            None => before,
        }
    }
}

/// What pages, one after the other, show to be there of what is wanted.
pub open spec fn found_on(pages: Seq<Page<PlaylistItem>>, wanted: Seq<Seq<char>>) -> Seq<Seq<char>>
    decreases pages.len(),
{
    if pages.len() == 0 {
        Seq::empty()
    } else {
        with_all(
            found_on(pages.drop_last(), wanted),
            wanted_uris(pages.last().items@, wanted),
        )
    }
}

/// Whether a row of one of the pages plays a song.
pub open spec fn played(pages: Seq<Page<PlaylistItem>>, uri: Seq<char>) -> bool {
    exists|p: int| 0 <= p < pages.len() && plays(#[trigger] pages[p].items@, uri)
}

/// Whether a row plays a song.
pub open spec fn plays(rows: Seq<PlaylistItem>, uri: Seq<char>) -> bool {
    exists|i: int| 0 <= i < rows.len() && (#[trigger] rows[i]).uri_spec() == Some(uri)
}

/// Walking a playlist for songs that are to be added to it.
pub struct DuplicateWalk {
    pub uris: Vec<String>,
    pub wanted: TextSet,
    pub found: TextSet,
    pub offset: u32,
    /// The pages that have come.
    pub pages: Ghost<Seq<Page<PlaylistItem>>>,
}

impl DuplicateWalk {
    pub open spec fn wf(&self) -> bool {
        &&& self.wanted.wf()
        &&& self.found.wf()
        &&& self.wanted.list() == with_all(Seq::empty(), texts(self.uris@))
        &&& self.found.list() == found_on(self.pages@, self.wanted.list())
    }

    /// A walk that has not begun. True when a page has to be asked for at all:
    /// nothing is looked for where nothing is to be added.
    pub fn new(uris: Vec<String>) -> (r: (DuplicateWalk, bool))
        ensures
            r.0.wf(),
            r.0.uris == uris,
            r.0.found.list() == Seq::<Seq<char>>::empty(),
            r.0.pages@.len() == 0,
            r.0.offset == 0,
            r.1 == (uris@.len() > 0),
    {
        let mut wanted = TextSet::new();
        let mut i: usize = 0;
        assert(texts(uris@).take(0) =~= Seq::<Seq<char>>::empty());
        while i < uris.len()
            invariant
                i <= uris@.len(),
                wanted.wf(),
                wanted.list() == with_all(Seq::empty(), texts(uris@).take(i as int)),
                i > 0 ==> wanted.list().len() > 0,
            decreases uris.len() - i,
        {
            proof {
                let next = texts(uris@).take(i + 1);
                assert(next.drop_last() =~= texts(uris@).take(i as int));
                assert(next.last() == uris@[i as int]@);
            }
            wanted.insert(uris[i].clone());
            i += 1;
        }
        assert(texts(uris@).take(i as int) =~= texts(uris@));
        let looking = !wanted.is_empty();
        let pages = Ghost(Seq::empty());
        (DuplicateWalk { uris, wanted, found: TextSet::new(), offset: 0, pages }, looking)
    }

    /// The page to ask for now.
    pub fn next_page(&self, client: &ApiClient, id: &str) -> (r: HttpRequest)
        ensures
            r@ == playlist_page(id@, self.offset, 50),
    {
        client.playlist_items(id, self.offset, 50)
    }

    /// Takes a page. True when another has to be asked for: not every song was
    /// found yet, and the playlist goes on.
    pub fn add_page(&mut self, page: &Page<PlaylistItem>) -> (more: bool)
        requires
            old(self).wf(),
        ensures
            final(self).wf(),
            final(self).uris == old(self).uris,
            final(self).wanted == old(self).wanted,
            final(self).pages@ == old(self).pages@.push(*page),
            final(self).found.list() == with_all(
                old(self).found.list(),
                wanted_uris(page.items@, old(self).wanted.list()),
            ),
            more == (final(self).found.list().len() != old(self).wanted.list().len()
                && page.next_offset_spec() is Some),
            final(self).offset == if more {
                page.next_offset_spec()->0
            } else {
                old(self).offset
            },
    {
        let ghost start = self.found.list();
        let ghost wanted = self.wanted.list();
        let mut i: usize = 0;
        assert(page.items@.take(0) =~= Seq::<PlaylistItem>::empty());
        while i < page.items.len()
            invariant
                i <= page.items@.len(),
                self.found.wf(),
                self.uris == old(self).uris,
                self.wanted == old(self).wanted,
                self.pages == old(self).pages,
                wanted == self.wanted.list(),
                self.offset == old(self).offset,
                self.found.list() == with_all(
                    start,
                    wanted_uris(page.items@.take(i as int), wanted),
                ),
            decreases page.items.len() - i,
        {
            proof {
                assert(page.items@.take(i + 1).drop_last() =~= page.items@.take(i as int));
                let before = wanted_uris(page.items@.take(i as int), wanted);
                match page.items@[i as int].uri_spec() {
                    Some(uri) => {
                        assert(before.push(uri).drop_last() =~= before);
                    },
                    None => {},
                }
            }
            match page.items[i].playable() {
                Some(item) => {
                    if self.wanted.contains(item.uri()) {
                        self.found.insert(item.uri().to_owned());
                    }
                },
                None => {},
            }
            i += 1;
        }
        assert(page.items@.take(i as int) =~= page.items@);
        proof {
            let pages = self.pages@.push(*page);
            assert(pages.drop_last() =~= self.pages@);
            self.pages@ = pages;
        }
        if self.found.len() == self.wanted.len() {
            return false;
        }
        match page.next_offset() {
            Some(next) => {
                self.offset = next;
                true
            },
            None => false,
        }
    }

    /// The songs that are there already, in the order, and as often, as they
    /// were asked about.
    pub fn duplicates(&self) -> (r: Vec<String>)
        requires
            self.wf(),
        ensures
            r@ == self.uris@.filter(|uri: String| played(self.pages@, uri@)),
    {
        let ghost there = |uri: String| self.found.list().contains(uri@);
        let mut list: Vec<String> = Vec::new();
        let mut i: usize = 0;
        proof {
            reveal(Seq::filter);
            assert(self.uris@.take(0) =~= Seq::<String>::empty());
        }
        while i < self.uris.len()
            invariant
                i <= self.uris@.len(),
                there == (|uri: String| self.found.list().contains(uri@)),
                list@ == self.uris@.take(i as int).filter(there),
            decreases self.uris.len() - i,
        {
            proof {
                reveal(Seq::filter);
                assert(self.uris@.take(i + 1).drop_last() =~= self.uris@.take(i as int));
                assert(self.uris@.take(i + 1).last() == self.uris@[i as int]);
            }
            if self.found.contains(self.uris[i].as_str()) {
                list.push(self.uris[i].clone());
            }
            i += 1;
        }
        assert(self.uris@.take(i as int) =~= self.uris@);
        proof {
            let on_a_page = |uri: String| played(self.pages@, uri@);
            assert forall|k: int| 0 <= k < self.uris@.len() implies there(self.uris@[k])
                == on_a_page(self.uris@[k]) by {
                wanted_songs_are_found(self.uris@, self.pages@, k);
            }
            same_filter(self.uris@, there, on_a_page);
        }
        list
    }
}

proof fn same_filter(list: Seq<String>, a: spec_fn(String) -> bool, b: spec_fn(String) -> bool)
    requires
        forall|k: int| 0 <= k < list.len() ==> a(list[k]) == b(list[k]),
    ensures
        list.filter(a) == list.filter(b),
    decreases list.len(),
{
    reveal(Seq::filter);
    if list.len() > 0 {
        let shorter = list.drop_last();
        assert forall|k: int| 0 <= k < shorter.len() implies a(shorter[k]) == b(shorter[k]) by {
            assert(shorter[k] == list[k]);
        }
        same_filter(shorter, a, b);
        assert(a(list[list.len() - 1]) == b(list[list.len() - 1]));
    }
}

proof fn found_songs_stand_on_the_pages(
    pages: Seq<Page<PlaylistItem>>,
    wanted: Seq<Seq<char>>,
    uri: Seq<char>,
)
    ensures
        found_on(pages, wanted).contains(uri) == (wanted.contains(uri) && played(pages, uri)),
        found_on(pages, wanted).no_duplicates(),
    decreases pages.len(),
{
    if pages.len() > 0 {
        let (earlier, rows) = (pages.drop_last(), pages.last().items@);
        found_songs_stand_on_the_pages(earlier, wanted, uri);
        found_songs_stand_on_the_page(rows, wanted, uri);
        let before = found_on(earlier, wanted);
        with_all_is_a_union(before, wanted_uris(rows, wanted));
        assert(found_on(pages, wanted).to_set().contains(uri) == (before.to_set().contains(uri)
            || wanted_uris(rows, wanted).to_set().contains(uri)));
        if played(earlier, uri) {
            let p = choose|p: int|
                0 <= p < earlier.len() && plays(#[trigger] earlier[p].items@, uri);
            assert(plays(pages[p].items@, uri));
        }
        if plays(rows, uri) {
            assert(plays(pages[pages.len() - 1].items@, uri));
        }
        if played(pages, uri) {
            let p = choose|p: int| 0 <= p < pages.len() && plays(#[trigger] pages[p].items@, uri);
            if p < earlier.len() {
                assert(plays(earlier[p].items@, uri));
            }
        }
    }
}

proof fn wanted_songs_are_found(uris: Seq<String>, pages: Seq<Page<PlaylistItem>>, k: int)
    requires
        0 <= k < uris.len(),
    ensures
        with_all(Seq::empty(), texts(uris)).contains(uris[k]@),
        found_on(pages, with_all(Seq::empty(), texts(uris))).contains(uris[k]@) == played(
            pages,
            uris[k]@,
        ),
{
    let wanted = with_all(Seq::empty(), texts(uris));
    with_all_is_a_union(Seq::empty(), texts(uris));
    assert(texts(uris)[k] == uris[k]@);
    assert(texts(uris).to_set().contains(uris[k]@));
    assert(wanted.to_set().contains(uris[k]@));
    found_songs_stand_on_the_pages(pages, wanted, uris[k]@);
}

/// A walk that ends before the last page has found every song that it looks
/// for: the pages that were not asked for would change nothing, and its
/// duplicates are those of the whole playlist.
pub proof fn an_early_end_misses_nothing(
    uris: Seq<String>,
    pages: Seq<Page<PlaylistItem>>,
    rest: Seq<Page<PlaylistItem>>,
)
    requires
        found_on(pages, with_all(Seq::empty(), texts(uris))).len() == with_all(
            Seq::empty(),
            texts(uris),
        ).len(),
    ensures
        forall|k: int| 0 <= k < uris.len() ==> played(pages, (#[trigger] uris[k])@),
        uris.filter(|uri: String| played(pages, uri@)) == uris.filter(
            |uri: String| played(pages + rest, uri@),
        ),
{
    let wanted = with_all(Seq::empty(), texts(uris));
    let found = found_on(pages, wanted);
    with_all_is_a_union(Seq::empty(), texts(uris));
    assert forall|uri: Seq<char>| found.to_set().contains(uri) implies wanted.to_set().contains(
        uri,
    ) by {
        found_songs_stand_on_the_pages(pages, wanted, uri);
    }
    found_songs_stand_on_the_pages(pages, wanted, Seq::empty());
    found.unique_seq_to_set();
    wanted.unique_seq_to_set();
    vstd::set_lib::lemma_subset_equality(found.to_set(), wanted.to_set());
    let here = |uri: String| played(pages, uri@);
    let anywhere = |uri: String| played(pages + rest, uri@);
    assert forall|k: int| 0 <= k < uris.len() implies played(pages, (#[trigger] uris[k])@)
        && here(uris[k]) == anywhere(uris[k]) by {
        wanted_songs_are_found(uris, pages, k);
        assert(wanted.to_set().contains(uris[k]@));
        assert(found.to_set().contains(uris[k]@));
        let p = choose|p: int| 0 <= p < pages.len() && plays(#[trigger] pages[p].items@, uris[k]@);
        assert(plays((pages + rest)[p].items@, uris[k]@));
    }
    same_filter(uris, here, anywhere);
}

/// A page shows a song to be there exactly when the song is wanted and a row
/// of the page plays it.
pub proof fn found_songs_stand_on_the_page(
    rows: Seq<PlaylistItem>,
    wanted: Seq<Seq<char>>,
    uri: Seq<char>,
)
    ensures
        wanted_uris(rows, wanted).contains(uri) == (wanted.contains(uri) && exists|i: int|
            0 <= i < rows.len() && (#[trigger] rows[i]).uri_spec() == Some(uri)),
    decreases rows.len(),
{
    if rows.len() > 0 {
        let shorter = rows.drop_last();
        found_songs_stand_on_the_page(shorter, wanted, uri);
        let before = wanted_uris(shorter, wanted);
        let after = wanted_uris(rows, wanted);
        if before.contains(uri) {
            let k = before.index_of(uri);
            assert(after[k] == uri);
            let i = choose|i: int|
                0 <= i < shorter.len() && (#[trigger] shorter[i]).uri_spec() == Some(uri);
            assert(rows[i].uri_spec() == Some(uri));
        }
        if after.contains(uri) {
            let k = after.index_of(uri);
            if k < before.len() {
                assert(before[k] == uri);
            } else {
                assert(rows[rows.len() - 1].uri_spec() == Some(uri));
            }
        }
        if wanted.contains(uri) && exists|i: int|
            0 <= i < rows.len() && (#[trigger] rows[i]).uri_spec() == Some(uri) {
            let i = choose|i: int|
                0 <= i < rows.len() && (#[trigger] rows[i]).uri_spec() == Some(uri);
            if i < shorter.len() {
                assert(shorter[i].uri_spec() == Some(uri));
            } else {
                assert(after[before.len() as int] == uri);
            }
        }
    }
}

} // verus!
