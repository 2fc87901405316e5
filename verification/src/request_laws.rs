//! What each request of the interface asks of Spotify: the method, the address, the
//! query and the body that are sent.

use vstd::prelude::*;

use crate::api::{ApiRequest, Cover, RecentsFor, RemoteAction};
use crate::client::ApiClient;
use crate::error::{ApiError, ApiResult};
use crate::exchange::{
    after_shuffle, all_kinds, call_of, catalogue_kinds, item_uris, plan, play_call, Plan,
};
use crate::models::{text_of, PlayableItem};
use crate::request::{
    Body, BodyModel, HttpRequest, JsonValue, PlayRequest, RequestModel, Scalar, ScalarModel,
    ValueModel,
};
use crate::text::{decimal, joined, texts};
use crate::text_laws::joining_goes_part_by_part;
use crate::transport::Method;

verus! {

/// What is said of a request is said of its own fields, in their order.
pub proof fn a_request_is_seen_as_it_is(r: HttpRequest, i: int)
    ensures
        r@.method == r.method,
        r@.path == r.path@,
        r@.query.len() == r.query@.len(),
        0 <= i < r.query@.len() ==> r@.query[i] == (r.query@[i].name@, r.query@[i].value@),
        r.body is Empty == (r@.body == BodyModel::Empty),
        r.body matches Body::Jpeg(encoded) ==> r@.body == BodyModel::Jpeg(encoded@),
        r.body matches Body::Json(fields) ==> (r@.body matches BodyModel::Json(seen) && seen.len()
            == fields@.len() && (0 <= i < fields@.len() ==> seen[i].0 == fields@[i].name@ && (
        match fields@[i].value {
            JsonValue::Scalar(Scalar::Text(text)) => seen[i].1 == ValueModel::Scalar(
                ScalarModel::Text(text@),
            ),
            JsonValue::Scalar(Scalar::Flag(flag)) => seen[i].1 == ValueModel::Scalar(
                ScalarModel::Flag(flag),
            ),
            JsonValue::Scalar(Scalar::Number(value)) => seen[i].1 == ValueModel::Scalar(
                ScalarModel::Number(value),
            ),
            JsonValue::Texts(list) => seen[i].1 == ValueModel::Texts(
                Seq::new(list@.len(), |k: int| list@[k]@),
            ),
            JsonValue::Object(name, Scalar::Text(text)) => seen[i].1 == ValueModel::Object(
                name@,
                ScalarModel::Text(text@),
            ),
            JsonValue::Object(name, Scalar::Flag(flag)) => seen[i].1 == ValueModel::Object(
                name@,
                ScalarModel::Flag(flag),
            ),
            JsonValue::Object(name, Scalar::Number(value)) => seen[i].1 == ValueModel::Object(
                name@,
                ScalarModel::Number(value),
            ),
            JsonValue::Objects(name, list) => seen[i].1 == ValueModel::Objects(
                name@,
                Seq::new(list@.len(), |k: int| list@[k]@),
            ),
        }))),
{
    if r.body is Json {
        let fields = r.body->Json_0@;
        if 0 <= i < fields.len() {
            match fields[i].value {
                JsonValue::Texts(list) => {
                    assert(texts(list@) =~= Seq::new(list@.len(), |k: int| list@[k]@));
                },
                JsonValue::Objects(_, list) => {
                    assert(texts(list@) =~= Seq::new(list@.len(), |k: int| list@[k]@));
                },
                _ => {},
            }
        }
    }
}

/// A request that takes one call is sent as that call, and as nothing else.
pub proof fn a_request_is_sent_as_its_call(request: ApiRequest, client: ApiClient, r: Plan)
    requires
        call_ensures(plan, (&request, &client), r),
        !(request is NewReleases),
        !(request is ShufflePlay),
        !(request is UploadPlaylistCover),
        !(request is CheckPlaylistDuplicates),
        !(request is AddManyToQueue),
    ensures
        r matches Plan::Send(call) && call_of(request, client) == Some(call@),
{
}

/// Shuffle is turned on before a context starts, on the same device, and the
/// context is the one that was asked for.
pub proof fn a_shuffled_context_starts_behind_its_shuffle(
    device_id: Option<String>,
    play: PlayRequest,
    repeat: String,
    client: ApiClient,
    r: Plan,
    next: ApiResult<HttpRequest>,
)
    requires
        call_ensures(plan, (&ApiRequest::ShufflePlay { device_id, play }, &client), r),
        call_ensures(after_shuffle, (&client, &device_id, &play, Ok(())), next),
    ensures
        next matches Ok(call) && call@ == play_call(text_of(device_id), Some(play)),
        r matches Plan::Shuffle(call) && call.method == Method::Put && call.path@
            == "/me/player/shuffle"@ && call@.query == (match device_id {
            Some(id) => seq![("device_id"@, id@)],
            None => Seq::<(Seq<char>, Seq<char>)>::empty(),
        }) + seq![("state"@, "true"@)],
        call_of(
            ApiRequest::Remote {
                action: RemoteAction::Play,
                device_id,
                play: Some(play),
                position_ms: 0,
                percent: 0,
                flag: false,
                repeat,
            },
            client,
        ) == Some(play_call(text_of(device_id), Some(play))),
{
    assert(r->Shuffle_0@.query =~= (match device_id {
        Some(id) => seq![("device_id"@, id@)],
        None => Seq::<(Seq<char>, Seq<char>)>::empty(),
    }) + seq![("state"@, "true"@)]);
}

/// A scan, a check for duplicates and an append of many songs are each done as what they
/// are, for what was asked.
pub proof fn longer_work_is_done_as_what_it_is(
    scan: ApiRequest,
    playlist_id: String,
    playlist_name: String,
    items: Vec<PlayableItem>,
    position: Option<u32>,
    request: u64,
    uris: Vec<String>,
    device_id: Option<String>,
    client: ApiClient,
    scanned: Plan,
    checked: Plan,
    appended: Plan,
    i: int,
)
    requires
        scan is NewReleases,
        call_ensures(plan, (&scan, &client), scanned),
        call_ensures(
            plan,
            (
                &ApiRequest::CheckPlaylistDuplicates {
                    playlist_id,
                    playlist_name,
                    items,
                    position,
                },
                &client,
            ),
            checked,
        ),
        call_ensures(
            plan,
            (&ApiRequest::AddManyToQueue { request, uris, device_id }, &client),
            appended,
        ),
    ensures
        scanned is Releases,
        checked matches Plan::Duplicates(walk, looking) && walk.uris@.len() == items@.len() && (0
            <= i < items@.len() ==> walk.uris@[i]@ == items@[i].uri_spec()) && walk.offset == 0
            && looking == (items@.len() > 0),
        appended matches Plan::Append(batch) && batch.uris@ == uris@ && batch.device_id == device_id
            && batch.added == 0,
{
    let walk = checked->Duplicates_0;
    assert(texts(walk.uris@).len() == item_uris(items@).len());
    if 0 <= i < items@.len() {
        assert(texts(walk.uris@)[i] == item_uris(items@)[i]);
    }
}

/// A cover goes to its playlist as the picture that was chosen, unless there is
/// none, or it is too large to be taken.
pub proof fn a_cover_goes_to_its_playlist(
    id: String,
    request: u64,
    previous_urls: Vec<String>,
    cover: Cover,
    client: ApiClient,
    r: Plan,
)
    requires
        call_ensures(
            plan,
            (&ApiRequest::UploadPlaylistCover { id, request, previous_urls, cover }, &client),
            r,
        ),
    ensures
        0 < cover.encoded@.len() && vstd::utf8::encode_utf8(cover.encoded@).len() <= 262_144 ==> (
        r matches Plan::Send(call) && call.method == Method::Put && call.path@
            == "/playlists/"@ + id@ + "/images"@ && call.query@.len() == 0 && (call.body
            matches Body::Jpeg(picture) && picture@ == cover.encoded@)),
        cover.encoded@.len() == 0 || vstd::utf8::encode_utf8(cover.encoded@).len() > 262_144 ==> (
        r matches Plan::Refuse(ApiError::Status { status, message }) && status == 413),
{
    if r is Send {
        a_request_is_seen_as_it_is(r->Send_0, 0);
        assert(r->Send_0@.query.len() == 0);
    }
}

/// The player, its devices, its queue, and what was played are read where each is
/// kept, and the account itself at its own address.
pub proof fn what_is_read_of_the_player(
    seq: u64,
    who: RecentsFor,
    generation: u64,
    before: Option<String>,
    limit: u32,
    client: ApiClient,
)
    ensures
        call_of(ApiRequest::Me, client) == Some(
            RequestModel {
                method: Method::Get,
                path: "/me"@,
                query: Seq::<(Seq<char>, Seq<char>)>::empty(),
                body: BodyModel::Empty,
            },
        ),
        call_of(ApiRequest::Devices, client) == Some(
            RequestModel {
                method: Method::Get,
                path: "/me/player/devices"@,
                query: Seq::<(Seq<char>, Seq<char>)>::empty(),
                body: BodyModel::Empty,
            },
        ),
        call_of(ApiRequest::PlaybackState { seq }, client) == Some(
            RequestModel {
                method: Method::Get,
                path: "/me/player"@,
                query: seq![("additional_types"@, "track,episode"@)],
                body: BodyModel::Empty,
            },
        ),
        call_of(ApiRequest::Queue { seq }, client) == Some(
            RequestModel {
                method: Method::Get,
                path: "/me/player/queue"@,
                query: Seq::<(Seq<char>, Seq<char>)>::empty(),
                body: BodyModel::Empty,
            },
        ),
        call_of(ApiRequest::RecentlyPlayed { who, generation, before, limit }, client) == Some(
            RequestModel {
                method: Method::Get,
                path: "/me/player/recently-played"@,
                query: seq![("limit"@, decimal(limit as nat))] + (match before {
                    Some(text) => seq![("before"@, text@)],
                    None => Seq::<(Seq<char>, Seq<char>)>::empty(),
                }),
                body: BodyModel::Empty,
            },
        ),
{
    assert(call_of(ApiRequest::Me, client)->0.query =~= Seq::<(Seq<char>, Seq<char>)>::empty());
    assert(
        call_of(ApiRequest::Devices, client)->0.query =~= Seq::<(Seq<char>, Seq<char>)>::empty()
    );
    assert(
        call_of(
            ApiRequest::PlaybackState { seq },
            client,
        )->0.query =~= seq![("additional_types"@, "track,episode"@)]
    );
    assert(
        call_of(
            ApiRequest::Queue { seq },
            client,
        )->0.query =~= Seq::<(Seq<char>, Seq<char>)>::empty()
    );
    assert(call_of(
        ApiRequest::RecentlyPlayed { who, generation, before, limit },
        client,
    )->0.query =~= seq![("limit"@, decimal(limit as nat))] + (match before {
                    Some(text) => seq![("before"@, text@)],
                    None => Seq::<(Seq<char>, Seq<char>)>::empty(),
                }));
}

/// Each button of the remote control does what it says, on the device that is
/// named, and with the value that it was set to.
pub proof fn what_a_remote_control_does(
    device_id: Option<String>,
    play: Option<PlayRequest>,
    position_ms: u32,
    percent: u8,
    flag: bool,
    repeat: String,
    client: ApiClient,
)
    ensures
        call_of(
            ApiRequest::Remote {
                action: RemoteAction::Pause,
                device_id,
                play,
                position_ms,
                percent,
                flag,
                repeat,
            },
            client,
        ) == Some(
            RequestModel {
                method: Method::Put,
                path: "/me/player/pause"@,
                query: (match device_id {
                    Some(id) => seq![("device_id"@, id@)],
                    None => Seq::<(Seq<char>, Seq<char>)>::empty(),
                }),
                body: BodyModel::Empty,
            },
        ),
        call_of(
            ApiRequest::Remote {
                action: RemoteAction::Next,
                device_id,
                play,
                position_ms,
                percent,
                flag,
                repeat,
            },
            client,
        ) == Some(
            RequestModel {
                method: Method::Post,
                path: "/me/player/next"@,
                query: (match device_id {
                    Some(id) => seq![("device_id"@, id@)],
                    None => Seq::<(Seq<char>, Seq<char>)>::empty(),
                }),
                body: BodyModel::Empty,
            },
        ),
        call_of(
            ApiRequest::Remote {
                action: RemoteAction::Previous,
                device_id,
                play,
                position_ms,
                percent,
                flag,
                repeat,
            },
            client,
        ) == Some(
            RequestModel {
                method: Method::Post,
                path: "/me/player/previous"@,
                query: (match device_id {
                    Some(id) => seq![("device_id"@, id@)],
                    None => Seq::<(Seq<char>, Seq<char>)>::empty(),
                }),
                body: BodyModel::Empty,
            },
        ),
        call_of(
            ApiRequest::Remote {
                action: RemoteAction::Seek,
                device_id,
                play,
                position_ms,
                percent,
                flag,
                repeat,
            },
            client,
        ) == Some(
            RequestModel {
                method: Method::Put,
                path: "/me/player/seek"@,
                query: (match device_id {
                    Some(id) => seq![("device_id"@, id@)],
                    None => Seq::<(Seq<char>, Seq<char>)>::empty(),
                }) + seq![("position_ms"@, decimal(position_ms as nat))],
                body: BodyModel::Empty,
            },
        ),
        call_of(
            ApiRequest::Remote {
                action: RemoteAction::Volume,
                device_id,
                play,
                position_ms,
                percent,
                flag,
                repeat,
            },
            client,
        ) == Some(
            RequestModel {
                method: Method::Put,
                path: "/me/player/volume"@,
                query: (match device_id {
                    Some(id) => seq![("device_id"@, id@)],
                    None => Seq::<(Seq<char>, Seq<char>)>::empty(),
                }) + seq![
                    ("volume_percent"@, decimal(if percent > 100 {
                        100
                    } else {
                        percent as nat
                    })),
                ],
                body: BodyModel::Empty,
            },
        ),
        call_of(
            ApiRequest::Remote {
                action: RemoteAction::Shuffle,
                device_id,
                play,
                position_ms,
                percent,
                flag,
                repeat,
            },
            client,
        ) == Some(
            RequestModel {
                method: Method::Put,
                path: "/me/player/shuffle"@,
                query: (match device_id {
                    Some(id) => seq![("device_id"@, id@)],
                    None => Seq::<(Seq<char>, Seq<char>)>::empty(),
                }) + seq![
                    ("state"@, if flag {
                        "true"@
                    } else {
                        "false"@
                    }),
                ],
                body: BodyModel::Empty,
            },
        ),
        call_of(
            ApiRequest::Remote {
                action: RemoteAction::Repeat,
                device_id,
                play,
                position_ms,
                percent,
                flag,
                repeat,
            },
            client,
        ) == Some(
            RequestModel {
                method: Method::Put,
                path: "/me/player/repeat"@,
                query: (match device_id {
                    Some(id) => seq![("device_id"@, id@)],
                    None => Seq::<(Seq<char>, Seq<char>)>::empty(),
                }) + seq![("state"@, repeat@)],
                body: BodyModel::Empty,
            },
        ),
{
    assert(call_of(
        ApiRequest::Remote {
            action: RemoteAction::Pause,
            device_id,
            play,
            position_ms,
            percent,
            flag,
            repeat,
        },
        client,
    )->0.query =~= (match device_id {
                    Some(id) => seq![("device_id"@, id@)],
                    None => Seq::<(Seq<char>, Seq<char>)>::empty(),
                }));
    assert(call_of(
        ApiRequest::Remote {
            action: RemoteAction::Next,
            device_id,
            play,
            position_ms,
            percent,
            flag,
            repeat,
        },
        client,
    )->0.query =~= (match device_id {
                    Some(id) => seq![("device_id"@, id@)],
                    None => Seq::<(Seq<char>, Seq<char>)>::empty(),
                }));
    assert(call_of(
        ApiRequest::Remote {
            action: RemoteAction::Previous,
            device_id,
            play,
            position_ms,
            percent,
            flag,
            repeat,
        },
        client,
    )->0.query =~= (match device_id {
                    Some(id) => seq![("device_id"@, id@)],
                    None => Seq::<(Seq<char>, Seq<char>)>::empty(),
                }));
    assert(call_of(
        ApiRequest::Remote {
            action: RemoteAction::Seek,
            device_id,
            play,
            position_ms,
            percent,
            flag,
            repeat,
        },
        client,
    )->0.query =~= (match device_id {
                    Some(id) => seq![("device_id"@, id@)],
                    None => Seq::<(Seq<char>, Seq<char>)>::empty(),
                }) + seq![("position_ms"@, decimal(position_ms as nat))]);
    assert(call_of(
        ApiRequest::Remote {
            action: RemoteAction::Volume,
            device_id,
            play,
            position_ms,
            percent,
            flag,
            repeat,
        },
        client,
    )->0.query =~= (match device_id {
                    Some(id) => seq![("device_id"@, id@)],
                    None => Seq::<(Seq<char>, Seq<char>)>::empty(),
                }) + seq![
                    ("volume_percent"@, decimal(if percent > 100 {
                        100
                    } else {
                        percent as nat
                    })),
                ]);
    assert(call_of(
        ApiRequest::Remote {
            action: RemoteAction::Shuffle,
            device_id,
            play,
            position_ms,
            percent,
            flag,
            repeat,
        },
        client,
    )->0.query =~= (match device_id {
                    Some(id) => seq![("device_id"@, id@)],
                    None => Seq::<(Seq<char>, Seq<char>)>::empty(),
                }) + seq![
                    ("state"@, if flag {
                        "true"@
                    } else {
                        "false"@
                    }),
                ]);
    assert(call_of(
        ApiRequest::Remote {
            action: RemoteAction::Repeat,
            device_id,
            play,
            position_ms,
            percent,
            flag,
            repeat,
        },
        client,
    )->0.query =~= (match device_id {
                    Some(id) => seq![("device_id"@, id@)],
                    None => Seq::<(Seq<char>, Seq<char>)>::empty(),
                }) + seq![("state"@, repeat@)]);
}

/// Playback starts, on the device that is named: what was played goes on, or the
/// context or the songs that are given start, at the song or the position, and at
/// the time that are given.
pub proof fn what_starts_playing(
    device_id: Option<String>,
    position_ms: u32,
    percent: u8,
    flag: bool,
    repeat: String,
    request: PlayRequest,
    client: ApiClient,
)
    ensures
        call_of(
            ApiRequest::Remote {
                action: RemoteAction::Play,
                device_id,
                play: None,
                position_ms,
                percent,
                flag,
                repeat,
            },
            client,
        ) == Some(
            RequestModel {
                method: Method::Put,
                path: "/me/player/play"@,
                query: (match device_id {
                    Some(id) => seq![("device_id"@, id@)],
                    None => Seq::<(Seq<char>, Seq<char>)>::empty(),
                }),
                body: BodyModel::Empty,
            },
        ),
        call_of(
            ApiRequest::Remote {
                action: RemoteAction::Play,
                device_id,
                play: Some(request),
                position_ms,
                percent,
                flag,
                repeat,
            },
            client,
        ) == Some(
            RequestModel {
                method: Method::Put,
                path: "/me/player/play"@,
                query: (match device_id {
                    Some(id) => seq![("device_id"@, id@)],
                    None => Seq::<(Seq<char>, Seq<char>)>::empty(),
                }),
                body: BodyModel::Json((match request.context_uri {
                    Some(uri) => seq![
                        ("context_uri"@, ValueModel::Scalar(ScalarModel::Text(uri@))),
                    ],
                    None => if request.uris@.len() > 0 {
                        seq![
                            ("uris"@, ValueModel::Texts(
                                Seq::new(request.uris@.len(), |i: int| request.uris@[i]@),
                            )),
                        ]
                    } else {
                        Seq::<(Seq<char>, ValueModel)>::empty()
                    },
                }) + (match (request.offset_uri, request.offset_position) {
                    (Some(uri), _) => seq![
                        ("offset"@, ValueModel::Object("uri"@, ScalarModel::Text(uri@))),
                    ],
                    (None, Some(position)) => seq![
                        ("offset"@, ValueModel::Object("position"@, ScalarModel::Number(position))),
                    ],
                    (None, None) => Seq::<(Seq<char>, ValueModel)>::empty(),
                }) + (if request.position_ms > 0 {
                    seq![
                        ("position_ms"@, ValueModel::Scalar(
                            ScalarModel::Number(request.position_ms),
                        )),
                    ]
                } else {
                    Seq::<(Seq<char>, ValueModel)>::empty()
                })),
            },
        ),
{
    assert(texts(request.uris@) =~= Seq::new(request.uris@.len(), |i: int| request.uris@[i]@));
    assert(call_of(
        ApiRequest::Remote {
            action: RemoteAction::Play,
            device_id,
            play: None,
            position_ms,
            percent,
            flag,
            repeat,
        },
        client,
    )->0.query =~= (match device_id {
                    Some(id) => seq![("device_id"@, id@)],
                    None => Seq::<(Seq<char>, Seq<char>)>::empty(),
                }));
    assert(call_of(
        ApiRequest::Remote {
            action: RemoteAction::Play,
            device_id,
            play: Some(request),
            position_ms,
            percent,
            flag,
            repeat,
        },
        client,
    )->0.query =~= (match device_id {
                    Some(id) => seq![("device_id"@, id@)],
                    None => Seq::<(Seq<char>, Seq<char>)>::empty(),
                }));
    assert(call_of(
        ApiRequest::Remote {
            action: RemoteAction::Play,
            device_id,
            play: Some(request),
            position_ms,
            percent,
            flag,
            repeat,
        },
        client,
    )->0.body->Json_0 =~= (match request.context_uri {
                    Some(uri) => seq![
                        ("context_uri"@, ValueModel::Scalar(ScalarModel::Text(uri@))),
                    ],
                    None => if request.uris@.len() > 0 {
                        seq![
                            ("uris"@, ValueModel::Texts(
                                Seq::new(request.uris@.len(), |i: int| request.uris@[i]@),
                            )),
                        ]
                    } else {
                        Seq::<(Seq<char>, ValueModel)>::empty()
                    },
                }) + (match (request.offset_uri, request.offset_position) {
                    (Some(uri), _) => seq![
                        ("offset"@, ValueModel::Object("uri"@, ScalarModel::Text(uri@))),
                    ],
                    (None, Some(position)) => seq![
                        ("offset"@, ValueModel::Object("position"@, ScalarModel::Number(position))),
                    ],
                    (None, None) => Seq::<(Seq<char>, ValueModel)>::empty(),
                }) + (if request.position_ms > 0 {
                    seq![
                        ("position_ms"@, ValueModel::Scalar(
                            ScalarModel::Number(request.position_ms),
                        )),
                    ]
                } else {
                    Seq::<(Seq<char>, ValueModel)>::empty()
                }));
}

/// Playback moves to the device that is named, playing or not, and a song goes to
/// the end of the queue.
pub proof fn what_moves_and_queues_playback(
    device_id: Option<String>,
    device: String,
    play: bool,
    uri: String,
    label: String,
    client: ApiClient,
)
    ensures
        call_of(ApiRequest::Transfer { device_id: device, play }, client) == Some(
            RequestModel {
                method: Method::Put,
                path: "/me/player"@,
                query: Seq::<(Seq<char>, Seq<char>)>::empty(),
                body: BodyModel::Json(
                    seq![
                        ("device_ids"@, ValueModel::Texts(seq![device@])),
                        ("play"@, ValueModel::Scalar(ScalarModel::Flag(play))),
                    ],
                ),
            },
        ),
        call_of(ApiRequest::AddToQueue { uri, device_id, label }, client) == Some(
            RequestModel {
                method: Method::Post,
                path: "/me/player/queue"@,
                query: (match device_id {
                    Some(id) => seq![("device_id"@, id@)],
                    None => Seq::<(Seq<char>, Seq<char>)>::empty(),
                }) + seq![("uri"@, uri@)],
                body: BodyModel::Empty,
            },
        ),
{
    assert(
        call_of(
            ApiRequest::Transfer { device_id: device, play },
            client,
        )->0.query =~= Seq::<(Seq<char>, Seq<char>)>::empty()
    );
    assert(
        call_of(ApiRequest::Transfer { device_id: device, play }, client)->0.body->Json_0 =~= seq![
            ("device_ids"@, ValueModel::Texts(seq![device@])),
            ("play"@, ValueModel::Scalar(ScalarModel::Flag(play))),
        ]
    );
    assert(call_of(
        ApiRequest::AddToQueue { uri, device_id, label },
        client,
    )->0.query =~= (match device_id {
                    Some(id) => seq![("device_id"@, id@)],
                    None => Seq::<(Seq<char>, Seq<char>)>::empty(),
                }) + seq![("uri"@, uri@)]);
}

/// Saving puts things into the library and removing deletes them from it, all that
/// are named and no others. Following a playlist is saving it.
pub proof fn saving_puts_and_removing_deletes(
    uris: Vec<String>,
    id: String,
    client: ApiClient,
)
    ensures
        call_of(ApiRequest::SetSaved { uris, saved: true }, client) == Some(
            RequestModel {
                method: Method::Put,
                path: "/me/library"@,
                query: seq![("uris"@, joined(Seq::new(uris@.len(), |i: int| uris@[i]@), ","@))],
                body: BodyModel::Empty,
            },
        ),
        call_of(ApiRequest::SetSaved { uris, saved: false }, client) == Some(
            RequestModel {
                method: Method::Delete,
                path: "/me/library"@,
                query: seq![("uris"@, joined(Seq::new(uris@.len(), |i: int| uris@[i]@), ","@))],
                body: BodyModel::Empty,
            },
        ),
        call_of(ApiRequest::Contains { uris }, client) == Some(
            RequestModel {
                method: Method::Get,
                path: "/me/library/contains"@,
                query: seq![("uris"@, joined(Seq::new(uris@.len(), |i: int| uris@[i]@), ","@))],
                body: BodyModel::Empty,
            },
        ),
        call_of(ApiRequest::FollowPlaylist { id, follow: true }, client) == Some(
            RequestModel {
                method: Method::Put,
                path: "/me/library"@,
                query: seq![("uris"@, "spotify:playlist:"@ + id@)],
                body: BodyModel::Empty,
            },
        ),
        call_of(ApiRequest::FollowPlaylist { id, follow: false }, client) == Some(
            RequestModel {
                method: Method::Delete,
                path: "/me/library"@,
                query: seq![("uris"@, "spotify:playlist:"@ + id@)],
                body: BodyModel::Empty,
            },
        ),
        uris@.len() == 1 && uris@[0]@ == "spotify:playlist:"@ + id@ ==> forall|saved: bool|
            #[trigger] call_of(ApiRequest::SetSaved { uris, saved }, client) == call_of(
                ApiRequest::FollowPlaylist { id, follow: saved },
                client,
            ),
{
    assert(texts(uris@) =~= Seq::new(uris@.len(), |i: int| uris@[i]@));
    assert(
        call_of(ApiRequest::SetSaved { uris, saved: true }, client)->0.query =~= seq![
            ("uris"@, joined(Seq::new(uris@.len(), |i: int| uris@[i]@), ","@)),
        ]
    );
    assert(
        call_of(ApiRequest::SetSaved { uris, saved: false }, client)->0.query =~= seq![
            ("uris"@, joined(Seq::new(uris@.len(), |i: int| uris@[i]@), ","@)),
        ]
    );
    assert(
        call_of(ApiRequest::Contains { uris }, client)->0.query =~= seq![
            ("uris"@, joined(Seq::new(uris@.len(), |i: int| uris@[i]@), ","@)),
        ]
    );
    assert(
        call_of(
            ApiRequest::FollowPlaylist { id, follow: true },
            client,
        )->0.query =~= seq![("uris"@, "spotify:playlist:"@ + id@)]
    );
    assert(
        call_of(
            ApiRequest::FollowPlaylist { id, follow: false },
            client,
        )->0.query =~= seq![("uris"@, "spotify:playlist:"@ + id@)]
    );
    let named = Seq::new(uris@.len(), |i: int| uris@[i]@);
    if uris@.len() == 1 && uris@[0]@ == "spotify:playlist:"@ + id@ {
        joining_goes_part_by_part(named, named, ","@);
        assert forall|saved: bool| #[trigger] call_of(
            ApiRequest::SetSaved { uris, saved },
            client,
        ) == call_of(ApiRequest::FollowPlaylist { id, follow: saved }, client) by {
            assert(call_of(ApiRequest::SetSaved { uris, saved }, client)->0.query =~= call_of(
                ApiRequest::FollowPlaylist { id, follow: saved },
                client,
            )->0.query);
        }
    }
}

/// The library is read list by list, fifty things at a time, from the place where
/// the last page ended.
pub proof fn what_is_read_of_the_library(
    offset: u32,
    generation: u64,
    after: Option<String>,
    client: ApiClient,
)
    ensures
        call_of(ApiRequest::SavedTracks { offset, generation }, client) == Some(
            RequestModel {
                method: Method::Get,
                path: "/me/tracks"@,
                query: seq![("limit"@, decimal(50)), ("offset"@, decimal(offset as nat))],
                body: BodyModel::Empty,
            },
        ),
        call_of(ApiRequest::SavedAlbums { offset }, client) == Some(
            RequestModel {
                method: Method::Get,
                path: "/me/albums"@,
                query: seq![("limit"@, decimal(50)), ("offset"@, decimal(offset as nat))],
                body: BodyModel::Empty,
            },
        ),
        call_of(ApiRequest::SavedShows { offset }, client) == Some(
            RequestModel {
                method: Method::Get,
                path: "/me/shows"@,
                query: seq![("limit"@, decimal(50)), ("offset"@, decimal(offset as nat))],
                body: BodyModel::Empty,
            },
        ),
        call_of(ApiRequest::SavedEpisodes { offset }, client) == Some(
            RequestModel {
                method: Method::Get,
                path: "/me/episodes"@,
                query: seq![("limit"@, decimal(50)), ("offset"@, decimal(offset as nat))],
                body: BodyModel::Empty,
            },
        ),
        call_of(ApiRequest::MyPlaylists { offset }, client) == Some(
            RequestModel {
                method: Method::Get,
                path: "/me/playlists"@,
                query: seq![("limit"@, decimal(50)), ("offset"@, decimal(offset as nat))],
                body: BodyModel::Empty,
            },
        ),
        call_of(ApiRequest::FollowedArtists { after }, client) == Some(
            RequestModel {
                method: Method::Get,
                path: "/me/following"@,
                query: seq![("type"@, "artist"@), ("limit"@, decimal(50))] + (match after {
                    Some(text) => seq![("after"@, text@)],
                    None => Seq::<(Seq<char>, Seq<char>)>::empty(),
                }),
                body: BodyModel::Empty,
            },
        ),
{
    assert(
        call_of(ApiRequest::SavedTracks { offset, generation }, client)->0.query =~= seq![
            ("limit"@, decimal(50)),
            ("offset"@, decimal(offset as nat)),
        ]
    );
    assert(
        call_of(ApiRequest::SavedAlbums { offset }, client)->0.query =~= seq![
            ("limit"@, decimal(50)),
            ("offset"@, decimal(offset as nat)),
        ]
    );
    assert(
        call_of(ApiRequest::SavedShows { offset }, client)->0.query =~= seq![
            ("limit"@, decimal(50)),
            ("offset"@, decimal(offset as nat)),
        ]
    );
    assert(
        call_of(ApiRequest::SavedEpisodes { offset }, client)->0.query =~= seq![
            ("limit"@, decimal(50)),
            ("offset"@, decimal(offset as nat)),
        ]
    );
    assert(
        call_of(ApiRequest::MyPlaylists { offset }, client)->0.query =~= seq![
            ("limit"@, decimal(50)),
            ("offset"@, decimal(offset as nat)),
        ]
    );
    assert(call_of(
        ApiRequest::FollowedArtists { after },
        client,
    )->0.query =~= seq![("type"@, "artist"@), ("limit"@, decimal(50))] + (match after {
                    Some(text) => seq![("after"@, text@)],
                    None => Seq::<(Seq<char>, Seq<char>)>::empty(),
                }));
}

/// A playlist is read by its id, its rows fifty at a time, songs and episodes alike.
pub proof fn what_is_read_of_a_playlist(
    id: String,
    offset: u32,
    generation: u64,
    client: ApiClient,
)
    ensures
        call_of(ApiRequest::Playlist { id, generation }, client) == Some(
            RequestModel {
                method: Method::Get,
                path: "/playlists/"@ + id@,
                query: Seq::<(Seq<char>, Seq<char>)>::empty(),
                body: BodyModel::Empty,
            },
        ),
        call_of(ApiRequest::PlaylistItems { id, offset, generation }, client) == Some(
            RequestModel {
                method: Method::Get,
                path: "/playlists/"@ + id@ + "/items"@,
                query: seq![
                    ("limit"@, decimal(50)),
                    ("offset"@, decimal(offset as nat)),
                    ("additional_types"@, "track,episode"@),
                ],
                body: BodyModel::Empty,
            },
        ),
        call_of(ApiRequest::PlaylistSample { id, offset, generation }, client) == Some(
            RequestModel {
                method: Method::Get,
                path: "/playlists/"@ + id@ + "/items"@,
                query: seq![
                    ("limit"@, decimal(50)),
                    ("offset"@, decimal(offset as nat)),
                    ("additional_types"@, "track,episode"@),
                ],
                body: BodyModel::Empty,
            },
        ),
{
    assert(
        call_of(
            ApiRequest::Playlist { id, generation },
            client,
        )->0.query =~= Seq::<(Seq<char>, Seq<char>)>::empty()
    );
    assert(
        call_of(ApiRequest::PlaylistItems { id, offset, generation }, client)->0.query =~= seq![
            ("limit"@, decimal(50)),
            ("offset"@, decimal(offset as nat)),
            ("additional_types"@, "track,episode"@),
        ]
    );
    assert(
        call_of(ApiRequest::PlaylistSample { id, offset, generation }, client)->0.query =~= seq![
            ("limit"@, decimal(50)),
            ("offset"@, decimal(offset as nat)),
            ("additional_types"@, "track,episode"@),
        ]
    );
}

/// Songs are added to the playlist that is named and removed from it, and a row
/// moves to the place that is named: the songs and places that are given, at the
/// state of the playlist that the edit was meant for.
pub proof fn what_an_edit_of_a_playlist_does(
    playlist_id: String,
    playlist_name: String,
    uris: Vec<String>,
    position: Option<u32>,
    range_start: u32,
    insert_before: u32,
    snapshot_id: Option<String>,
    client: ApiClient,
)
    ensures
        call_of(
            ApiRequest::AddToPlaylist { playlist_id, playlist_name, uris, position },
            client,
        ) == Some(
            RequestModel {
                method: Method::Post,
                path: "/playlists/"@ + playlist_id@ + "/items"@,
                query: Seq::<(Seq<char>, Seq<char>)>::empty(),
                body: BodyModel::Json(seq![
                    ("uris"@, ValueModel::Texts(Seq::new(uris@.len(), |i: int| uris@[i]@))),
                ] + (match position {
                    Some(row) => seq![("position"@, ValueModel::Scalar(ScalarModel::Number(row)))],
                    None => Seq::<(Seq<char>, ValueModel)>::empty(),
                })),
            },
        ),
        call_of(ApiRequest::RemoveFromPlaylist { playlist_id, uris, snapshot_id }, client) == Some(
            RequestModel {
                method: Method::Delete,
                path: "/playlists/"@ + playlist_id@ + "/items"@,
                query: Seq::<(Seq<char>, Seq<char>)>::empty(),
                body: BodyModel::Json(seq![
                    (
                        "items"@,
                        ValueModel::Objects("uri"@, Seq::new(uris@.len(), |i: int| uris@[i]@)),
                    ),
                ] + (match snapshot_id {
                    Some(snapshot) => seq![
                        ("snapshot_id"@, ValueModel::Scalar(ScalarModel::Text(snapshot@))),
                    ],
                    None => Seq::<(Seq<char>, ValueModel)>::empty(),
                })),
            },
        ),
        call_of(
            ApiRequest::ReorderPlaylist { playlist_id, range_start, insert_before, snapshot_id },
            client,
        ) == Some(
            RequestModel {
                method: Method::Put,
                path: "/playlists/"@ + playlist_id@ + "/items"@,
                query: Seq::<(Seq<char>, Seq<char>)>::empty(),
                body: BodyModel::Json(seq![
                    ("range_start"@, ValueModel::Scalar(ScalarModel::Number(range_start))),
                    ("insert_before"@, ValueModel::Scalar(ScalarModel::Number(insert_before))),
                    ("range_length"@, ValueModel::Scalar(ScalarModel::Number(1))),
                ] + (match snapshot_id {
                    Some(snapshot) => seq![
                        ("snapshot_id"@, ValueModel::Scalar(ScalarModel::Text(snapshot@))),
                    ],
                    None => Seq::<(Seq<char>, ValueModel)>::empty(),
                })),
            },
        ),
{
    assert(texts(uris@) =~= Seq::new(uris@.len(), |i: int| uris@[i]@));
    assert(
        call_of(
            ApiRequest::AddToPlaylist { playlist_id, playlist_name, uris, position },
            client,
        )->0.query =~= Seq::<(Seq<char>, Seq<char>)>::empty()
    );
    assert(call_of(
        ApiRequest::AddToPlaylist { playlist_id, playlist_name, uris, position },
        client,
    )->0.body->Json_0 =~= seq![
        ("uris"@, ValueModel::Texts(Seq::new(uris@.len(), |i: int| uris@[i]@))),
    ] + (match position {
                    Some(row) => seq![("position"@, ValueModel::Scalar(ScalarModel::Number(row)))],
                    None => Seq::<(Seq<char>, ValueModel)>::empty(),
                }));
    assert(
        call_of(
            ApiRequest::RemoveFromPlaylist { playlist_id, uris, snapshot_id },
            client,
        )->0.query =~= Seq::<(Seq<char>, Seq<char>)>::empty()
    );
    assert(call_of(ApiRequest::RemoveFromPlaylist { playlist_id, uris, snapshot_id }, client)->0.body->Json_0 =~= seq![
        ("items"@, ValueModel::Objects("uri"@, Seq::new(uris@.len(), |i: int| uris@[i]@))),
    ] + (match snapshot_id {
                    Some(snapshot) => seq![
                        ("snapshot_id"@, ValueModel::Scalar(ScalarModel::Text(snapshot@))),
                    ],
                    None => Seq::<(Seq<char>, ValueModel)>::empty(),
                }));
    assert(
        call_of(
            ApiRequest::ReorderPlaylist { playlist_id, range_start, insert_before, snapshot_id },
            client,
        )->0.query =~= Seq::<(Seq<char>, Seq<char>)>::empty()
    );
    assert(call_of(
        ApiRequest::ReorderPlaylist { playlist_id, range_start, insert_before, snapshot_id },
        client,
    )->0.body->Json_0 =~= seq![
                    ("range_start"@, ValueModel::Scalar(ScalarModel::Number(range_start))),
                    ("insert_before"@, ValueModel::Scalar(ScalarModel::Number(insert_before))),
                    ("range_length"@, ValueModel::Scalar(ScalarModel::Number(1))),
                ] + (match snapshot_id {
                    Some(snapshot) => seq![
                        ("snapshot_id"@, ValueModel::Scalar(ScalarModel::Text(snapshot@))),
                    ],
                    None => Seq::<(Seq<char>, ValueModel)>::empty(),
                }));
}

/// A playlist is made with the name, the description and the visibility that are
/// given; later each of them that is given is changed, and nothing else.
pub proof fn what_makes_and_describes_a_playlist(
    id: String,
    name: String,
    description: String,
    public: bool,
    new_name: Option<String>,
    new_description: Option<String>,
    new_public: Option<bool>,
    client: ApiClient,
)
    ensures
        call_of(ApiRequest::CreatePlaylist { name, public, description }, client) == Some(
            RequestModel {
                method: Method::Post,
                path: "/me/playlists"@,
                query: Seq::<(Seq<char>, Seq<char>)>::empty(),
                body: BodyModel::Json(seq![
                    ("name"@, ValueModel::Scalar(ScalarModel::Text(name@))),
                    ("public"@, ValueModel::Scalar(ScalarModel::Flag(public))),
                    ("description"@, ValueModel::Scalar(ScalarModel::Text(description@))),
                ]),
            },
        ),
        call_of(
            ApiRequest::UpdatePlaylist {
                id,
                name: new_name,
                description: new_description,
                public: new_public,
            },
            client,
        ) == Some(
            RequestModel {
                method: Method::Put,
                path: "/playlists/"@ + id@,
                query: Seq::<(Seq<char>, Seq<char>)>::empty(),
                body: BodyModel::Json((match new_name {
                    Some(text) => seq![("name"@, ValueModel::Scalar(ScalarModel::Text(text@)))],
                    None => Seq::<(Seq<char>, ValueModel)>::empty(),
                }) + (match new_description {
                    Some(text) => seq![
                        ("description"@, ValueModel::Scalar(ScalarModel::Text(text@))),
                    ],
                    None => Seq::<(Seq<char>, ValueModel)>::empty(),
                }) + (match new_public {
                    Some(flag) => seq![("public"@, ValueModel::Scalar(ScalarModel::Flag(flag)))],
                    None => Seq::<(Seq<char>, ValueModel)>::empty(),
                })),
            },
        ),
{
    assert(
        call_of(
            ApiRequest::CreatePlaylist { name, public, description },
            client,
        )->0.query =~= Seq::<(Seq<char>, Seq<char>)>::empty()
    );
    assert(call_of(
        ApiRequest::CreatePlaylist { name, public, description },
        client,
    )->0.body->Json_0 =~= seq![
                    ("name"@, ValueModel::Scalar(ScalarModel::Text(name@))),
                    ("public"@, ValueModel::Scalar(ScalarModel::Flag(public))),
                    ("description"@, ValueModel::Scalar(ScalarModel::Text(description@))),
                ]);
    assert(
        call_of(
            ApiRequest::UpdatePlaylist {
                id,
                name: new_name,
                description: new_description,
                public: new_public,
            },
            client,
        )->0.query =~= Seq::<(Seq<char>, Seq<char>)>::empty()
    );
    assert(call_of(
        ApiRequest::UpdatePlaylist {
            id,
            name: new_name,
            description: new_description,
            public: new_public,
        },
        client,
    )->0.body->Json_0 =~= (match new_name {
                    Some(text) => seq![("name"@, ValueModel::Scalar(ScalarModel::Text(text@)))],
                    None => Seq::<(Seq<char>, ValueModel)>::empty(),
                }) + (match new_description {
                    Some(text) => seq![
                        ("description"@, ValueModel::Scalar(ScalarModel::Text(text@))),
                    ],
                    None => Seq::<(Seq<char>, ValueModel)>::empty(),
                }) + (match new_public {
                    Some(flag) => seq![("public"@, ValueModel::Scalar(ScalarModel::Flag(flag)))],
                    None => Seq::<(Seq<char>, ValueModel)>::empty(),
                }));
}

/// A search asks for songs, artists, albums, playlists, shows and episodes. The two
/// halves that it may be split into ask for playlists, and for everything else.
pub proof fn what_a_search_asks_for(
    query: String,
    serial: u64,
    generation: u64,
    client: ApiClient,
)
    ensures
        call_of(ApiRequest::Search { query, serial }, client) == Some(
            RequestModel {
                method: Method::Get,
                path: "/search"@,
                query: seq![
                    ("q"@, query@),
                    (
                        "type"@,
                        joined(
                            seq!["track"@, "artist"@, "album"@, "playlist"@, "show"@, "episode"@],
                            ","@,
                        ),
                    ),
                    ("limit"@, decimal(client.search_limit as nat)),
                ],
                body: BodyModel::Empty,
            },
        ),
        call_of(ApiRequest::SearchCatalogue { query, serial }, client) == Some(
            RequestModel {
                method: Method::Get,
                path: "/search"@,
                query: seq![
                    ("q"@, query@),
                    (
                        "type"@,
                        joined(seq!["track"@, "artist"@, "album"@, "show"@, "episode"@], ","@),
                    ),
                    ("limit"@, decimal(client.search_limit as nat)),
                ],
                body: BodyModel::Empty,
            },
        ),
        call_of(ApiRequest::SearchPlaylists { query, serial }, client) == Some(
            RequestModel {
                method: Method::Get,
                path: "/search"@,
                query: seq![
                    ("q"@, query@),
                    ("type"@, joined(seq!["playlist"@], ","@)),
                    ("limit"@, decimal(client.search_limit as nat)),
                ],
                body: BodyModel::Empty,
            },
        ),
        call_of(ApiRequest::Discover { term: query, generation }, client) == Some(
            RequestModel {
                method: Method::Get,
                path: "/search"@,
                query: seq![
                    ("q"@, query@),
                    ("type"@, joined(seq!["playlist"@], ","@)),
                    ("limit"@, decimal(client.search_limit as nat)),
                ],
                body: BodyModel::Empty,
            },
        ),
        all_kinds().to_set() == catalogue_kinds().to_set().insert("playlist"@),
        all_kinds().no_duplicates(),
{
    assert(
        call_of(ApiRequest::Search { query, serial }, client)->0.query =~= seq![
            ("q"@, query@),
            (
                "type"@,
                joined(seq!["track"@, "artist"@, "album"@, "playlist"@, "show"@, "episode"@], ","@),
            ),
            ("limit"@, decimal(client.search_limit as nat)),
        ]
    );
    assert(
        call_of(ApiRequest::SearchCatalogue { query, serial }, client)->0.query =~= seq![
            ("q"@, query@),
            ("type"@, joined(seq!["track"@, "artist"@, "album"@, "show"@, "episode"@], ","@)),
            ("limit"@, decimal(client.search_limit as nat)),
        ]
    );
    assert(
        call_of(ApiRequest::SearchPlaylists { query, serial }, client)->0.query =~= seq![
            ("q"@, query@),
            ("type"@, joined(seq!["playlist"@], ","@)),
            ("limit"@, decimal(client.search_limit as nat)),
        ]
    );
    assert(
        call_of(ApiRequest::Discover { term: query, generation }, client)->0.query =~= seq![
            ("q"@, query@),
            ("type"@, joined(seq!["playlist"@], ","@)),
            ("limit"@, decimal(client.search_limit as nat)),
        ]
    );
    reveal_strlit("track");
    reveal_strlit("artist");
    reveal_strlit("album");
    reveal_strlit("playlist");
    reveal_strlit("show");
    reveal_strlit("episode");
    let (all, some) = (all_kinds(), catalogue_kinds());
    assert forall|kind: Seq<char>| all.to_set().contains(kind) == some.to_set().insert(
        "playlist"@,
    ).contains(kind) by {
        assert(all[0] == some[0] && all[1] == some[1] && all[2] == some[2]);
        assert(all[4] == some[3] && all[5] == some[4] && all[3] == "playlist"@);
        if all.contains(kind) {
            let at = all.index_of(kind);
            assert(all[at] == kind);
            assert(kind == "playlist"@ || some.contains(kind)) by {
                if at == 3 {
                } else if at < 3 {
                    assert(some[at] == kind);
                } else {
                    assert(some[at - 1] == kind);
                }
            }
        }
        if some.contains(kind) {
            let at = some.index_of(kind);
            assert(some[at] == kind);
            if at < 3 {
                assert(all[at] == kind);
            } else {
                assert(all[at + 1] == kind);
            }
        }
        assert(all.contains("playlist"@));
    }
    assert(all.to_set() =~= some.to_set().insert("playlist"@));
    assert forall|i: int, j: int| 0 <= i < j < all.len() implies all[i] != all[j] by {
        assert(all[0][0] == 't' && all[1][1] == 'r' && all[2][1] == 'l' && all[3][0] == 'p');
        assert(all[4][0] == 's' && all[5][0] == 'e' && all[1][0] == 'a' && all[2][0] == 'a');
    }
}

/// An artist is read by their id, and their songs, albums and peers below it. No more
/// albums are asked for at once than the session may have.
pub proof fn what_is_read_of_artists(
    id: String,
    groups: String,
    offset: u32,
    client: ApiClient,
)
    ensures
        call_of(ApiRequest::Artist { id }, client) == Some(
            RequestModel {
                method: Method::Get,
                path: "/artists/"@ + id@,
                query: Seq::<(Seq<char>, Seq<char>)>::empty(),
                body: BodyModel::Empty,
            },
        ),
        call_of(ApiRequest::ArtistTopTracks { id }, client) == Some(
            RequestModel {
                method: Method::Get,
                path: "/artists/"@ + id@ + "/top-tracks"@,
                query: Seq::<(Seq<char>, Seq<char>)>::empty(),
                body: BodyModel::Empty,
            },
        ),
        call_of(ApiRequest::RelatedArtists { id }, client) == Some(
            RequestModel {
                method: Method::Get,
                path: "/artists/"@ + id@ + "/related-artists"@,
                query: Seq::<(Seq<char>, Seq<char>)>::empty(),
                body: BodyModel::Empty,
            },
        ),
        call_of(ApiRequest::ArtistAlbums { id, groups, offset }, client) == Some(
            RequestModel {
                method: Method::Get,
                path: "/artists/"@ + id@ + "/albums"@,
                query: seq![
                    ("include_groups"@, groups@),
                    ("limit"@, decimal(if client.artist_albums_limit < 50 {
                        client.artist_albums_limit as nat
                    } else {
                        50
                    })),
                    ("offset"@, decimal(offset as nat)),
                ],
                body: BodyModel::Empty,
            },
        ),
{
    assert(
        call_of(
            ApiRequest::Artist { id },
            client,
        )->0.query =~= Seq::<(Seq<char>, Seq<char>)>::empty()
    );
    assert(
        call_of(
            ApiRequest::ArtistTopTracks { id },
            client,
        )->0.query =~= Seq::<(Seq<char>, Seq<char>)>::empty()
    );
    assert(
        call_of(
            ApiRequest::RelatedArtists { id },
            client,
        )->0.query =~= Seq::<(Seq<char>, Seq<char>)>::empty()
    );
    assert(call_of(ApiRequest::ArtistAlbums { id, groups, offset }, client)->0.query =~= seq![
                    ("include_groups"@, groups@),
                    ("limit"@, decimal(if client.artist_albums_limit < 50 {
                        client.artist_albums_limit as nat
                    } else {
                        50
                    })),
                    ("offset"@, decimal(offset as nat)),
                ]);
}

/// Albums, shows, songs and episodes are read by their ids, and what an album and
/// a show hold below them, fifty things at a time.
pub proof fn what_is_read_of_albums_and_shows(
    id: String,
    offset: u32,
    generation: u64,
    request: u64,
    client: ApiClient,
)
    ensures
        call_of(ApiRequest::Album { id }, client) == Some(
            RequestModel {
                method: Method::Get,
                path: "/albums/"@ + id@,
                query: Seq::<(Seq<char>, Seq<char>)>::empty(),
                body: BodyModel::Empty,
            },
        ),
        call_of(ApiRequest::AlbumTracks { id, offset, generation }, client) == Some(
            RequestModel {
                method: Method::Get,
                path: "/albums/"@ + id@ + "/tracks"@,
                query: seq![("limit"@, decimal(50)), ("offset"@, decimal(offset as nat))],
                body: BodyModel::Empty,
            },
        ),
        call_of(ApiRequest::AlbumQueueTracks { id, offset, request }, client) == Some(
            RequestModel {
                method: Method::Get,
                path: "/albums/"@ + id@ + "/tracks"@,
                query: seq![("limit"@, decimal(50)), ("offset"@, decimal(offset as nat))],
                body: BodyModel::Empty,
            },
        ),
        call_of(ApiRequest::Show { id }, client) == Some(
            RequestModel {
                method: Method::Get,
                path: "/shows/"@ + id@,
                query: Seq::<(Seq<char>, Seq<char>)>::empty(),
                body: BodyModel::Empty,
            },
        ),
        call_of(ApiRequest::ShowEpisodes { id, offset }, client) == Some(
            RequestModel {
                method: Method::Get,
                path: "/shows/"@ + id@ + "/episodes"@,
                query: seq![("limit"@, decimal(50)), ("offset"@, decimal(offset as nat))],
                body: BodyModel::Empty,
            },
        ),
        call_of(ApiRequest::Track { id }, client) == Some(
            RequestModel {
                method: Method::Get,
                path: "/tracks/"@ + id@,
                query: Seq::<(Seq<char>, Seq<char>)>::empty(),
                body: BodyModel::Empty,
            },
        ),
        call_of(ApiRequest::Episode { id }, client) == Some(
            RequestModel {
                method: Method::Get,
                path: "/episodes/"@ + id@,
                query: Seq::<(Seq<char>, Seq<char>)>::empty(),
                body: BodyModel::Empty,
            },
        ),
{
    assert(
        call_of(
            ApiRequest::Album { id },
            client,
        )->0.query =~= Seq::<(Seq<char>, Seq<char>)>::empty()
    );
    assert(
        call_of(ApiRequest::AlbumTracks { id, offset, generation }, client)->0.query =~= seq![
            ("limit"@, decimal(50)),
            ("offset"@, decimal(offset as nat)),
        ]
    );
    assert(
        call_of(
            ApiRequest::AlbumQueueTracks { id, offset, request },
            client,
        )->0.query =~= seq![("limit"@, decimal(50)), ("offset"@, decimal(offset as nat))]
    );
    assert(
        call_of(
            ApiRequest::Show { id },
            client,
        )->0.query =~= Seq::<(Seq<char>, Seq<char>)>::empty()
    );
    assert(
        call_of(ApiRequest::ShowEpisodes { id, offset }, client)->0.query =~= seq![
            ("limit"@, decimal(50)),
            ("offset"@, decimal(offset as nat)),
        ]
    );
    assert(
        call_of(
            ApiRequest::Track { id },
            client,
        )->0.query =~= Seq::<(Seq<char>, Seq<char>)>::empty()
    );
    assert(
        call_of(
            ApiRequest::Episode { id },
            client,
        )->0.query =~= Seq::<(Seq<char>, Seq<char>)>::empty()
    );
}

/// The listener's favourites of the last weeks and months, and songs like the ones
/// that are given.
pub proof fn what_home_is_made_of(
    offset: u32,
    generation: u64,
    seed_tracks: Vec<String>,
    seed_artists: Vec<String>,
    client: ApiClient,
)
    ensures
        call_of(ApiRequest::TopTracks { offset, full: true, generation }, client) == Some(
            RequestModel {
                method: Method::Get,
                path: "/me/top/tracks"@,
                query: seq![
                    ("limit"@, decimal(50)),
                    ("offset"@, decimal(offset as nat)),
                    ("time_range"@, "short_term"@),
                ],
                body: BodyModel::Empty,
            },
        ),
        call_of(ApiRequest::TopTracks { offset, full: false, generation }, client) == Some(
            RequestModel {
                method: Method::Get,
                path: "/me/top/tracks"@,
                query: seq![
                    ("limit"@, decimal(20)),
                    ("offset"@, decimal(offset as nat)),
                    ("time_range"@, "short_term"@),
                ],
                body: BodyModel::Empty,
            },
        ),
        call_of(ApiRequest::TopArtists { generation }, client) == Some(
            RequestModel {
                method: Method::Get,
                path: "/me/top/artists"@,
                query: seq![("limit"@, decimal(20)), ("time_range"@, "medium_term"@)],
                body: BodyModel::Empty,
            },
        ),
        call_of(
            ApiRequest::Recommendations { seed_tracks, seed_artists, generation },
            client,
        ) == Some(
            RequestModel {
                method: Method::Get,
                path: "/recommendations"@,
                query: seq![("limit"@, decimal(20))] + (if seed_tracks@.len() > 0 {
                    seq![
                        ("seed_tracks"@, joined(
                            Seq::new(seed_tracks@.len(), |i: int| seed_tracks@[i]@),
                            ","@,
                        )),
                    ]
                } else {
                    Seq::<(Seq<char>, Seq<char>)>::empty()
                }) + (if seed_artists@.len() > 0 {
                    seq![
                        ("seed_artists"@, joined(
                            Seq::new(seed_artists@.len(), |i: int| seed_artists@[i]@),
                            ","@,
                        )),
                    ]
                } else {
                    Seq::<(Seq<char>, Seq<char>)>::empty()
                }),
                body: BodyModel::Empty,
            },
        ),
{
    assert(texts(seed_tracks@) =~= Seq::new(seed_tracks@.len(), |i: int| seed_tracks@[i]@));
    assert(texts(seed_artists@) =~= Seq::new(seed_artists@.len(), |i: int| seed_artists@[i]@));
    assert(
        call_of(ApiRequest::TopTracks { offset, full: true, generation }, client)->0.query =~= seq![
            ("limit"@, decimal(50)),
            ("offset"@, decimal(offset as nat)),
            ("time_range"@, "short_term"@),
        ]
    );
    assert(
        call_of(ApiRequest::TopTracks { offset, full: false, generation }, client)->0.query =~= seq![
            ("limit"@, decimal(20)),
            ("offset"@, decimal(offset as nat)),
            ("time_range"@, "short_term"@),
        ]
    );
    assert(
        call_of(ApiRequest::TopArtists { generation }, client)->0.query =~= seq![
            ("limit"@, decimal(20)),
            ("time_range"@, "medium_term"@),
        ]
    );
    assert(call_of(
        ApiRequest::Recommendations { seed_tracks, seed_artists, generation },
        client,
    )->0.query =~= seq![("limit"@, decimal(20))] + (if seed_tracks@.len() > 0 {
                    seq![
                        ("seed_tracks"@, joined(
                            Seq::new(seed_tracks@.len(), |i: int| seed_tracks@[i]@),
                            ","@,
                        )),
                    ]
                } else {
                    Seq::<(Seq<char>, Seq<char>)>::empty()
                }) + (if seed_artists@.len() > 0 {
                    seq![
                        ("seed_artists"@, joined(
                            Seq::new(seed_artists@.len(), |i: int| seed_artists@[i]@),
                            ","@,
                        )),
                    ]
                } else {
                    Seq::<(Seq<char>, Seq<char>)>::empty()
                }));
}

/// Saving sends a put and removing a delete, to the library, for all that is named.
pub proof fn a_save_and_a_removal_differ_in_their_method(
    client: ApiClient,
    uris: Vec<String>,
    saved: HttpRequest,
    removed: HttpRequest,
)
    requires
        call_ensures(ApiClient::save, (&client, &uris), saved),
        call_ensures(ApiClient::unsave, (&client, &uris), removed),
    ensures
        saved.method == Method::Put,
        removed.method == Method::Delete,
        saved.path@ == "/me/library"@ && removed.path@ == saved.path@,
        saved.query@.len() == 1 && removed.query@.len() == 1,
        saved.query@[0].name@ == "uris"@ && saved.query@[0].value@ == joined(
            Seq::new(uris@.len(), |i: int| uris@[i]@),
            ","@,
        ),
        removed.query@[0].name@ == "uris"@ && removed.query@[0].value@ == saved.query@[0].value@,
        saved.body is Empty && removed.body is Empty,
{
    assert(texts(uris@) =~= Seq::new(uris@.len(), |i: int| uris@[i]@));
}

/// Albums are loaded together by their ids, and an artist's albums are asked for with the
/// groups that are named.
pub proof fn albums_are_loaded_together(
    client: ApiClient,
    ids: Vec<String>,
    together: HttpRequest,
)
    requires
        call_ensures(ApiClient::albums, (&client, &ids), together),
    ensures
        together.method == Method::Get,
        together.path@ == "/albums"@,
        together@.query == seq![
            ("ids"@, joined(Seq::new(ids@.len(), |i: int| ids@[i]@), ","@)),
        ],
{
    assert(texts(ids@) =~= Seq::new(ids@.len(), |i: int| ids@[i]@));
    assert(together@.query =~= seq![
        ("ids"@, joined(Seq::new(ids@.len(), |i: int| ids@[i]@), ","@)),
    ]);
}

} // verus!
