//! What Spotify's catalogue and library answer with, as far as this client
//! looks at it.

use std::sync::Arc;

use vstd::prelude::*;

verus! {

/// An artist as credited on an album or a track.
#[derive(Debug, PartialEq, Eq)]
pub struct ArtistRef {
    pub id: Option<String>,
    pub name: String,
}

impl Clone for ArtistRef {
    fn clone(&self) -> (r: Self)
        ensures
            r == *self,
    {
        ArtistRef { id: clone_text(&self.id), name: self.name.clone() }
    }
}

impl Default for ArtistRef {
    fn default() -> (r: Self)
        ensures
            r.id is None,
            r.name@.len() == 0,
    {
        ArtistRef { id: None, name: String::new() }
    }
}

/// A copy of an optional text.
pub fn clone_text(text: &Option<String>) -> (r: Option<String>)
    ensures
        r == *text,
{
    match text {
        Some(text) => Some(text.clone()),
        None => None,
    }
}

/// The text of an optional string.
pub open spec fn text_of(text: Option<String>) -> Option<Seq<char>> {
    match text {
        Some(text) => Some(text@),
        None => None,
    }
}

/// A copy of a list of credits.
pub fn clone_credits(artists: &Vec<ArtistRef>) -> (r: Vec<ArtistRef>)
    ensures
        r@ == artists@,
{
    let mut copy: Vec<ArtistRef> = Vec::new();
    let mut i: usize = 0;
    while i < artists.len()
        invariant
            i <= artists@.len(),
            copy@ == artists@.take(i as int),
        decreases artists.len() - i,
    {
        copy.push(artists[i].clone());
        assert(artists@.take(i + 1) =~= artists@.take(i as int).push(artists@[i as int]));
        i += 1;
    }
    assert(artists@.take(i as int) =~= artists@);
    copy
}

/// One page of a list.
#[derive(Debug, PartialEq, Eq)]
pub struct Page<T> {
    pub items: Vec<T>,
    pub total: u32,
    pub limit: u32,
    pub offset: u32,
    /// The address of the page behind this one.
    pub next: Option<String>,
}

impl<T> Default for Page<T> {
    fn default() -> (r: Self)
        ensures
            r.items@.len() == 0,
            r.total == 0,
            r.limit == 0,
            r.offset == 0,
            r.next is None,
    {
        Page { items: Vec::new(), total: 0, limit: 0, offset: 0, next: None }
    }
}

impl<T> Page<T> {
    /// Where the page behind this one starts, when there is one.
    pub open spec fn next_offset_spec(self) -> Option<u32> {
        if self.next is Some && self.offset + self.limit <= u32::MAX {
            Some((self.offset + self.limit) as u32)
        } else {
            None
        }
    }

    pub fn next_offset(&self) -> (r: Option<u32>)
        ensures
            r == self.next_offset_spec(),
    {
        if self.next.is_some() {
            self.offset.checked_add(self.limit)
        } else {
            None
        }
    }
}

/// An album without its tracks, as a track names it.
#[derive(Debug, PartialEq, Eq)]
pub struct AlbumSummary {
    pub id: String,
    pub name: String,
    pub uri: String,
    pub album_group: Option<String>,
    pub album_type: Option<String>,
    pub release_date: Option<String>,
    pub artists: Vec<ArtistRef>,
}

#[derive(Debug, PartialEq, Eq)]
pub struct Track {
    pub id: Option<String>,
    pub name: String,
    pub uri: String,
    pub artists: Vec<ArtistRef>,
    pub album: Option<Arc<AlbumSummary>>,
    pub is_playable: Option<bool>,
}

impl Default for Track {
    fn default() -> (r: Self)
        ensures
            r.is_blank(),
    {
        Track {
            id: None,
            name: String::new(),
            uri: String::new(),
            artists: Vec::new(),
            album: None,
            is_playable: None,
        }
    }
}

impl Track {
    /// Whether a track holds nothing.
    pub open spec fn is_blank(self) -> bool {
        &&& self.id is None
        &&& self.name@.len() == 0
        &&& self.uri@.len() == 0
        &&& self.artists@.len() == 0
        &&& self.album is None
        &&& self.is_playable is None
    }

    /// Whether two tracks hold the same.
    pub open spec fn same(self, other: Track) -> bool {
        &&& self.id == other.id
        &&& self.name == other.name
        &&& self.uri == other.uri
        &&& self.artists@ == other.artists@
        &&& self.album == other.album
        &&& self.is_playable == other.is_playable
    }
}

impl Clone for Track {
    fn clone(&self) -> (r: Self)
        ensures
            r.same(*self),
    {
        Track {
            id: clone_text(&self.id),
            name: self.name.clone(),
            uri: self.uri.clone(),
            artists: clone_credits(&self.artists),
            album: match &self.album {
                Some(album) => Some(album.clone()),
                None => None,
            },
            is_playable: self.is_playable,
        }
    }
}

#[derive(Debug, PartialEq, Eq)]
pub struct Album {
    pub id: String,
    pub name: String,
    pub uri: String,
    /// How the album stands to the artist whose list it is on.
    pub album_group: Option<String>,
    pub album_type: Option<String>,
    pub release_date: Option<String>,
    pub artists: Vec<ArtistRef>,
    pub tracks: Option<Page<Track>>,
}

impl Default for Album {
    fn default() -> (r: Self)
        ensures
            r.is_blank(),
    {
        Album {
            id: String::new(),
            name: String::new(),
            uri: String::new(),
            album_group: None,
            album_type: None,
            release_date: None,
            artists: Vec::new(),
            tracks: None,
        }
    }
}

impl Album {
    /// Whether an album holds nothing.
    pub open spec fn is_blank(self) -> bool {
        &&& self.id@.len() == 0
        &&& self.name@.len() == 0
        &&& self.uri@.len() == 0
        &&& self.album_group is None
        &&& self.album_type is None
        &&& self.release_date is None
        &&& self.artists@.len() == 0
        &&& self.tracks is None
    }

    /// Whether a summary is the album's.
    pub open spec fn summarized_by(self, summary: AlbumSummary) -> bool {
        &&& summary.id == self.id
        &&& summary.name == self.name
        &&& summary.uri == self.uri
        &&& summary.album_group == self.album_group
        &&& summary.album_type == self.album_type
        &&& summary.release_date == self.release_date
        &&& summary.artists@ == self.artists@
    }

    /// The album without its tracks.
    pub fn summary(&self) -> (r: AlbumSummary)
        ensures
            self.summarized_by(r),
    {
        AlbumSummary {
            id: self.id.clone(),
            name: self.name.clone(),
            uri: self.uri.clone(),
            album_group: clone_text(&self.album_group),
            album_type: clone_text(&self.album_type),
            release_date: clone_text(&self.release_date),
            artists: clone_credits(&self.artists),
        }
    }
}

#[derive(Debug, PartialEq, Eq)]
pub struct SavedAlbum {
    pub added_at: Option<String>,
    pub album: Album,
}

impl Default for SavedAlbum {
    fn default() -> (r: Self)
        ensures
            r.added_at is None,
            r.album.is_blank(),
    {
        SavedAlbum { added_at: None, album: Album::default() }
    }
}

#[derive(Debug, PartialEq, Eq)]
pub struct SavedTrack {
    pub added_at: Option<String>,
    pub track: Track,
}

impl Default for SavedTrack {
    fn default() -> (r: Self)
        ensures
            r.added_at is None,
            r.track.is_blank(),
    {
        SavedTrack { added_at: None, track: Track::default() }
    }
}

#[derive(Debug, PartialEq, Eq)]
pub struct Artist {
    pub id: String,
    pub name: String,
}

#[derive(Clone, Debug, PartialEq, Eq)]
pub struct Episode {
    pub id: String,
    pub name: String,
    pub uri: String,
}

#[derive(Debug, PartialEq, Eq)]
pub struct SavedEpisode {
    pub added_at: Option<String>,
    pub episode: Episode,
}

#[derive(Debug, PartialEq, Eq)]
pub struct Show {
    pub id: String,
    pub name: String,
    pub uri: String,
}

#[derive(Debug, PartialEq, Eq)]
pub struct SavedShow {
    pub added_at: Option<String>,
    pub show: Show,
}

/// A song or an episode.
#[derive(Clone, Debug, PartialEq, Eq)]
pub enum PlayableItem {
    Track(Track),
    Episode(Episode),
}

impl PlayableItem {
    pub open spec fn uri_spec(self) -> Seq<char> {
        match self {
            PlayableItem::Track(track) => track.uri@,
            PlayableItem::Episode(episode) => episode.uri@,
        }
    }

    pub fn uri(&self) -> (r: &str)
        ensures
            r@ == self.uri_spec(),
    {
        match self {
            PlayableItem::Track(track) => track.uri.as_str(),
            PlayableItem::Episode(episode) => episode.uri.as_str(),
        }
    }
}

/// A row of a playlist. What it plays stands under one of two names.
#[derive(Debug, PartialEq, Eq)]
pub struct PlaylistItem {
    pub added_by: Option<String>,
    pub item: Option<PlayableItem>,
    pub track: Option<PlayableItem>,
}

impl Default for PlaylistItem {
    fn default() -> (r: Self)
        ensures
            r.added_by is None,
            r.item is None,
            r.track is None,
    {
        PlaylistItem { added_by: None, item: None, track: None }
    }
}

impl PlaylistItem {
    /// What the row plays.
    pub open spec fn playable_spec(self) -> Option<PlayableItem> {
        match self.item {
            Some(item) => Some(item),
            None => self.track,
        }
    }

    /// The address of what the row plays.
    pub open spec fn uri_spec(self) -> Option<Seq<char>> {
        match self.playable_spec() {
            Some(item) => Some(item.uri_spec()),
            None => None,
        }
    }

    pub fn playable(&self) -> (r: Option<&PlayableItem>)
        ensures
            match r {
                Some(item) => self.playable_spec() == Some(*item),
                None => self.playable_spec() is None,
            },
    {
        match &self.item {
            Some(item) => Some(item),
            None => match &self.track {
                Some(item) => Some(item),
                None => None,
            },
        }
    }
}

#[derive(Debug, PartialEq, Eq)]
pub struct PlaylistOwner {
    pub id: Option<String>,
}

#[derive(Debug, PartialEq, Eq)]
pub struct Playlist {
    pub id: String,
    pub name: String,
    pub owner: PlaylistOwner,
    pub collaborative: bool,
    pub snapshot_id: Option<String>,
}

impl Default for Playlist {
    fn default() -> (r: Self)
        ensures
            r.id@.len() == 0,
            r.name@.len() == 0,
            r.owner.id is None,
            !r.collaborative,
            r.snapshot_id is None,
    {
        Playlist {
            id: String::new(),
            name: String::new(),
            owner: PlaylistOwner { id: None },
            collaborative: false,
            snapshot_id: None,
        }
    }
}

#[derive(Debug, PartialEq, Eq)]
pub struct User {
    pub id: String,
    pub display_name: Option<String>,
    pub product: Option<String>,
}

impl Clone for User {
    fn clone(&self) -> (r: Self)
        ensures
            r == *self,
    {
        User {
            id: self.id.clone(),
            display_name: clone_text(&self.display_name),
            product: clone_text(&self.product),
        }
    }
}

impl User {
    /// The name to show: the chosen one, else the account's id.
    pub open spec fn name_spec(self) -> String {
        match self.display_name {
            Some(name) => name,
            None => self.id,
        }
    }

    pub fn name(&self) -> (r: String)
        ensures
            r == self.name_spec(),
    {
        match &self.display_name {
            Some(name) => name.clone(),
            None => self.id.clone(),
        }
    }

    /// Whether the account has Premium, as far as the answer says.
    pub open spec fn premium_spec(self) -> Option<bool> {
        match self.product {
            Some(product) => Some(product@ == "premium"@),
            None => None,
        }
    }

    pub fn premium(&self) -> (r: Option<bool>)
        ensures
            r == self.premium_spec(),
    {
        match &self.product {
            Some(product) => Some(crate::text::same_text(product.as_str(), "premium")),
            None => None,
        }
    }
}

#[derive(Debug, PartialEq, Eq)]
pub struct Image {
    pub url: String,
    pub width: Option<u32>,
    pub height: Option<u32>,
}

/// The width of an image, nothing when unknown.
pub open spec fn image_width(image: Image) -> u32 {
    match image.width {
        Some(width) => width,
        None => 0,
    }
}

/// The first of the widest images.
pub fn largest_image(images: &Vec<Image>) -> (r: Option<usize>)
    ensures
        images@.len() == 0 <==> r is None,
        r matches Some(best) ==> best < images@.len() && (forall|i: int|
            0 <= i < images@.len() ==> image_width(#[trigger] images@[i]) <= image_width(
                images@[best as int],
            )) && (forall|i: int|
            0 <= i < best ==> image_width(#[trigger] images@[i]) < image_width(
                images@[best as int],
            )),
{
    if images.len() == 0 {
        return None;
    }
    let mut best: usize = 0;
    let mut widest: u32 = match images[0].width {
        Some(width) => width,
        None => 0,
    };
    let mut i: usize = 1;
    while i < images.len()
        invariant
            1 <= i <= images@.len(),
            best < i,
            widest == image_width(images@[best as int]),
            forall|k: int| 0 <= k < i ==> image_width(#[trigger] images@[k]) <= widest,
            forall|k: int| 0 <= k < best ==> image_width(#[trigger] images@[k]) < widest,
        decreases images.len() - i,
    {
        let width: u32 = match images[i].width {
            Some(width) => width,
            None => 0,
        };
        if width > widest {
            best = i;
            widest = width;
        }
        i += 1;
    }
    Some(best)
}

#[derive(Debug, PartialEq, Eq)]
pub struct Device {
    pub id: Option<String>,
    pub name: String,
}

#[derive(Debug, PartialEq, Eq)]
pub struct PlaybackState {
    pub device: Option<Device>,
    pub is_playing: bool,
    pub progress_ms: Option<u32>,
    pub item: Option<PlayableItem>,
}

#[derive(Debug, PartialEq, Eq)]
pub struct Queue {
    pub currently_playing: Option<PlayableItem>,
    pub queue: Vec<PlayableItem>,
}

#[derive(Debug, PartialEq, Eq)]
pub struct PlayHistory {
    pub track: Track,
    pub played_at: String,
}

#[derive(Debug, PartialEq, Eq)]
pub struct Cursors {
    pub after: Option<String>,
    pub before: Option<String>,
}

/// A page of a list that is walked by cursor.
#[derive(Debug, PartialEq, Eq)]
pub struct CursorPage<T> {
    pub items: Vec<T>,
    pub cursors: Option<Cursors>,
}

impl<T> CursorPage<T> {
    /// Where the page behind this one starts.
    pub open spec fn after_spec(self) -> Option<String> {
        match self.cursors {
            Some(cursors) => cursors.after,
            None => None,
        }
    }
}

#[derive(Debug, PartialEq, Eq)]
pub struct SearchResults {
    pub tracks: Option<Page<Track>>,
    pub artists: Option<Page<Artist>>,
    pub albums: Option<Page<Album>>,
    pub playlists: Option<Page<Playlist>>,
    pub shows: Option<Page<Show>>,
    pub episodes: Option<Page<Episode>>,
}

} // verus!
