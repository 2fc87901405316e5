//! Collecting the artists of a scan from the chosen parts of a library.

use vstd::prelude::*;

use crate::client::{paged, ApiClient};
use crate::models::{Artist, CursorPage, Page, SavedAlbum, SavedTrack};
use crate::release_scan::{
    artist_ids, ascending, collect_artists, last_followed_page, page_size, page_starts,
    remaining_pages, FollowedWalk,
};
use crate::releases::{
    add_saved_album_artist_ids, album_credits, count_liked_track_artists, has_source,
    qualified_liked_artist_ids, tally, track_credits, ArtistCounts, ReleaseArtistSource,
    RELEASE_LIBRARY_PAGE,
};
use crate::request::{bare, HttpRequest, RequestModel};
use crate::sets::{with_all, TextSet};
use crate::text::texts;
use crate::transport::Method;

verus! {

/// A page of the library to ask for.
#[derive(Debug, PartialEq, Eq)]
pub enum LibraryAsk {
    Followed { after: Option<String> },
    SavedAlbums { offset: u32, limit: u32 },
    LikedSongs { offset: u32, limit: u32 },
}

/// The request for a page of the library.
pub open spec fn library_request(ask: LibraryAsk) -> RequestModel {
    match ask {
        LibraryAsk::Followed { after } => bare(Method::Get, "/me/following"@).with(
            "type"@,
            "artist"@,
        ).with_number("limit"@, 50).with_optional(
            "after"@,
            match after {
                Some(after) => Some(after@),
                None => None,
            },
        ),
        LibraryAsk::SavedAlbums { offset, limit } => paged("/me/albums"@, limit, offset),
        LibraryAsk::LikedSongs { offset, limit } => paged("/me/tracks"@, limit, offset),
    }
}

impl LibraryAsk {
    pub fn request(&self, client: &ApiClient) -> (r: HttpRequest)
        ensures
            r@ == library_request(*self),
    {
        match self {
            LibraryAsk::Followed { after } => client.followed_artists(
                match after {
                    Some(after) => Some(after.as_str()),
                    None => None,
                },
                50,
            ),
            LibraryAsk::SavedAlbums { offset, limit } => client.saved_albums(*offset, *limit),
            LibraryAsk::LikedSongs { offset, limit } => client.saved_tracks(*offset, *limit),
        }
    }
}

/// Which pages of a part of the library are still to come.
#[derive(Clone, Copy, Debug, PartialEq, Eq, Structural)]
pub enum Pages {
    /// The first, which tells how many there are.
    First,
    /// This many more.
    Left(usize),
}

impl Pages {
    pub open spec fn all_here(self) -> bool {
        self == Pages::Left(0)
    }

    /// What is to come once a page has come, when `behind` stand behind the
    /// first.
    pub open spec fn after_one(self, behind: nat) -> Pages {
        match self {
            Pages::First => Pages::Left(behind as usize),
            Pages::Left(left) => Pages::Left((left - 1) as usize),
        }
    }
}

/// Artists that are being collected, from all chosen parts side by side.
pub struct Collecting {
    pub followed: FollowedWalk,
    /// Whether a page of followed artists is still to come.
    pub followed_open: bool,
    pub saved: TextSet,
    pub saved_pages: Pages,
    pub liked: ArtistCounts,
    pub liked_pages: Pages,
    pub minimum_liked_tracks: u16,
}

/// Where the pages behind a first page begin.
pub open spec fn starts_behind<T>(first: Page<T>) -> Seq<u32> {
    match first.next_offset_spec() {
        Some(start) => page_starts(start, first.total, page_size(first)),
        None => Seq::empty(),
    }
}

/// The pages of saved albums that are asked for once one has come.
pub open spec fn saved_asks(pages: Pages, page: Page<SavedAlbum>) -> Seq<LibraryAsk> {
    match pages {
        Pages::First => starts_behind(page).map_values(
            |offset: u32| LibraryAsk::SavedAlbums { offset, limit: page_size(page) },
        ),
        Pages::Left(_) => Seq::empty(),
    }
}

/// The pages of liked songs that are asked for once one has come.
pub open spec fn liked_asks(pages: Pages, page: Page<SavedTrack>) -> Seq<LibraryAsk> {
    match pages {
        Pages::First => starts_behind(page).map_values(
            |offset: u32| LibraryAsk::LikedSongs { offset, limit: page_size(page) },
        ),
        Pages::Left(_) => Seq::empty(),
    }
}

/// The pages that are asked for at the start: the first of each chosen part.
pub open spec fn first_asks(followed: bool, saved: bool, liked: bool) -> Seq<LibraryAsk> {
    let a = if followed {
        seq![LibraryAsk::Followed { after: None }]
    } else {
        seq![]
    };
    let b = if saved {
        seq![LibraryAsk::SavedAlbums { offset: 0, limit: RELEASE_LIBRARY_PAGE }]
    } else {
        seq![]
    };
    let c = if liked {
        seq![LibraryAsk::LikedSongs { offset: 0, limit: RELEASE_LIBRARY_PAGE }]
    } else {
        seq![]
    };
    a + b + c
}

/// What a part that was not chosen, or was, starts with.
pub open spec fn first_pages(chosen: bool) -> Pages {
    if chosen {
        Pages::First
    } else {
        Pages::Left(0)
    }
}

impl Collecting {
    pub open spec fn wf(&self) -> bool {
        self.followed.artists.wf() && self.saved.wf() && self.liked.wf()
    }

    /// Whether every page that was asked for has come.
    pub open spec fn complete(&self) -> bool {
        !self.followed_open && self.saved_pages.all_here() && self.liked_pages.all_here()
    }

    /// Starts with nobody, and asks for the first page of each chosen part.
    pub fn start(sources: &Vec<ReleaseArtistSource>, minimum_liked_tracks: u16) -> (r: (
        Collecting,
        Vec<LibraryAsk>,
    ))
        ensures
            r.0.wf(),
            r.0.followed.artists.list().len() == 0,
            r.0.followed.after is None,
            r.0.saved.list().len() == 0,
            r.0.liked.artists().len() == 0,
            forall|id: Seq<char>| #[trigger] r.0.liked.count(id) == 0,
            r.0.minimum_liked_tracks == minimum_liked_tracks,
            r.0.followed_open == sources@.contains(ReleaseArtistSource::FollowedArtists),
            r.0.saved_pages == first_pages(sources@.contains(ReleaseArtistSource::SavedAlbums)),
            r.0.liked_pages == first_pages(sources@.contains(ReleaseArtistSource::LikedSongs)),
            r.1@ == first_asks(
                sources@.contains(ReleaseArtistSource::FollowedArtists),
                sources@.contains(ReleaseArtistSource::SavedAlbums),
                sources@.contains(ReleaseArtistSource::LikedSongs),
            ),
    {
        let followed = has_source(sources, ReleaseArtistSource::FollowedArtists);
        let saved = has_source(sources, ReleaseArtistSource::SavedAlbums);
        let liked = has_source(sources, ReleaseArtistSource::LikedSongs);
        let mut asks: Vec<LibraryAsk> = Vec::new();
        if followed {
            asks.push(LibraryAsk::Followed { after: None });
        }
        if saved {
            asks.push(LibraryAsk::SavedAlbums { offset: 0, limit: RELEASE_LIBRARY_PAGE });
        }
        if liked {
            asks.push(LibraryAsk::LikedSongs { offset: 0, limit: RELEASE_LIBRARY_PAGE });
        }
        assert(asks@ =~= first_asks(followed, saved, liked));
        let collecting = Collecting {
            followed: FollowedWalk::new(),
            followed_open: followed,
            saved: TextSet::new(),
            saved_pages: if saved {
                Pages::First
            } else {
                Pages::Left(0)
            },
            liked: ArtistCounts::new(),
            liked_pages: if liked {
                Pages::First
            } else {
                Pages::Left(0)
            },
            minimum_liked_tracks,
        };
        (collecting, asks)
    }

    /// Takes a page of followed artists, and asks for the next one.
    pub fn followed_page(&mut self, page: CursorPage<Artist>) -> (ask: Option<LibraryAsk>)
        requires
            old(self).wf(),
            old(self).followed_open,
        ensures
            final(self).wf(),
            final(self).followed.artists.list() == with_all(
                old(self).followed.artists.list(),
                artist_ids(page.items@),
            ),
            final(self).followed_open == !last_followed_page(old(self).followed.after, page),
            ask == if last_followed_page(old(self).followed.after, page) {
                None
            } else {
                Some(LibraryAsk::Followed { after: page.after_spec() })
            },
            final(self).followed.after == if final(self).followed_open {
                page.after_spec()
            } else {
                old(self).followed.after
            },
            final(self).saved == old(self).saved,
            final(self).saved_pages == old(self).saved_pages,
            final(self).liked == old(self).liked,
            final(self).liked_pages == old(self).liked_pages,
            final(self).minimum_liked_tracks == old(self).minimum_liked_tracks,
    {
        self.followed_open = self.followed.add_page(page);
        if self.followed_open {
            Some(LibraryAsk::Followed { after: crate::models::clone_text(&self.followed.after) })
        } else {
            None
        }
    }

    /// Takes a page of saved albums. The first is followed by all others at
    /// once.
    pub fn saved_page(&mut self, page: &Page<SavedAlbum>) -> (asks: Vec<LibraryAsk>)
        requires
            old(self).wf(),
            !old(self).saved_pages.all_here(),
        ensures
            final(self).wf(),
            final(self).saved.list() == with_all(
                old(self).saved.list(),
                album_credits(page.items@),
            ),
            final(self).saved_pages == old(self).saved_pages.after_one(starts_behind(*page).len()),
            asks@ == saved_asks(old(self).saved_pages, *page),
            final(self).followed == old(self).followed,
            final(self).followed_open == old(self).followed_open,
            final(self).liked == old(self).liked,
            final(self).liked_pages == old(self).liked_pages,
            final(self).minimum_liked_tracks == old(self).minimum_liked_tracks,
    {
        add_saved_album_artist_ids(&mut self.saved, &page.items);
        let mut asks: Vec<LibraryAsk> = Vec::new();
        match self.saved_pages {
            Pages::First => {
                let (limit, starts) = remaining_pages(page);
                let mut i: usize = 0;
                while i < starts.len()
                    invariant
                        i <= starts@.len(),
                        asks@.len() == i,
                        forall|k: int|
                            0 <= k < i ==> #[trigger] asks@[k] == (LibraryAsk::SavedAlbums {
                                offset: starts@[k],
                                limit,
                            }),
                    decreases starts.len() - i,
                {
                    asks.push(LibraryAsk::SavedAlbums { offset: starts[i], limit });
                    i += 1;
                }
                self.saved_pages = Pages::Left(starts.len());
            },
            Pages::Left(left) => {
                self.saved_pages = Pages::Left(left - 1);
            },
        }
        assert(asks@ =~= saved_asks(old(self).saved_pages, *page));
        asks
    }

    /// Takes a page of liked songs. The first is followed by all others at
    /// once.
    pub fn liked_page(&mut self, page: &Page<SavedTrack>) -> (asks: Vec<LibraryAsk>)
        requires
            old(self).wf(),
            !old(self).liked_pages.all_here(),
            forall|id: Seq<char>|
                old(self).liked.count(id) + #[trigger] tally(track_credits(page.items@), id)
                    <= u32::MAX,
        ensures
            final(self).wf(),
            final(self).liked.artists() == with_all(
                old(self).liked.artists(),
                track_credits(page.items@),
            ),
            forall|id: Seq<char>| #[trigger]
                final(self).liked.count(id) == old(self).liked.count(id) + tally(
                    track_credits(page.items@),
                    id,
                ),
            final(self).liked_pages == old(self).liked_pages.after_one(starts_behind(*page).len()),
            asks@ == liked_asks(old(self).liked_pages, *page),
            final(self).followed == old(self).followed,
            final(self).followed_open == old(self).followed_open,
            final(self).saved == old(self).saved,
            final(self).saved_pages == old(self).saved_pages,
            final(self).minimum_liked_tracks == old(self).minimum_liked_tracks,
    {
        count_liked_track_artists(&mut self.liked, &page.items);
        let mut asks: Vec<LibraryAsk> = Vec::new();
        match self.liked_pages {
            Pages::First => {
                let (limit, starts) = remaining_pages(page);
                let mut i: usize = 0;
                while i < starts.len()
                    invariant
                        i <= starts@.len(),
                        asks@.len() == i,
                        forall|k: int|
                            0 <= k < i ==> #[trigger] asks@[k] == (LibraryAsk::LikedSongs {
                                offset: starts@[k],
                                limit,
                            }),
                    decreases starts.len() - i,
                {
                    asks.push(LibraryAsk::LikedSongs { offset: starts[i], limit });
                    i += 1;
                }
                self.liked_pages = Pages::Left(starts.len());
            },
            Pages::Left(left) => {
                self.liked_pages = Pages::Left(left - 1);
            },
        }
        assert(asks@ =~= liked_asks(old(self).liked_pages, *page));
        asks
    }

    /// Whether an artist is one that was collected: followed, credited on a
    /// saved album, or credited on enough liked songs.
    pub open spec fn collected(&self, id: Seq<char>) -> bool {
        ||| self.followed.artists@.contains(id)
        ||| self.saved@.contains(id)
        ||| self.liked.count(id) >= crate::releases::liked_threshold(self.minimum_liked_tracks)
    }

    /// The artists that were collected, in order, once every page has come.
    pub fn artists(&self) -> (r: Option<Vec<String>>)
        requires
            self.wf(),
        ensures
            r is Some == self.complete(),
            r matches Some(list) ==> {
                &&& ascending(texts(list@))
                &&& forall|id: Seq<char>| #[trigger]
                    texts(list@).to_set().contains(id) == self.collected(id)
            },
    {
        let saved_here = match self.saved_pages {
            Pages::Left(left) => left == 0,
            Pages::First => false,
        };
        let liked_here = match self.liked_pages {
            Pages::Left(left) => left == 0,
            Pages::First => false,
        };
        if self.followed_open || !saved_here || !liked_here {
            return None;
        }
        let liked = qualified_liked_artist_ids(&self.liked, self.minimum_liked_tracks);
        let list = collect_artists(&self.followed.artists, &self.saved, &liked);
        Some(list)
    }
}

} // verus!
