//! What the page of new releases shows.

use vstd::prelude::*;
use vstd::string::*;

use crate::models::{clone_text, text_of, Album, PlayableItem, Track};
use crate::release_order::{artists_key, artists_text};
use crate::releases::{ReleaseArtistSource, ReleaseScanPhase, ReleaseScanProgress};
use crate::sets::{with_all, TextSet};
use crate::text::{
    chars_of, contains_text, decimal, has_part, join2, join3, lowercase, number, same_text, texts,
    to_lower,
};

verus! {

/// The kinds of release that can be shown.
#[derive(Clone, Copy, Debug, PartialEq, Eq, Structural)]
pub enum ReleaseGroup {
    Album,
    Single,
    Compilation,
    AppearsOn,
}

impl ReleaseGroup {
    /// What Spotify calls the group.
    pub open spec fn spotify_value_spec(self) -> Seq<char> {
        match self {
            ReleaseGroup::Album => "album"@,
            ReleaseGroup::Single => "single"@,
            ReleaseGroup::Compilation => "compilation"@,
            ReleaseGroup::AppearsOn => "appears_on"@,
        }
    }

    pub fn spotify_value(&self) -> (r: &'static str)
        ensures
            r@ == self.spotify_value_spec(),
    {
        match self {
            ReleaseGroup::Album => "album",
            ReleaseGroup::Single => "single",
            ReleaseGroup::Compilation => "compilation",
            ReleaseGroup::AppearsOn => "appears_on",
        }
    }

    /// Every group.
    pub fn all() -> (r: Vec<ReleaseGroup>)
        ensures
            r@ == seq![
                ReleaseGroup::Album,
                ReleaseGroup::Single,
                ReleaseGroup::Compilation,
                ReleaseGroup::AppearsOn,
            ],
    {
        vec![
            ReleaseGroup::Album,
            ReleaseGroup::Single,
            ReleaseGroup::Compilation,
            ReleaseGroup::AppearsOn,
        ]
    }
}

/// The group of a release: how it stands to the artist, else what it is.
pub open spec fn group_of(album: Album) -> Option<Seq<char>> {
    match album.album_group {
        Some(group) => Some(group@),
        None => text_of(album.album_type),
    }
}

/// Whether a release is of one of the chosen groups.
pub open spec fn in_groups(album: Album, groups: Seq<ReleaseGroup>) -> bool {
    exists|i: int|
        0 <= i < groups.len() && group_of(album) == Some((#[trigger] groups[i]).spotify_value_spec())
}

fn is_in_groups(album: &Album, groups: &Vec<ReleaseGroup>) -> (r: bool)
    ensures
        r == in_groups(*album, groups@),
{
    let group = match &album.album_group {
        Some(group) => Some(group),
        None => match &album.album_type {
            Some(kind) => Some(kind),
            None => None,
        },
    };
    match group {
        None => false,
        Some(group) => {
            let mut i: usize = 0;
            while i < groups.len()
                invariant
                    group_of(*album) == Some(group@),
                    i <= groups@.len(),
                    forall|k: int|
                        0 <= k < i ==> group_of(*album) != Some(
                            (#[trigger] groups@[k]).spotify_value_spec(),
                        ),
                decreases groups.len() - i,
            {
                if same_text(group.as_str(), groups[i].spotify_value()) {
                    assert(group_of(*album) == Some(groups@[i as int].spotify_value_spec()));
                    return true;
                }
                i += 1;
            }
            false
        },
    }
}

/// A character of a title, with the ways of writing it made one.
pub open spec fn plain_char(c: char) -> char {
    if c == '[' {
        '('
    } else if c == ']' {
        ')'
    } else if c == '\u{2019}' {
        '\''
    } else {
        c
    }
}

/// A title with the ways of writing it made one.
pub open spec fn plain_title(title: Seq<char>) -> Seq<char> {
    Seq::new(title.len(), |i: int| plain_char(title[i]))
}

/// The title of a release as it is compared.
pub fn plain_text(title: &str) -> (r: String)
    ensures
        r@ == plain_title(title@),
{
    proof {
        reveal_strlit("(");
        reveal_strlit(")");
        reveal_strlit("'");
    }
    let chars = chars_of(title);
    let mut out = String::new();
    let mut i: usize = 0;
    while i < chars.len()
        invariant
            chars@ == title@,
            i <= chars@.len(),
            out@ == plain_title(title@).take(i as int),
            "("@ == seq!['('],
            ")"@ == seq![')'],
            "'"@ == seq!['\''],
        decreases chars.len() - i,
    {
        let c = chars[i];
        proof {
            assert(title@.subrange(i as int, i + 1) =~= seq![c]);
            assert(plain_title(title@).take(i + 1) =~= plain_title(title@).take(i as int) + seq![
                plain_char(c),
            ]);
        }
        if c == '[' {
            out.append("(");
        } else if c == ']' {
            out.append(")");
        } else if c == '\u{2019}' {
            out.append("'");
        } else {
            out.append(title.substring_char(i, i + 1));
        }
        i += 1;
    }
    assert(plain_title(title@).take(i as int) =~= plain_title(title@));
    out
}

/// What makes two releases one: the date, the artists, and the title.
pub open spec fn identity_by(
    released: Option<String>,
    artists: Seq<char>,
    title: Seq<char>,
) -> Seq<char> {
    let date = match released {
        Some(date) => date@,
        None => Seq::empty(),
    };
    date + "\0"@ + artists + "\0"@ + title
}

pub open spec fn identity(album: Album) -> Seq<char> {
    identity_by(
        album.release_date,
        artists_key(album.artists@),
        lowercase(plain_title(album.name@)),
    )
}

/// What makes two releases one, given the texts that their artists and their
/// title are compared by.
pub fn identity_with(released: &Option<String>, artists: &str, title: &str) -> (r: String)
    ensures
        r@ == identity_by(*released, artists@, title@),
{
    let date = match released {
        Some(date) => date.clone(),
        None => String::new(),
    };
    let front = join3(date.as_str(), "\0", artists);
    join3(front.as_str(), "\0", title)
}

/// What makes two releases one: the date, the artists, and the title.
pub fn release_identity(album: &Album) -> (r: String)
    ensures
        r@ == identity(*album),
{
    let title = to_lower(plain_text(album.name.as_str()).as_str());
    let artists = artists_text(&album.artists);
    identity_with(&album.release_date, artists.as_str(), title.as_str())
}

/// Whether a release is named a remix.
pub open spec fn named_remix(album: Album) -> bool {
    has_part(lowercase(album.name@), "remix"@)
}

/// What the filters look at, beside the release itself.
#[derive(Debug)]
pub struct ReleaseFacts {
    /// What makes two releases one.
    pub identity: String,
    /// Whether the release is named a remix.
    pub remix: bool,
}

pub ghost struct FactsModel {
    pub identity: Seq<char>,
    pub remix: bool,
}

impl ReleaseFacts {
    pub open spec fn view(&self) -> FactsModel {
        FactsModel { identity: self.identity@, remix: self.remix }
    }
}

pub open spec fn facts_model(facts: Seq<ReleaseFacts>) -> Seq<FactsModel> {
    Seq::new(facts.len(), |i: int| facts[i]@)
}

/// What the filters look at in each release.
pub open spec fn facts_of(releases: Seq<Album>) -> Seq<FactsModel> {
    Seq::new(
        releases.len(),
        |i: int|
            FactsModel { identity: identity(releases[i]), remix: named_remix(releases[i]) },
    )
}

/// Whether a release passes the filters that look at it alone.
pub open spec fn passes(
    album: Album,
    facts: FactsModel,
    groups: Seq<ReleaseGroup>,
    hide_remixes: bool,
) -> bool {
    in_groups(album, groups) && !(hide_remixes && facts.remix)
}

/// The identities of the releases that pass, the ones without tracks among
/// them.
pub open spec fn identities(
    releases: Seq<Album>,
    facts: Seq<FactsModel>,
    groups: Seq<ReleaseGroup>,
    hide_remixes: bool,
) -> Seq<Seq<char>>
    decreases releases.len(),
{
    if releases.len() == 0 {
        Seq::empty()
    } else {
        let before = identities(releases.drop_last(), facts.drop_last(), groups, hide_remixes);
        if passes(releases.last(), facts.last(), groups, hide_remixes) {
            before.push(facts.last().identity)
        } else {
            before
        }
    }
}

/// The tracks of an album, none when they were not loaded.
pub open spec fn tracks_of(album: Album) -> Seq<Track> {
    match album.tracks {
        Some(page) => page.items@,
        None => Seq::empty(),
    }
}

/// The tracks that are shown, each with the date of its release.
pub open spec fn shown_by(
    releases: Seq<Album>,
    facts: Seq<FactsModel>,
    groups: Seq<ReleaseGroup>,
    hide_remixes: bool,
    hide_duplicates: bool,
) -> Seq<(Track, Option<String>)>
    decreases releases.len(),
{
    if releases.len() == 0 {
        Seq::empty()
    } else {
        let (earlier, known) = (releases.drop_last(), facts.drop_last());
        let album = releases.last();
        let before = shown_by(earlier, known, groups, hide_remixes, hide_duplicates);
        let repeated = hide_duplicates && identities(
            earlier,
            known,
            groups,
            hide_remixes,
        ).contains(facts.last().identity);
        if passes(album, facts.last(), groups, hide_remixes) && !repeated {
            before + tracks_of(album).map_values(|track: Track| (track, album.release_date))
        } else {
            before
        }
    }
}

/// The tracks that are shown, each with the date of its release.
pub open spec fn shown_tracks(
    releases: Seq<Album>,
    groups: Seq<ReleaseGroup>,
    hide_remixes: bool,
    hide_duplicates: bool,
) -> Seq<(Track, Option<String>)> {
    shown_by(releases, facts_of(releases), groups, hide_remixes, hide_duplicates)
}

/// A row of the table.
#[derive(Debug, PartialEq, Eq)]
pub struct ReleaseRow {
    pub item: PlayableItem,
    pub released: Option<String>,
}

/// Whether rows show these tracks.
pub open spec fn rows_show(rows: Seq<ReleaseRow>, tracks: Seq<(Track, Option<String>)>) -> bool {
    &&& rows.len() == tracks.len()
    &&& forall|i: int|
        0 <= i < rows.len() ==> {
            &&& (#[trigger] rows[i]).item is Track
            &&& rows[i].item->Track_0.same(tracks[i].0)
            &&& rows[i].released == tracks[i].1
        }
}

/// The rows of the table, given what the filters look at in each release.
pub fn rows_with(
    releases: &Vec<Album>,
    facts: &Vec<ReleaseFacts>,
    groups: &Vec<ReleaseGroup>,
    hide_remixes: bool,
    hide_duplicates: bool,
) -> (rows: Vec<ReleaseRow>)
    requires
        facts@.len() == releases@.len(),
    ensures
        rows_show(
            rows@,
            shown_by(releases@, facts_model(facts@), groups@, hide_remixes, hide_duplicates),
        ),
{
    let ghost known = facts_model(facts@);
    let mut seen = TextSet::new();
    let mut rows: Vec<ReleaseRow> = Vec::new();
    let mut i: usize = 0;
    assert(releases@.take(0) =~= Seq::<Album>::empty());
    while i < releases.len()
        invariant
            i <= releases@.len(),
            facts@.len() == releases@.len(),
            known == facts_model(facts@),
            seen.wf(),
            hide_duplicates ==> seen.list() == with_all(
                Seq::empty(),
                identities(releases@.take(i as int), known.take(i as int), groups@, hide_remixes),
            ),
            rows_show(
                rows@,
                shown_by(
                    releases@.take(i as int),
                    known.take(i as int),
                    groups@,
                    hide_remixes,
                    hide_duplicates,
                ),
            ),
        decreases releases.len() - i,
    {
        let album = &releases[i];
        let fact = &facts[i];
        let ghost earlier = releases@.take(i as int);
        let ghost met = identities(earlier, known.take(i as int), groups@, hide_remixes);
        proof {
            assert(releases@.take(i + 1).drop_last() =~= earlier);
            assert(releases@.take(i + 1).last() == *album);
            assert(known.take(i + 1).drop_last() =~= known.take(i as int));
            assert(known.take(i + 1).last() == fact@);
            assert(met.push(fact.identity@).drop_last() =~= met);
            crate::sets::with_all_is_a_union(Seq::empty(), met);
            assert(with_all(Seq::empty(), met).to_set().contains(fact.identity@)
                == met.to_set().contains(fact.identity@));
        }
        i += 1;
        if !is_in_groups(album, groups) {
            continue;
        }
        if hide_remixes && fact.remix {
            continue;
        }
        if hide_duplicates {
            if !seen.insert(fact.identity.clone()) {
                continue;
            }
        }
        match &album.tracks {
            None => {},
            Some(tracks) => {
                let ghost before = rows@;
                let mut j: usize = 0;
                while j < tracks.items.len()
                    invariant
                        album.tracks == Some(*tracks),
                        j <= tracks.items@.len(),
                        rows@.len() == before.len() + j,
                        forall|k: int| 0 <= k < before.len() ==> #[trigger] rows@[k] == before[k],
                        forall|k: int|
                            before.len() <= k < rows@.len() ==> {
                                &&& (#[trigger] rows@[k]).item is Track
                                &&& rows@[k].item->Track_0.same(
                                    tracks.items@[k - before.len()],
                                )
                                &&& rows@[k].released == album.release_date
                            },
                    decreases tracks.items.len() - j,
                {
                    rows.push(
                        ReleaseRow {
                            item: PlayableItem::Track(tracks.items[j].clone()),
                            released: clone_text(&album.release_date),
                        },
                    );
                    j += 1;
                }
            },
        }
    }
    assert(releases@.take(i as int) =~= releases@);
    assert(known.take(i as int) =~= known);
    rows
}

/// The rows of the table: the tracks of every release that passes the filters,
/// in the order of the releases.
pub fn release_rows(
    releases: &Vec<Album>,
    groups: &Vec<ReleaseGroup>,
    hide_remixes: bool,
    hide_duplicates: bool,
) -> (rows: Vec<ReleaseRow>)
    ensures
        rows_show(rows@, shown_tracks(releases@, groups@, hide_remixes, hide_duplicates)),
{
    let mut facts: Vec<ReleaseFacts> = Vec::new();
    let mut i: usize = 0;
    while i < releases.len()
        invariant
            i <= releases@.len(),
            facts@.len() == i,
            forall|k: int| 0 <= k < i ==> #[trigger] facts@[k]@ == facts_of(releases@)[k],
        decreases releases.len() - i,
    {
        let identity = release_identity(&releases[i]);
        let remix = contains_text(to_lower(releases[i].name.as_str()).as_str(), "remix");
        facts.push(ReleaseFacts { identity, remix });
        i += 1;
    }
    assert(facts_model(facts@) =~= facts_of(releases@));
    rows_with(releases, &facts, groups, hide_remixes, hide_duplicates)
}

/// Hiding remixes or repeated releases only ever takes rows away.
pub proof fn filters_only_take_rows_away(
    releases: Seq<Album>,
    facts: Seq<FactsModel>,
    groups: Seq<ReleaseGroup>,
    hide_remixes: bool,
)
    ensures
        shown_by(releases, facts, groups, hide_remixes, true).len() <= shown_by(
            releases,
            facts,
            groups,
            hide_remixes,
            false,
        ).len(),
        shown_by(releases, facts, groups, true, false).len() <= shown_by(
            releases,
            facts,
            groups,
            false,
            false,
        ).len(),
    decreases releases.len(),
{
    if releases.len() > 0 {
        filters_only_take_rows_away(
            releases.drop_last(),
            facts.drop_last(),
            groups,
            hide_remixes,
        );
    }
}

/// Whether the tracks of one of the releases are shown.
pub open spec fn is_shown(
    releases: Seq<Album>,
    facts: Seq<FactsModel>,
    groups: Seq<ReleaseGroup>,
    hide_remixes: bool,
    hide_duplicates: bool,
    i: int,
) -> bool {
    &&& passes(releases[i], facts[i], groups, hide_remixes)
    &&& !(hide_duplicates && identities(
        releases.take(i),
        facts.take(i),
        groups,
        hide_remixes,
    ).contains(facts[i].identity))
}

proof fn passing_releases_are_known(
    releases: Seq<Album>,
    facts: Seq<FactsModel>,
    groups: Seq<ReleaseGroup>,
    hide_remixes: bool,
    i: int,
)
    requires
        facts.len() == releases.len(),
        0 <= i < releases.len(),
        passes(releases[i], facts[i], groups, hide_remixes),
    ensures
        identities(releases, facts, groups, hide_remixes).contains(facts[i].identity),
    decreases releases.len(),
{
    let all = identities(releases, facts, groups, hide_remixes);
    let before = identities(releases.drop_last(), facts.drop_last(), groups, hide_remixes);
    if i == releases.len() - 1 {
        assert(all[before.len() as int] == facts[i].identity);
    } else {
        passing_releases_are_known(
            releases.drop_last(),
            facts.drop_last(),
            groups,
            hide_remixes,
            i,
        );
        let k = before.index_of(facts[i].identity);
        assert(all[k] == facts[i].identity);
    }
}

/// With duplicates hidden, no two releases that are shown are one and the same.
/// What is shown of each release are all of its tracks, behind those of the
/// releases before it.
pub proof fn no_release_is_shown_twice(
    releases: Seq<Album>,
    facts: Seq<FactsModel>,
    groups: Seq<ReleaseGroup>,
    hide_remixes: bool,
    hide_duplicates: bool,
    i: int,
    j: int,
)
    requires
        facts.len() == releases.len(),
        0 <= i < j < releases.len(),
    ensures
        is_shown(releases, facts, groups, hide_remixes, true, i) && is_shown(
            releases,
            facts,
            groups,
            hide_remixes,
            true,
            j,
        ) ==> facts[i].identity != facts[j].identity,
        shown_by(
            releases.take(j + 1),
            facts.take(j + 1),
            groups,
            hide_remixes,
            hide_duplicates,
        ) == shown_by(
            releases.take(j),
            facts.take(j),
            groups,
            hide_remixes,
            hide_duplicates,
        ) + if is_shown(releases, facts, groups, hide_remixes, hide_duplicates, j) {
            tracks_of(releases[j]).map_values(
                |track: Track| (track, releases[j].release_date),
            )
        } else {
            Seq::empty()
        },
{
    if is_shown(releases, facts, groups, hide_remixes, true, i) {
        passing_releases_are_known(releases.take(j), facts.take(j), groups, hide_remixes, i);
    }
    assert(releases.take(j + 1).drop_last() =~= releases.take(j));
    assert(facts.take(j + 1).drop_last() =~= facts.take(j));
    let before = shown_by(
        releases.take(j),
        facts.take(j),
        groups,
        hide_remixes,
        hide_duplicates,
    );
    assert(before + Seq::<(Track, Option<String>)>::empty() =~= before);
}

// ---- the text filter ---------------------------------------------------------------

/// The texts of a row that the text filter looks at: the track, its artists,
/// and its album.
pub open spec fn row_texts(row: ReleaseRow) -> Seq<Seq<char>> {
    match row.item {
        PlayableItem::Track(track) => {
            let named = seq![track.name@] + Seq::new(
                track.artists@.len(),
                |i: int| track.artists@[i].name@,
            );
            match track.album {
                Some(album) => named.push(album.name@),
                None => named,
            }
        },
        PlayableItem::Episode(episode) => seq![episode.name@],
    }
}

/// Whether one of some texts has a part.
pub open spec fn one_holds(list: Seq<Seq<char>>, part: Seq<char>) -> bool {
    exists|i: int| 0 <= i < list.len() && has_part(#[trigger] list[i], part)
}

/// The lowercase forms of texts.
pub open spec fn lowered(list: Seq<Seq<char>>) -> Seq<Seq<char>> {
    Seq::new(list.len(), |i: int| lowercase(list[i]))
}

/// Whether a row passes the text filter, whatever the case of the letters.
pub open spec fn row_matches(row: ReleaseRow, filter: Seq<char>) -> bool {
    one_holds(lowered(row_texts(row)), lowercase(filter))
}

/// Whether one of some texts has a part.
pub fn any_holds(list: &Vec<String>, part: &str) -> (r: bool)
    ensures
        r == one_holds(texts(list@), part@),
{
    let mut i: usize = 0;
    while i < list.len()
        invariant
            i <= list@.len(),
            forall|k: int| 0 <= k < i ==> !has_part(#[trigger] texts(list@)[k], part@),
        decreases list.len() - i,
    {
        if contains_text(list[i].as_str(), part) {
            assert(has_part(texts(list@)[i as int], part@));
            return true;
        }
        assert(texts(list@)[i as int] == list@[i as int]@);
        i += 1;
    }
    false
}

/// The lowercase forms of the texts that the text filter looks at.
pub fn filter_texts(row: &ReleaseRow) -> (r: Vec<String>)
    ensures
        texts(r@) == lowered(row_texts(*row)),
{
    let mut list: Vec<String> = Vec::new();
    match &row.item {
        PlayableItem::Track(track) => {
            list.push(to_lower(track.name.as_str()));
            let mut i: usize = 0;
            while i < track.artists.len()
                invariant
                    row.item == PlayableItem::Track(*track),
                    i <= track.artists@.len(),
                    list@.len() == i + 1,
                    list@[0]@ == lowercase(track.name@),
                    forall|k: int|
                        1 <= k < list@.len() ==> #[trigger] list@[k]@ == lowercase(
                            track.artists@[k - 1].name@,
                        ),
                decreases track.artists.len() - i,
            {
                list.push(to_lower(track.artists[i].name.as_str()));
                i += 1;
            }
            match &track.album {
                Some(album) => {
                    list.push(to_lower(album.name.as_str()));
                },
                None => {},
            }
        },
        PlayableItem::Episode(episode) => {
            list.push(to_lower(episode.name.as_str()));
        },
    }
    assert(texts(list@) =~= lowered(row_texts(*row)));
    list
}

/// The positions of the rows that pass the text filter, in order.
pub open spec fn matching(rows: Seq<ReleaseRow>, filter: Seq<char>) -> Seq<usize>
    decreases rows.len(),
{
    if rows.len() == 0 {
        Seq::empty()
    } else {
        let before = matching(rows.drop_last(), filter);
        if row_matches(rows.last(), filter) {
            before.push((rows.len() - 1) as usize)
        } else {
            before
        }
    }
}

pub fn matching_rows(rows: &Vec<ReleaseRow>, filter: &str) -> (r: Vec<usize>)
    ensures
        r@ == matching(rows@, filter@),
{
    let wanted = to_lower(filter);
    let mut found: Vec<usize> = Vec::new();
    let mut i: usize = 0;
    assert(rows@.take(0) =~= Seq::<ReleaseRow>::empty());
    while i < rows.len()
        invariant
            i <= rows@.len(),
            wanted@ == lowercase(filter@),
            found@ == matching(rows@.take(i as int), filter@),
        decreases rows.len() - i,
    {
        proof {
            assert(rows@.take(i + 1).drop_last() =~= rows@.take(i as int));
            assert(rows@.take(i + 1).last() == rows@[i as int]);
        }
        if any_holds(&filter_texts(&rows[i]), wanted.as_str()) {
            found.push(i);
        }
        i += 1;
    }
    assert(rows@.take(i as int) =~= rows@);
    found
}

/// The album that a row names.
pub open spec fn row_album(row: ReleaseRow) -> Option<Seq<char>> {
    match row.item {
        PlayableItem::Track(track) => match track.album {
            Some(album) => Some(album.id@),
            None => None,
        },
        PlayableItem::Episode(_) => None,
    }
}

/// The albums that rows name, row after row.
pub open spec fn row_albums(rows: Seq<ReleaseRow>) -> Seq<Seq<char>>
    decreases rows.len(),
{
    if rows.len() == 0 {
        Seq::empty()
    } else {
        let before = row_albums(rows.drop_last());
        match row_album(rows.last()) {
            Some(id) => before.push(id),
            None => before,
        }
    }
}

/// How many different albums the rows name.
pub fn visible_release_count(rows: &Vec<ReleaseRow>) -> (count: usize)
    ensures
        count == with_all(Seq::empty(), row_albums(rows@)).len(),
{
    let mut ids = TextSet::new();
    let mut i: usize = 0;
    assert(rows@.take(0) =~= Seq::<ReleaseRow>::empty());
    while i < rows.len()
        invariant
            i <= rows@.len(),
            ids.wf(),
            ids.list() == with_all(Seq::empty(), row_albums(rows@.take(i as int))),
        decreases rows.len() - i,
    {
        proof {
            assert(rows@.take(i + 1).drop_last() =~= rows@.take(i as int));
            let before = row_albums(rows@.take(i as int));
            match row_album(rows@[i as int]) {
                Some(id) => {
                    assert(before.push(id).drop_last() =~= before);
                },
                None => {},
            }
        }
        match &rows[i].item {
            PlayableItem::Track(track) => match &track.album {
                Some(album) => {
                    ids.insert(album.id.clone());
                },
                None => {},
            },
            PlayableItem::Episode(_) => {},
        }
        i += 1;
    }
    assert(rows@.take(i as int) =~= rows@);
    ids.len()
}

// ---- the page ----------------------------------------------------------------------

/// How far a list has been loaded.
#[derive(Clone, Copy, Debug, PartialEq, Eq, Structural)]
pub enum Loading {
    NotLoaded,
    Loading,
    Failed,
    Loaded,
}

/// What fills the page.
#[derive(Clone, Copy, Debug, PartialEq, Eq, Structural)]
pub enum PageContent {
    /// Nothing but the progress of a scan.
    Nothing,
    LoadingRow,
    ErrorRow,
    /// No release passes the filters of the page.
    NothingMatches,
    /// There is no release.
    NothingRecent,
    /// No row passes the text filter.
    NothingFound,
    Table,
}

pub open spec fn page_content(
    loading: Loading,
    refreshing: bool,
    releases: nat,
    rows: nat,
    visible: nat,
) -> PageContent {
    match loading {
        Loading::NotLoaded | Loading::Loading => if refreshing {
            PageContent::Nothing
        } else {
            PageContent::LoadingRow
        },
        Loading::Failed => PageContent::ErrorRow,
        Loading::Loaded => if rows == 0 {
            if releases > 0 {
                PageContent::NothingMatches
            } else {
                PageContent::NothingRecent
            }
        } else if visible == 0 {
            PageContent::NothingFound
        } else {
            PageContent::Table
        },
    }
}

/// What fills the page: `releases` were found, `rows` pass the filters, and
/// `visible` of them the text filter.
pub fn show(loading: Loading, refreshing: bool, releases: usize, rows: usize, visible: usize) -> (r:
    PageContent)
    ensures
        r == page_content(loading, refreshing, releases as nat, rows as nat, visible as nat),
{
    match loading {
        Loading::NotLoaded | Loading::Loading => {
            if refreshing {
                PageContent::Nothing
            } else {
                PageContent::LoadingRow
            }
        },
        Loading::Failed => PageContent::ErrorRow,
        Loading::Loaded => {
            if rows == 0 {
                if releases > 0 {
                    PageContent::NothingMatches
                } else {
                    PageContent::NothingRecent
                }
            } else if visible == 0 {
                PageContent::NothingFound
            } else {
                PageContent::Table
            }
        },
    }
}

impl PageContent {
    /// The heading and the advice of an empty page.
    pub open spec fn advice(self) -> Option<(Seq<char>, Seq<char>)> {
        match self {
            PageContent::NothingMatches => Some(
                (
                    "No matching releases"@,
                    "Try widening the time period or changing the filters."@,
                ),
            ),
            PageContent::NothingRecent => Some(
                (
                    "No recent releases"@,
                    "New tracks from the selected artists will appear here."@,
                ),
            ),
            PageContent::NothingFound => Some(
                ("No matching releases"@, "Try another artist, track, or album name."@),
            ),
            _ => None,
        }
    }

    pub fn empty_state(&self) -> (r: Option<(&'static str, &'static str)>)
        ensures
            match r {
                Some((heading, advice)) => self.advice() == Some((heading@, advice@)),
                None => self.advice() is None,
            },
    {
        match self {
            PageContent::NothingMatches => Some(
                ("No matching releases", "Try widening the time period or changing the filters."),
            ),
            PageContent::NothingRecent => Some(
                ("No recent releases", "New tracks from the selected artists will appear here."),
            ),
            PageContent::NothingFound => Some(
                ("No matching releases", "Try another artist, track, or album name."),
            ),
            _ => None,
        }
    }
}

/// The page that a word of the byline leads to.
#[derive(Clone, Copy, Debug, PartialEq, Eq, Structural)]
pub enum LibraryPage {
    Artists,
    Albums,
    LikedSongs,
}

/// Where the artists of a source are listed.
pub fn source_page(source: ReleaseArtistSource) -> (r: LibraryPage)
    ensures
        r == match source {
            ReleaseArtistSource::FollowedArtists => LibraryPage::Artists,
            ReleaseArtistSource::SavedAlbums => LibraryPage::Albums,
            ReleaseArtistSource::LikedSongs => LibraryPage::LikedSongs,
        },
{
    match source {
        ReleaseArtistSource::FollowedArtists => LibraryPage::Artists,
        ReleaseArtistSource::SavedAlbums => LibraryPage::Albums,
        ReleaseArtistSource::LikedSongs => LibraryPage::LikedSongs,
    }
}

/// The period, as the byline has it.
pub fn period_line(days: u16) -> (r: String)
    ensures
        r@ == "Last "@ + decimal(days as nat) + " days"@,
{
    join3("Last ", number(days as u64).as_str(), " days")
}

/// The counts, as the byline has them. The numbers come as they are written in
/// the listener's language.
pub fn count_line(releases: &str, songs: &str) -> (r: String)
    ensures
        r@ == releases@ + " releases, "@ + songs@ + " songs"@,
{
    join2(join3(releases, " releases, ", songs).as_str(), " songs")
}

// ---- the progress of a scan ------------------------------------------------------------

/// What is shown of a scan under way.
#[derive(Debug, PartialEq, Eq)]
pub struct ProgressView {
    pub text: String,
    /// How much of how much is done, once that is known.
    pub bar: Option<(usize, usize)>,
}

/// The sentence for a scan under way, behind what stands in front of it.
pub open spec fn progress_sentence(progress: Option<ReleaseScanProgress>) -> Seq<char> {
    match progress {
        None => "Preparing the release scan\u{2026}"@,
        Some(progress) => match progress.phase {
            ReleaseScanPhase::CollectingArtists =>
                "Collecting artists from your Spotify library\u{2026}"@,
            ReleaseScanPhase::ScanningArtists => "Checking artist "@ + decimal(
                progress.completed as nat,
            ) + " of "@ + decimal(progress.total as nat) + " \u{b7} "@ + decimal(
                progress.found_releases as nat,
            ) + " releases found"@,
            ReleaseScanPhase::LoadingTracks => "Loading tracks for release "@ + decimal(
                progress.completed as nat,
            ) + " of "@ + decimal(progress.total as nat),
        },
    }
}

pub open spec fn progress_prefix(showing_cached: bool) -> Seq<char> {
    if showing_cached {
        "Refreshing saved results \u{b7} "@
    } else {
        ""@
    }
}

/// What is shown of a scan under way: a sentence, and a bar once something can
/// be counted.
pub fn scan_progress(progress: Option<ReleaseScanProgress>, showing_cached: bool) -> (r:
    ProgressView)
    ensures
        r.text@ == progress_prefix(showing_cached) + progress_sentence(progress),
        r.bar == match progress {
            Some(progress) => if progress.phase == ReleaseScanPhase::CollectingArtists {
                None
            } else {
                Some((progress.completed, progress.total))
            },
            None => None,
        },
{
    let prefix = if showing_cached {
        "Refreshing saved results \u{b7} "
    } else {
        ""
    };
    match progress {
        None => ProgressView {
            text: join2(prefix, "Preparing the release scan\u{2026}"),
            bar: None,
        },
        Some(progress) => match progress.phase {
            ReleaseScanPhase::CollectingArtists => ProgressView {
                text: join2(prefix, "Collecting artists from your Spotify library\u{2026}"),
                bar: None,
            },
            ReleaseScanPhase::ScanningArtists => {
                let done = join3(
                    "Checking artist ",
                    number(progress.completed as u64).as_str(),
                    " of ",
                );
                let all = join3(
                    done.as_str(),
                    number(progress.total as u64).as_str(),
                    " \u{b7} ",
                );
                let sentence = join3(
                    all.as_str(),
                    number(progress.found_releases as u64).as_str(),
                    " releases found",
                );
                ProgressView {
                    text: join2(prefix, sentence.as_str()),
                    bar: Some((progress.completed, progress.total)),
                }
            },
            ReleaseScanPhase::LoadingTracks => {
                let done = join3(
                    "Loading tracks for release ",
                    number(progress.completed as u64).as_str(),
                    " of ",
                );
                let sentence = join2(done.as_str(), number(progress.total as u64).as_str());
                ProgressView {
                    text: join2(prefix, sentence.as_str()),
                    bar: Some((progress.completed, progress.total)),
                }
            },
        },
    }
}

// ---- the filters -------------------------------------------------------------------------

/// A period that can be chosen.
#[derive(Debug, PartialEq, Eq)]
pub struct Period {
    pub days: u16,
    pub label: &'static str,
    pub selected: bool,
}

/// Whether these are the periods to choose from.
pub open spec fn is_period(period: Period, days: u16, label: Seq<char>, chosen: u16) -> bool {
    period.days == days && period.label@ == label && period.selected == (days == chosen)
}

/// The periods to choose from, with the chosen one marked.
pub fn periods(chosen: u16) -> (r: Vec<Period>)
    ensures
        r@.len() == 4,
        is_period(r@[0], 7, "7 days"@, chosen),
        is_period(r@[1], 30, "30 days"@, chosen),
        is_period(r@[2], 90, "90 days"@, chosen),
        is_period(r@[3], 365, "1 year"@, chosen),
{
    vec![
        Period { days: 7, label: "7 days", selected: chosen == 7 },
        Period { days: 30, label: "30 days", selected: chosen == 30 },
        Period { days: 90, label: "90 days", selected: chosen == 90 },
        Period { days: 365, label: "1 year", selected: chosen == 365 },
    ]
}

/// What was done on the page of new releases.
#[derive(Clone, Copy, Debug, PartialEq, Eq, Structural)]
pub enum FilterAction {
    ToggleArtistSource(ReleaseArtistSource),
    SetMinimumLikedTracks(u16),
    SetDays(u16),
    ToggleGroup(ReleaseGroup),
    HideRemixes(bool),
    HideDuplicates(bool),
}

/// The number in the field for liked songs: what was typed, else the setting.
pub fn liked_draft(draft: Option<u16>, setting: u16) -> (r: u16)
    ensures
        r == match draft {
            Some(draft) => draft,
            None => setting,
        },
{
    match draft {
        Some(draft) => draft,
        None => setting,
    }
}

/// Whether the number in the field is taken over: the mouse let go of it, the
/// enter key left it, or the button was pressed.
pub fn submitted(drag_stopped: bool, lost_focus: bool, enter: bool, apply: bool) -> (r: bool)
    ensures
        r == (drag_stopped || (lost_focus && enter) || apply),
{
    drag_stopped || (lost_focus && enter) || apply
}

/// The action of the field for liked songs, which is only there while liked
/// songs are a source.
pub fn liked_filter(
    sources: &Vec<ReleaseArtistSource>,
    draft: Option<u16>,
    setting: u16,
    submitted: bool,
) -> (r: Option<FilterAction>)
    ensures
        r == if sources@.contains(ReleaseArtistSource::LikedSongs) && submitted {
            Some(
                FilterAction::SetMinimumLikedTracks(
                    match draft {
                        Some(draft) => draft,
                        None => setting,
                    },
                ),
            )
        } else {
            None
        },
{
    if crate::releases::has_source(sources, ReleaseArtistSource::LikedSongs) && submitted {
        Some(FilterAction::SetMinimumLikedTracks(liked_draft(draft, setting)))
    } else {
        None
    }
}

} // verus!
