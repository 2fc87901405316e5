//! The order in which releases are shown: newest first, then by artists, by
//! title, and by id.

use vstd::prelude::*;

use crate::models::{text_of, Album, ArtistRef};
use crate::text::{
    join, joined, lowercase, rank_texts, text_below, text_order_is_total, text_order_is_transitive,
    text_rank, texts, to_lower, Rank,
};
use crate::text_laws::the_first_difference_orders_texts;

verus! {

/// The lowercase names behind a list of credits.
pub open spec fn lower_names(artists: Seq<ArtistRef>) -> Seq<Seq<char>> {
    Seq::new(artists.len(), |i: int| lowercase(artists[i].name@))
}

/// The credits as one text to order by.
pub open spec fn artists_key(artists: Seq<ArtistRef>) -> Seq<char> {
    joined(lower_names(artists), "\0"@)
}

/// The credits as one text.
pub fn artists_text(artists: &Vec<ArtistRef>) -> (r: String)
    ensures
        r@ == artists_key(artists@),
{
    let mut names: Vec<String> = Vec::new();
    let mut i: usize = 0;
    while i < artists.len()
        invariant
            i <= artists@.len(),
            names@.len() == i,
            forall|k: int| 0 <= k < i ==> #[trigger] names@[k]@ == lowercase(artists@[k].name@),
        decreases artists.len() - i,
    {
        names.push(to_lower(artists[i].name.as_str()));
        i += 1;
    }
    assert(texts(names@) =~= lower_names(artists@));
    join(&names, "\0")
}

/// The first rank that tells two values apart.
pub open spec fn or_else(first: Rank, second: Rank) -> Rank {
    if first == Rank::Same {
        second
    } else {
        first
    }
}

/// Dates from the newest to the oldest, and no date behind them all.
pub open spec fn date_rank(a: Option<String>, b: Option<String>) -> Rank {
    match (a, b) {
        (None, None) => Rank::Same,
        (None, Some(_)) => Rank::After,
        (Some(_), None) => Rank::Before,
        (Some(a), Some(b)) => text_rank(b@, a@),
    }
}

/// Where one release stands to another, by their dates, their artists, their
/// names, and their ids.
pub open spec fn rank_by(
    a: Album,
    b: Album,
    artists: (Seq<char>, Seq<char>),
    names: (Seq<char>, Seq<char>),
) -> Rank {
    or_else(
        date_rank(a.release_date, b.release_date),
        or_else(
            text_rank(artists.0, artists.1),
            or_else(text_rank(names.0, names.1), text_rank(a.id@, b.id@)),
        ),
    )
}

/// Where one release stands to another.
pub open spec fn release_rank(a: Album, b: Album) -> Rank {
    rank_by(
        a,
        b,
        (artists_key(a.artists@), artists_key(b.artists@)),
        (lowercase(a.name@), lowercase(b.name@)),
    )
}

fn pick(first: Rank, second: Rank) -> (r: Rank)
    ensures
        r == or_else(first, second),
{
    match first {
        Rank::Same => second,
        other => other,
    }
}

/// Where one release stands to another, given the texts that their artists
/// and their names are ordered by.
pub fn rank_with(a: &Album, b: &Album, artists: (&str, &str), names: (&str, &str)) -> (r: Rank)
    ensures
        r == rank_by(*a, *b, (artists.0@, artists.1@), (names.0@, names.1@)),
{
    let dates = match (&a.release_date, &b.release_date) {
        (None, None) => Rank::Same,
        (None, Some(_)) => Rank::After,
        (Some(_), None) => Rank::Before,
        (Some(x), Some(y)) => rank_texts(y.as_str(), x.as_str()),
    };
    let by_artists = rank_texts(artists.0, artists.1);
    let by_names = rank_texts(names.0, names.1);
    let by_ids = rank_texts(a.id.as_str(), b.id.as_str());
    pick(dates, pick(by_artists, pick(by_names, by_ids)))
}

/// Where one release stands to another.
pub fn release_order(a: &Album, b: &Album) -> (r: Rank)
    ensures
        r == release_rank(*a, *b),
{
    let (artists_a, artists_b) = (artists_text(&a.artists), artists_text(&b.artists));
    let (name_a, name_b) = (to_lower(a.name.as_str()), to_lower(b.name.as_str()));
    rank_with(
        a,
        b,
        (artists_a.as_str(), artists_b.as_str()),
        (name_a.as_str(), name_b.as_str()),
    )
}

/// The rank seen from the other side.
pub open spec fn flipped(rank: Rank) -> Rank {
    match rank {
        Rank::Before => Rank::After,
        Rank::Same => Rank::Same,
        Rank::After => Rank::Before,
    }
}

/// Seen from the other side, a release's rank is the opposite one, and only
/// releases with the same id share a place.
pub proof fn release_order_is_total(a: Album, b: Album)
    ensures
        release_rank(b, a) == flipped(release_rank(a, b)),
        release_rank(a, b) == Rank::Same ==> a.id@ == b.id@,
        release_rank(a, a) == Rank::Same,
{
    text_order_is_total(a.id@, b.id@);
    text_order_is_total(lowercase(a.name@), lowercase(b.name@));
    text_order_is_total(artists_key(a.artists@), artists_key(b.artists@));
    match (a.release_date, b.release_date) {
        (Some(x), Some(y)) => {
            text_order_is_total(x@, y@);
        },
        _ => {},
    }
}

/// Whether a release does not stand behind another.
pub open spec fn not_after(a: Album, b: Album) -> bool {
    release_rank(a, b) != Rank::After
}

proof fn text_ranks_chain(a: Seq<char>, b: Seq<char>, c: Seq<char>)
    requires
        text_rank(a, b) != Rank::After,
        text_rank(b, c) != Rank::After,
    ensures
        text_rank(a, c) != Rank::After,
        text_rank(a, c) == Rank::Same ==> text_rank(a, b) == Rank::Same && text_rank(b, c)
            == Rank::Same,
{
    if a != b && b != c {
        text_order_is_transitive(a, b, c);
        text_order_is_total(a, c);
        text_order_is_total(a, b);
        text_order_is_total(b, c);
    }
}

/// The order of releases carries over from one to the next.
pub proof fn release_order_is_transitive(a: Album, b: Album, c: Album)
    requires
        not_after(a, b),
        not_after(b, c),
    ensures
        not_after(a, c),
{
    if date_rank(a.release_date, b.release_date) != Rank::After && date_rank(
        b.release_date,
        c.release_date,
    ) != Rank::After {
        match (a.release_date, b.release_date, c.release_date) {
            (Some(x), Some(y), Some(z)) => {
                text_ranks_chain_down(x@, y@, z@);
            },
            _ => {},
        }
        let (ka, kb, kc) = (artists_key(a.artists@), artists_key(b.artists@), artists_key(c.artists@));
        let (na, nb, nc) = (lowercase(a.name@), lowercase(b.name@), lowercase(c.name@));
        if text_rank(ka, kb) != Rank::After && text_rank(kb, kc) != Rank::After {
            text_ranks_chain(ka, kb, kc);
            if text_rank(na, nb) != Rank::After && text_rank(nb, nc) != Rank::After {
                text_ranks_chain(na, nb, nc);
                if text_rank(a.id@, b.id@) != Rank::After && text_rank(b.id@, c.id@)
                    != Rank::After {
                    text_ranks_chain(a.id@, b.id@, c.id@);
                }
            }
        }
    }
}

proof fn text_ranks_chain_down(x: Seq<char>, y: Seq<char>, z: Seq<char>)
    requires
        text_rank(y, x) != Rank::After,
        text_rank(z, y) != Rank::After,
    ensures
        text_rank(z, x) != Rank::After,
        text_rank(z, x) == Rank::Same ==> text_rank(y, x) == Rank::Same && text_rank(z, y)
            == Rank::Same,
{
    text_ranks_chain(z, y, x);
}

/// A release put behind every one of a sorted list that does not stand after
/// it.
pub open spec fn placed(list: Seq<Album>, album: Album) -> Seq<Album>
    decreases list.len(),
{
    if list.len() == 0 || not_after(list.last(), album) {
        list.push(album)
    } else {
        placed(list.drop_last(), album).push(list.last())
    }
}

/// The releases in order. Equal ones keep the order in which they came.
pub open spec fn ordered(list: Seq<Album>) -> Seq<Album>
    decreases list.len(),
{
    if list.len() == 0 {
        Seq::empty()
    } else {
        placed(ordered(list.drop_last()), list.last())
    }
}

proof fn placed_inserts(list: Seq<Album>, album: Album, at: int)
    requires
        0 <= at <= list.len(),
        at > 0 ==> not_after(list[at - 1], album),
        forall|k: int| at <= k < list.len() ==> !not_after(#[trigger] list[k], album),
    ensures
        placed(list, album) == list.insert(at, album),
    decreases list.len(),
{
    if at == list.len() {
        assert(list.insert(at, album) =~= list.push(album));
    } else {
        assert(!not_after(list[list.len() - 1], album));
        let shorter = list.drop_last();
        placed_inserts(shorter, album, at);
        assert(list.insert(at, album) =~= shorter.insert(at, album).push(list.last()));
    }
}

/// Sorts releases into the order in which they are shown.
pub fn sort_releases(albums: Vec<Album>) -> (sorted: Vec<Album>)
    ensures
        sorted@ == ordered(albums@),
{
    let mut rest = albums;
    let mut sorted: Vec<Album> = Vec::new();
    let ghost all = albums@;
    let n: usize = rest.len();
    let mut i: usize = 0;
    assert(all.take(0) =~= Seq::<Album>::empty());
    assert(all.skip(0) =~= all);
    while i < n
        invariant
            n == all.len(),
            i <= n,
            rest@ == all.skip(i as int),
            sorted@ == ordered(all.take(i as int)),
        decreases n - i,
    {
        let album = rest.remove(0);
        proof {
            assert(all.skip(i as int).remove(0) =~= all.skip(i + 1));
            assert(all.take(i + 1).drop_last() =~= all.take(i as int));
            assert(all.take(i + 1).last() == album);
        }
        let mut at: usize = sorted.len();
        while at > 0 && release_order(&sorted[at - 1], &album) == Rank::After
            invariant
                at <= sorted@.len(),
                forall|k: int| at <= k < sorted@.len() ==> !not_after(#[trigger] sorted@[k], album),
            decreases at,
        {
            at -= 1;
        }
        proof {
            placed_inserts(sorted@, album, at as int);
        }
        sorted.insert(at, album);
        i += 1;
    }
    assert(all.take(i as int) =~= all);
    sorted
}

/// Whether releases stand in order.
pub open spec fn in_order(list: Seq<Album>) -> bool {
    forall|i: int, j: int| 0 <= i < j < list.len()
        ==> not_after(#[trigger] list[i], #[trigger] list[j])
}

proof fn placing_keeps_order(list: Seq<Album>, album: Album)
    requires
        in_order(list),
    ensures
        in_order(placed(list, album)),
        placed(list, album).len() == list.len() + 1,
        placed(list, album).to_multiset() == list.to_multiset().insert(album),
        forall|i: int|
            0 <= i < placed(list, album).len() ==> #[trigger] placed(list, album)[i] == album
                || list.contains(placed(list, album)[i]),
    decreases list.len(),
{
    broadcast use vstd::seq_lib::group_to_multiset_ensures;
    let after = placed(list, album);
    if list.len() == 0 || not_after(list.last(), album) {
        assert forall|i: int, j: int| 0 <= i < j < after.len() implies not_after(
            #[trigger] after[i],
            #[trigger] after[j],
        ) by {
            if j == list.len() && i < list.len() - 1 {
                release_order_is_transitive(list[i], list.last(), album);
            }
        }
        assert forall|i: int| 0 <= i < after.len() implies #[trigger] after[i] == album
            || list.contains(after[i]) by {
            if i < list.len() {
                assert(list[i] == after[i]);
            }
        }
    } else {
        let shorter = list.drop_last();
        placing_keeps_order(shorter, album);
        let inner = placed(shorter, album);
        release_order_is_total(list.last(), album);
        assert forall|i: int, j: int| 0 <= i < j < after.len() implies not_after(
            #[trigger] after[i],
            #[trigger] after[j],
        ) by {
            if j == inner.len() {
                assert(after[i] == inner[i]);
                if inner[i] != album {
                    let k = shorter.index_of(inner[i]);
                    assert(list[k] == inner[i]);
                    assert(list[list.len() - 1] == list.last());
                }
            } else {
                assert(after[i] == inner[i]);
                assert(after[j] == inner[j]);
            }
        }
        assert forall|i: int| 0 <= i < after.len() implies #[trigger] after[i] == album
            || list.contains(after[i]) by {
            if i < inner.len() {
                assert(after[i] == inner[i]);
                if inner[i] != album {
                    let k = shorter.index_of(inner[i]);
                    assert(list[k] == inner[i]);
                }
            } else {
                assert(list[list.len() - 1] == after[i]);
            }
        }
        assert(shorter.push(list.last()) =~= list);
        assert(after.to_multiset() =~= list.to_multiset().insert(album));
    }
}

/// Sorting puts the releases in order and neither loses nor adds one.
pub proof fn sorting_orders_and_keeps_all(list: Seq<Album>)
    ensures
        in_order(ordered(list)),
        ordered(list).len() == list.len(),
        ordered(list).to_multiset() == list.to_multiset(),
    decreases list.len(),
{
    broadcast use vstd::seq_lib::group_to_multiset_ensures;
    if list.len() == 0 {
        assert(ordered(list) =~= list);
    } else {
        let shorter = list.drop_last();
        sorting_orders_and_keeps_all(shorter);
        placing_keeps_order(ordered(shorter), list.last());
        assert(shorter.push(list.last()) =~= list);
    }
}

/// Whether no two releases share an id.
pub open spec fn distinct_ids(list: Seq<Album>) -> bool {
    forall|i: int, j: int|
        0 <= i < j < list.len() ==> (#[trigger] list[i]).id@ != (#[trigger] list[j]).id@
}

proof fn shared_elements(a: Seq<Album>, b: Seq<Album>, x: Album)
    requires
        a.to_multiset() == b.to_multiset(),
        a.contains(x),
    ensures
        b.contains(x),
{
    broadcast use vstd::seq_lib::group_to_multiset_ensures;
    assert(a.to_multiset().count(x) > 0);
    assert(b.to_multiset().count(x) > 0);
}

proof fn orders_of_the_same_releases_agree(a: Seq<Album>, b: Seq<Album>)
    requires
        in_order(a),
        in_order(b),
        distinct_ids(a),
        a.to_multiset() == b.to_multiset(),
    ensures
        a == b,
    decreases a.len(),
{
    broadcast use vstd::seq_lib::group_to_multiset_ensures;
    assert(a.to_multiset().len() == a.len());
    assert(b.to_multiset().len() == b.len());
    if a.len() > 0 {
        let (x, y) = (a.last(), b.last());
        assert(a[a.len() - 1] == x && b[b.len() - 1] == y);
        shared_elements(a, b, x);
        shared_elements(b, a, y);
        let k = b.index_of(x);
        let m = a.index_of(y);
        assert(b[k] == x && a[m] == y);
        release_order_is_total(x, y);
        assert(not_after(x, y));
        assert(not_after(y, x));
        assert(x.id@ == y.id@);
        assert(m == a.len() - 1);
        let (p, q) = (a.drop_last(), b.drop_last());
        assert(p.push(x) =~= a);
        assert(q.push(x) =~= b);
        assert(p.to_multiset() =~= a.to_multiset().remove(x));
        assert(q.to_multiset() =~= b.to_multiset().remove(x));
        orders_of_the_same_releases_agree(p, q);
    } else {
        assert(a =~= b);
    }
}

/// The order shown does not depend on the order in which releases were found.
pub proof fn the_order_found_does_not_matter(a: Seq<Album>, b: Seq<Album>)
    requires
        a.to_multiset() == b.to_multiset(),
        distinct_ids(a),
    ensures
        ordered(a) == ordered(b),
{
    sorting_orders_and_keeps_all(a);
    sorting_orders_and_keeps_all(b);
    let s = ordered(a);
    assert forall|i: int, j: int| 0 <= i < j < s.len() implies (#[trigger] s[i]).id@ != (
    #[trigger] s[j]).id@ by {
        broadcast use vstd::seq_lib::group_to_multiset_ensures;
        shared_elements(s, a, s[i]);
        shared_elements(s, a, s[j]);
        let k = a.index_of(s[i]);
        let m = a.index_of(s[j]);
        assert(a[k] == s[i] && a[m] == s[j]);
        if s[i].id@ == s[j].id@ {
            assert(k == m);
            assert(s[i] == s[j]);
            repeated_elements(s, i, j);
            single_elements(a, k);
            assert(s.to_multiset().count(s[i]) == a.to_multiset().count(s[i]));
        }
    }
    orders_of_the_same_releases_agree(ordered(a), ordered(b));
}

proof fn repeated_elements(s: Seq<Album>, i: int, j: int)
    requires
        0 <= i < j < s.len(),
        s[i] == s[j],
    ensures
        s.to_multiset().count(s[i]) >= 2,
{
    broadcast use vstd::seq_lib::group_to_multiset_ensures;
    let without = s.remove(j);
    assert(without[i] == s[i]);
    assert(without.contains(s[i]));
    assert(without.to_multiset().count(s[i]) > 0);
    assert(without.to_multiset() =~= s.to_multiset().remove(s[j]));
}

proof fn single_elements(s: Seq<Album>, i: int)
    requires
        0 <= i < s.len(),
        distinct_ids(s),
    ensures
        s.to_multiset().count(s[i]) == 1,
{
    broadcast use vstd::seq_lib::group_to_multiset_ensures;
    let without = s.remove(i);
    if without.contains(s[i]) {
        let k = without.index_of(s[i]);
        assert(without[k] == s[i]);
        let m = if k < i { k } else { k + 1 };
        assert(s[m] == s[i]);
    }
    assert(without.to_multiset() =~= s.to_multiset().remove(s[i]));
    assert(without.to_multiset().count(s[i]) == 0);
}

/// A release stands in front of every older one and of every one without a date,
/// whatever they are called. Of two that came out together, the artists decide,
/// else the titles, else the ids, all in the order of the alphabet.
pub proof fn the_newest_release_comes_first(x: Album, y: Album, k: int)
    ensures
        x.release_date matches Some(dx) && y.release_date matches Some(dy) && text_below(
            dy@,
            dx@,
        ) ==> release_rank(x, y) == Rank::Before && release_rank(y, x) == Rank::After,
        x.release_date matches Some(dx) && y.release_date matches Some(dy) && 0 <= k < dx@.len()
            && k < dy@.len() && (forall|i: int| 0 <= i < k ==> dx@[i] == dy@[i]) && (dx@[k] as int)
            > (dy@[k] as int) ==> release_rank(x, y) == Rank::Before && release_rank(y, x)
            == Rank::After,
        x.release_date is Some && y.release_date is None ==> release_rank(x, y) == Rank::Before
            && release_rank(y, x) == Rank::After,
        text_of(x.release_date) == text_of(y.release_date) ==> {
            let (ax, ay) = (
                joined(Seq::new(x.artists@.len(), |i: int| lowercase(x.artists@[i].name@)), "\0"@),
                joined(Seq::new(y.artists@.len(), |i: int| lowercase(y.artists@[i].name@)), "\0"@),
            );
            let (nx, ny) = (lowercase(x.name@), lowercase(y.name@));
            &&& text_below(ax, ay) ==> release_rank(x, y) == Rank::Before
            &&& ax == ay && text_below(nx, ny) ==> release_rank(x, y) == Rank::Before
            &&& ax == ay && nx == ny && text_below(x.id@, y.id@) ==> release_rank(x, y)
                == Rank::Before
        },
{
    release_order_is_total(x, y);
    assert(lower_names(x.artists@) =~= Seq::new(
        x.artists@.len(),
        |i: int| lowercase(x.artists@[i].name@),
    ));
    assert(lower_names(y.artists@) =~= Seq::new(
        y.artists@.len(),
        |i: int| lowercase(y.artists@[i].name@),
    ));
    text_order_is_total(artists_key(x.artists@), artists_key(y.artists@));
    text_order_is_total(lowercase(x.name@), lowercase(y.name@));
    text_order_is_total(x.id@, y.id@);
    match (x.release_date, y.release_date) {
        (Some(dx), Some(dy)) => {
            text_order_is_total(dx@, dy@);
            if 0 <= k < dx@.len() && k < dy@.len() && (forall|i: int| 0 <= i < k
                ==> dx@[i] == dy@[i])
                && (dx@[k] as int) > (dy@[k] as int) {
                the_first_difference_orders_texts(dy@, dx@, k);
            }
        },
        _ => {},
    }
}

/// A sorted list shows no release in front of a newer one, and those without a
/// date at its end. It holds exactly the releases that were there.
pub proof fn a_list_goes_from_new_to_old(list: Seq<Album>, i: int, j: int, k: int)
    requires
        0 <= i < j < list.len(),
    ensures
        ordered(list).len() == list.len(),
        ordered(list).to_multiset() == list.to_multiset(),
        ordered(list)[j].release_date is Some ==> ordered(list)[i].release_date is Some,
        ordered(list)[i].release_date matches Some(a) ==> (ordered(list)[j].release_date
            matches Some(b) ==> !text_below(a@, b@)),
        ordered(list)[i].release_date matches Some(a) ==> (ordered(list)[j].release_date
            matches Some(b) ==> (0 <= k < a@.len() && k < b@.len() && (forall|m: int|
            0 <= m < k ==> a@[m] == b@[m]) ==> (a@[k] as int) >= (b@[k] as int))),
{
    sorting_orders_and_keeps_all(list);
    let (x, y) = (ordered(list)[i], ordered(list)[j]);
    assert(not_after(x, y));
    the_newest_release_comes_first(y, x, k);
    match (x.release_date, y.release_date) {
        (Some(a), Some(b)) => {
            if 0 <= k < a@.len() && k < b@.len() && (forall|m: int| 0 <= m < k ==> a@[m] == b@[m])
                && (a@[k] as int) < (b@[k] as int) {
                the_first_difference_orders_texts(a@, b@, k);
            }
        },
        _ => {},
    }
}

/// Releases are shown from the newest to the oldest: of two that have a date, the later
/// one does not stand behind the earlier one, and all that were found are shown.
pub proof fn the_newest_release_is_shown_first(
    albums: Vec<Album>,
    sorted: Vec<Album>,
    i: int,
    j: int,
    k: int,
)
    requires
        call_ensures(sort_releases, (albums,), sorted),
        0 <= i < j < albums@.len(),
    ensures
        sorted@.to_multiset() == albums@.to_multiset(),
        sorted@.len() == albums@.len(),
        sorted@[j].release_date is Some ==> sorted@[i].release_date is Some,
        sorted@[i].release_date matches Some(a) ==> (sorted@[j].release_date matches Some(b) ==> (0
            <= k < a@.len() && k < b@.len() && (forall|m: int| 0 <= m < k ==> a@[m] == b@[m]) ==> (
        a@[k] as int) >= (b@[k] as int))),
{
    a_list_goes_from_new_to_old(albums@, i, j, k);
}

} // verus!
