//! A disk on which directories move, with what lies below them.

use vstd::prelude::*;

use crate::file_path::{place, Place};
use crate::paths::{
    migration_step, moves_profile, AppDirs, Destination, MarkerFacts, MigrationError, Move, Source,
};

verus! {

/// What is at a place.
pub ghost enum Node<T> {
    Directory,
    File(T),
}

/// A disk: what is at each place.
pub ghost struct Disk<T> {
    pub at: spec_fn(Place) -> Option<Node<T>>,
}

/// Whether a place is another, or lies below it.
pub open spec fn below(a: Place, b: Place) -> bool {
    &&& a.prefix == b.prefix
    &&& a.rooted == b.rooted
    &&& a.dotted == b.dotted
    &&& b.names.len() <= a.names.len()
    &&& a.names.take(b.names.len() as int) == b.names
}

/// The place below `to` that stands to it as a place below `from` does to that.
pub open spec fn carried(at: Place, from: Place, to: Place) -> Place {
    Place { names: to.names + at.names.skip(from.names.len() as int), ..to }
}

impl<T> Disk<T> {
    pub open spec fn has(self, at: Place) -> bool {
        (self.at)(at) is Some
    }

    pub open spec fn has_directory(self, at: Place) -> bool {
        (self.at)(at) == Some(Node::<T>::Directory)
    }

    /// Whatever is there lies in directories that are there.
    pub open spec fn wf(self) -> bool {
        forall|at: Place, above: Place|
            self.has(at) && at != above && #[trigger] below(at, above) ==> self.has_directory(above)
    }

    /// What becomes of a directory.
    pub open spec fn step(self, from: Place, to: Place) -> Result<bool, MigrationError> {
        migration_step(
            if self.has(to) {
                Destination::Present
            } else {
                Destination::Absent
            },
            match (self.at)(from) {
                Some(Node::Directory) => Source::Directory,
                Some(Node::File(_)) => Source::Other,
                None => Source::Absent,
            },
        )
    }

    /// Whether a directory moves.
    pub open spec fn moves(self, from: Place, to: Place) -> bool {
        self.step(from, to) == Ok::<bool, MigrationError>(true)
    }

    /// Whether a move succeeds. It fails where the old place is no directory, and
    /// a directory that moves cannot move below itself, or below a file.
    pub open spec fn allows(self, from: Place, to: Place) -> bool {
        &&& self.step(from, to) is Ok
        &&& self.moves(from, to) ==> !below(to, from) && forall|above: Place|
            #[trigger] below(to, above) && self.has(above) ==> self.has_directory(above)
    }

    /// What is at a place once a directory has been moved: what was below it is
    /// below its new place, in directories that are made where they are missing.
    pub open spec fn renamed(self, from: Place, to: Place, at: Place) -> Option<Node<T>> {
        if below(at, to) {
            (self.at)(carried(at, to, from))
        } else if below(at, from) {
            None
        } else if below(to, at) {
            Some(Node::Directory)
        } else {
            (self.at)(at)
        }
    }

    pub open spec fn moved(self, from: Place, to: Place) -> Disk<T> {
        if self.moves(from, to) {
            Disk { at: |at: Place| self.renamed(from, to, at) }
        } else {
            self
        }
    }

    /// The disk after moves, one after the other.
    pub open spec fn after(self, moves: Seq<Move>) -> Disk<T>
        decreases moves.len(),
    {
        if moves.len() == 0 {
            self
        } else {
            self.after(moves.drop_last()).moved(
                place(moves.last().from@),
                place(moves.last().to@),
            )
        }
    }

    /// Whether every one of some moves succeeds.
    pub open spec fn allows_all(self, moves: Seq<Move>) -> bool
        decreases moves.len(),
    {
        moves.len() == 0 || (self.allows_all(moves.drop_last()) && self.after(
            moves.drop_last(),
        ).allows(place(moves.last().from@), place(moves.last().to@)))
    }

    /// Where something lies after moves.
    pub open spec fn landing(self, moves: Seq<Move>, at: Place) -> Place
        decreases moves.len(),
    {
        if moves.len() == 0 {
            at
        } else {
            let before = self.after(moves.drop_last());
            let (from, to) = (place(moves.last().from@), place(moves.last().to@));
            let held = self.landing(moves.drop_last(), at);
            if before.moves(from, to) && below(held, from) {
                carried(held, from, to)
            } else {
                held
            }
        }
    }

    /// Whether a directory need not move: there is none, or something stands at
    /// its destination.
    pub open spec fn settled(self, from: Place, to: Place) -> bool {
        self.has(to) || !self.has(from)
    }
}

/// Whether a later move leaves an earlier one settled on every disk. A directory
/// never moves between two places of which one lies in the other. Any other
/// must not take along what stands at the earlier one's new place and leave what
/// is at its old place, and must not bring something to that old place, or make a
/// directory there, unless the new place is made with it.
pub open spec fn leaves_settled(earlier: Move, later: Move) -> bool {
    let (from, to) = (place(earlier.from@), place(earlier.to@));
    let (source, target) = (place(later.from@), place(later.to@));
    ||| from == to
    ||| below(source, target)
    ||| below(target, source)
    ||| {
        &&& below(to, source) ==> below(from, source)
        &&& below(from, target) || below(target, from) ==> below(target, to)
    }
}

proof fn carried_back(at: Place, from: Place, to: Place)
    requires
        below(at, to),
    ensures
        below(carried(at, to, from), from),
        carried(carried(at, to, from), from, to) == at,
{
    let back = carried(at, to, from);
    let tail = at.names.skip(to.names.len() as int);
    assert(back.names.take(from.names.len() as int) =~= from.names);
    assert(back.names.skip(from.names.len() as int) =~= tail);
    assert(to.names + tail =~= at.names) by {
        assert(at.names =~= at.names.take(to.names.len() as int) + tail);
    }
}

proof fn below_both(at: Place, a: Place, b: Place)
    requires
        below(at, a),
        below(at, b),
    ensures
        below(a, b) || below(b, a),
{
    if a.names.len() <= b.names.len() {
        assert(b.names.take(a.names.len() as int) =~= at.names.take(a.names.len() as int));
    } else {
        assert(a.names.take(b.names.len() as int) =~= at.names.take(b.names.len() as int));
    }
}

proof fn below_chains(a: Place, b: Place, c: Place)
    requires
        below(a, b),
        below(b, c),
    ensures
        below(a, c),
{
    assert(a.names.take(c.names.len() as int) =~= b.names.take(c.names.len() as int));
}

proof fn below_itself(a: Place)
    ensures
        below(a, a),
{
    assert(a.names.take(a.names.len() as int) =~= a.names);
}

proof fn mutual(a: Place, b: Place)
    requires
        below(a, b),
        below(b, a),
    ensures
        a == b,
{
    assert(a.names.take(b.names.len() as int) =~= a.names);
}

proof fn a_disk_stays_well_formed<T>(disk: Disk<T>, from: Place, to: Place)
    requires
        disk.wf(),
        disk.allows(from, to),
    ensures
        disk.moved(from, to).wf(),
{
    if disk.moves(from, to) {
        let after = disk.moved(from, to);
        assert forall|at: Place, above: Place|
            after.has(at) && at != above && #[trigger] below(at, above) implies after.has_directory(
            above,
        ) by {
            assert((after.at)(at) == disk.renamed(from, to, at));
            assert((after.at)(above) == disk.renamed(from, to, above));
            if below(above, from) {
                below_chains(at, above, from);
                if below(at, to) {
                    ends_of_a_move_lie_apart(disk, from, to, at);
                }
            }
            if below(at, to) {
                below_both(at, above, to);
                if below(above, to) {
                    carried_keeps_order(at, above, to, from);
                    assert(below(carried(at, to, from), carried(above, to, from)));
                } else {
                    assert(below(to, above));
                }
            } else if below(to, at) {
                below_chains(to, at, above);
                if below(above, to) {
                    mutual(above, to);
                    mutual(at, to);
                }
            } else if below(above, to) {
                below_chains(at, above, to);
            }
        }
    }
}

proof fn ends_of_a_move_lie_apart<T>(disk: Disk<T>, from: Place, to: Place, at: Place)
    requires
        disk.wf(),
        disk.allows(from, to),
        disk.moves(from, to),
    ensures
        !below(from, to),
        !below(to, from),
        !(below(at, from) && below(at, to)),
{
    if below(from, to) {
        assert(disk.has(from));
    }
    if below(at, from) && below(at, to) {
        below_both(at, from, to);
    }
}

proof fn carried_keeps_order(at: Place, above: Place, from: Place, to: Place)
    requires
        below(above, from),
        below(at, above),
    ensures
        below(at, from),
        below(carried(at, from, to), carried(above, from, to)),
        at != above ==> carried(at, from, to) != carried(above, from, to),
{
    below_chains(at, above, from);
    let (a, b) = (carried(at, from, to), carried(above, from, to));
    assert(a.names.take(b.names.len() as int) =~= b.names) by {
        assert forall|i: int| 0 <= i < b.names.len() implies a.names[i] == b.names[i] by {
            if i >= to.names.len() {
                let k = i - to.names.len() + from.names.len();
                assert(above.names[k] == at.names.take(above.names.len() as int)[k]);
            }
        }
    }
    if a == b {
        carried_back(at, to, from);
        carried_back(above, to, from);
    }
}

/// Moving again changes nothing. What stood at the destination is kept. What lay
/// below the source is below the destination afterwards, if the source moved, and
/// all else stays. Nothing comes to be but the directories that the destination
/// lies in.
pub proof fn migration_is_repeatable_and_loses_nothing<T>(disk: Disk<T>, from: Place, to: Place)
    requires
        disk.wf(),
        disk.allows(from, to),
    ensures
        disk.moved(from, to).wf(),
        disk.moved(from, to).settled(from, to),
        disk.moved(from, to).moved(from, to) == disk.moved(from, to),
        disk.has(to) ==> disk.moved(from, to) == disk,
        forall|at: Place| #[trigger]
            disk.has(at) ==> (disk.moved(from, to).at)(
                if disk.moves(from, to) && below(at, from) {
                    carried(at, from, to)
                } else {
                    at
                },
            ) == (disk.at)(at),
        forall|at: Place|
            (#[trigger] disk.moved(from, to).has(at)) && !disk.has(at) && !below(at, to)
                ==> disk.moved(from, to).has_directory(at) && below(to, at),
{
    a_disk_stays_well_formed(disk, from, to);
    let after = disk.moved(from, to);
    if disk.moves(from, to) {
        assert((after.at)(to) == disk.renamed(from, to, to));
        below_itself(to);
        assert(carried(to, to, from) == from) by {
            assert(from.names + to.names.skip(to.names.len() as int) =~= from.names);
        }
        assert forall|at: Place| #[trigger] disk.has(at) implies (after.at)(
            if below(at, from) {
                carried(at, from, to)
            } else {
                at
            },
        ) == (disk.at)(at) by {
            if below(at, from) {
                carried_back(at, to, from);
                assert((after.at)(carried(at, from, to)) == disk.renamed(
                    from,
                    to,
                    carried(at, from, to),
                ));
            } else {
                assert((after.at)(at) == disk.renamed(from, to, at));
                if below(at, to) {
                    assert(at == to || disk.has_directory(to));
                }
            }
        }
        assert forall|at: Place| (#[trigger] after.has(at)) && !disk.has(at) && !below(
            at,
            to,
        ) implies after.has_directory(at) && below(to, at) by {
            assert((after.at)(at) == disk.renamed(from, to, at));
        }
    }
}

proof fn settled_stays<T>(disk: Disk<T>, earlier: Move, later: Move)
    requires
        disk.wf(),
        disk.allows(place(later.from@), place(later.to@)),
        disk.settled(place(earlier.from@), place(earlier.to@)),
        leaves_settled(earlier, later),
    ensures
        disk.moved(place(later.from@), place(later.to@)).settled(
            place(earlier.from@),
            place(earlier.to@),
        ),
{
    let (from, to) = (place(earlier.from@), place(earlier.to@));
    let (source, target) = (place(later.from@), place(later.to@));
    let after = disk.moved(source, target);
    if disk.moves(source, target) {
        ends_of_a_move_lie_apart(disk, source, target, to);
        ends_of_a_move_lie_apart(disk, source, target, from);
        assert((after.at)(from) == disk.renamed(source, target, from));
        assert((after.at)(to) == disk.renamed(source, target, to));
        if below(target, to) && below(to, source) {
            below_chains(target, to, source);
        }
        if below(target, to) {
            if below(to, target) {
                mutual(to, target);
                assert(carried(target, target, source) == source) by {
                    assert(source.names + target.names.skip(target.names.len() as int)
                        =~= source.names);
                }
            }
        }
    }
}

/// Whether a place lies in a directory of a profile.
pub open spec fn is_of(dirs: AppDirs, at: Place) -> bool {
    below(at, place(dirs.config@)) || below(at, place(dirs.state@)) || below(at, place(dirs.cache@))
}

/// Migrating a profile again succeeds, moves nothing, changes nothing, and
/// writes no identity down, even where a profile keeps its configuration and its
/// state in one directory, where a directory is that of both profiles, and where
/// one directory lies in another. All that there was is kept: what is not in a
/// directory of the old profile stays where it was, the new profile included,
/// and what is in one stays, or goes along with a directory that moves.
pub proof fn a_profile_is_migrated_once<T>(
    disk: Disk<T>,
    moves: Seq<Move>,
    old: AppDirs,
    new: AppDirs,
    facts: MarkerFacts,
)
    requires
        disk.wf(),
        moves_profile(moves, old, new),
        disk.allows_all(moves),
        leaves_settled(moves[0], moves[1]),
        leaves_settled(moves[0], moves[2]),
        leaves_settled(moves[1], moves[2]),
    ensures
        disk.after(moves).wf(),
        disk.after(moves).after(moves) == disk.after(moves),
        disk.after(moves).allows_all(moves),
        forall|i: int|
            0 <= i < moves.len() ==> disk.after(moves).step(
                place((#[trigger] moves[i]).from@),
                place(moves[i].to@),
            ) == Ok::<bool, MigrationError>(false),
        facts.old_state_is_dir == disk.after(moves).has_directory(place(old.state@))
            && facts.new_state_exists == disk.after(moves).has(place(new.state@))
            ==> !AppDirs::needs_marker(facts),
        forall|at: Place| #[trigger]
            disk.has(at) ==> (disk.after(moves).at)(disk.landing(moves, at)) == (disk.at)(at),
        forall|at: Place| !is_of(old, at) ==> #[trigger] disk.landing(moves, at) == at,
{
    let (a, b) = (place(old.config@), place(new.config@));
    let (c, d) = (place(old.state@), place(new.state@));
    let (e, f) = (place(old.cache@), place(new.cache@));
    let (first, second) = (moves.drop_last().drop_last(), moves.drop_last());
    assert(first.drop_last() =~= Seq::<Move>::empty());
    assert(first.last() == moves[0]);
    assert(second.last() == moves[1]);
    reveal_with_fuel(Disk::after, 4);
    reveal_with_fuel(Disk::allows_all, 4);
    reveal_with_fuel(Disk::landing, 4);
    let one = disk.moved(a, b);
    let two = one.moved(c, d);
    let three = two.moved(e, f);
    assert(disk.after(first) == one);
    assert(disk.after(second) == two);
    assert(disk.after(moves) == three);
    migration_is_repeatable_and_loses_nothing(disk, a, b);
    migration_is_repeatable_and_loses_nothing(one, c, d);
    migration_is_repeatable_and_loses_nothing(two, e, f);
    settled_stays(one, moves[0], moves[1]);
    settled_stays(two, moves[0], moves[2]);
    settled_stays(two, moves[1], moves[2]);
    assert(three.settled(a, b) && three.settled(c, d) && three.settled(e, f));
    assert(three.after(first) == three);
    assert(three.after(second) == three);
    assert forall|at: Place| #[trigger] disk.has(at) implies (three.at)(disk.landing(moves, at))
        == (disk.at)(at) by {
        let p = disk.landing(first, at);
        assert((one.at)(p) == (disk.at)(at));
        assert(one.has(p));
        let q = disk.landing(second, at);
        assert((two.at)(q) == (one.at)(p));
        assert(two.has(q));
    }
}

} // verus!
