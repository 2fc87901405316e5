//! Looking up the precise type of albums, one at a time, through the
//! streaming engine.

use std::collections::VecDeque;

use vstd::prelude::*;

use crate::sets::TextSet;
use crate::text::texts;

verus! {

/// At most one full album page is outstanding for a playback engine.
pub const MAX_PENDING_ALBUM_TYPES: usize = 50;

/// One lookup, stamped with the session and engine that it was made for.
#[derive(Debug, PartialEq, Eq)]
pub struct AlbumTypeRequest {
    pub uri: String,
    pub session_generation: u64,
    pub engine_generation: u64,
}

impl Clone for AlbumTypeRequest {
    fn clone(&self) -> (r: Self)
        ensures
            r == *self,
    {
        AlbumTypeRequest {
            uri: self.uri.clone(),
            session_generation: self.session_generation,
            engine_generation: self.engine_generation,
        }
    }
}

impl AlbumTypeRequest {
    /// Whether two lookups are the same one.
    pub open spec fn is(self, other: AlbumTypeRequest) -> bool {
        &&& self.uri@ == other.uri@
        &&& self.session_generation == other.session_generation
        &&& self.engine_generation == other.engine_generation
    }
}

/// The lookups of one session: what waits, what was ever asked, and the one
/// that an engine is working on.
pub struct AlbumTypeLookup {
    pub session_generation: u64,
    pub engine_generation: u64,
    pub pending: VecDeque<String>,
    pub seen: TextSet,
    pub active: Option<AlbumTypeRequest>,
}

/// The lookups as plain sequences.
#[verifier::ext_equal]
pub struct LookupModel {
    pub session_generation: u64,
    pub engine_generation: u64,
    pub pending: Seq<String>,
    pub seen: Seq<Seq<char>>,
    pub active: Option<AlbumTypeRequest>,
}

/// Adding one to a generation counter, which wraps.
pub open spec fn next_generation(value: u64) -> u64 {
    if value == u64::MAX {
        0
    } else {
        (value + 1) as u64
    }
}

impl LookupModel {
    pub open spec fn initial() -> LookupModel {
        LookupModel {
            session_generation: 0,
            engine_generation: 0,
            pending: Seq::empty(),
            seen: Seq::empty(),
            active: None,
        }
    }

    /// How many lookups are waiting or being worked on.
    pub open spec fn outstanding(self) -> nat {
        self.pending.len() + if self.active is Some {
            1nat
        } else {
            0nat
        }
    }

    /// The work that is not finished, the active lookup first.
    pub open spec fn unfinished(self) -> Seq<String> {
        match self.active {
            Some(request) => seq![request.uri] + self.pending,
            None => self.pending,
        }
    }

    /// Everything unfinished is remembered as asked and stands once; the
    /// work stays within its bound; an active lookup bears the current stamps.
    pub closed spec fn wf(self) -> bool {
        &&& self.seen.no_duplicates()
        &&& texts(self.unfinished()).no_duplicates()
        &&& forall|i: int|
            0 <= i < self.unfinished().len() ==> self.seen.contains(
                (#[trigger] self.unfinished()[i])@,
            )
        &&& self.outstanding() <= MAX_PENDING_ALBUM_TYPES
        &&& match self.active {
            Some(request) => request.session_generation == self.session_generation
                && request.engine_generation == self.engine_generation,
            None => true,
        }
    }

    /// What asking for one album leaves: nothing changes when the work is at
    /// its bound or the album was asked for before.
    pub open spec fn ask(self, uri: String) -> LookupModel {
        if self.outstanding() >= MAX_PENDING_ALBUM_TYPES || self.seen.contains(uri@) {
            self
        } else {
            LookupModel { pending: self.pending.push(uri), seen: self.seen.push(uri@), ..self }
        }
    }

    /// What asking for the albums in a row leaves.
    pub open spec fn ask_all(self, uris: Seq<String>) -> LookupModel
        decreases uris.len(),
    {
        if uris.len() == 0 {
            self
        } else {
            self.ask_all(uris.drop_last()).ask(uris.last())
        }
    }

    /// Only a signed-in account that is not known to be without Premium asks.
    pub open spec fn enqueue(
        self,
        signed_in: bool,
        premium: Option<bool>,
        uris: Seq<String>,
    ) -> LookupModel {
        if !signed_in || premium == Some(false) {
            self
        } else {
            self.ask_all(uris)
        }
    }

    /// The lookup that an engine may start now.
    pub open spec fn next_request(self) -> Option<AlbumTypeRequest> {
        if self.active is Some || self.pending.len() == 0 {
            None
        } else {
            Some(
                AlbumTypeRequest {
                    uri: self.pending[0],
                    session_generation: self.session_generation,
                    engine_generation: self.engine_generation,
                },
            )
        }
    }

    pub open spec fn next(self) -> LookupModel {
        match self.next_request() {
            Some(request) => LookupModel {
                pending: self.pending.drop_first(),
                active: Some(request),
                ..self
            },
            None => self,
        }
    }

    /// An answer counts for the active lookup alone.
    pub open spec fn accepts(self, request: AlbumTypeRequest) -> bool {
        match self.active {
            Some(active) => active.is(request),
            None => false,
        }
    }

    pub open spec fn finish(self, request: AlbumTypeRequest) -> LookupModel {
        if self.accepts(request) {
            LookupModel { active: None, ..self }
        } else {
            self
        }
    }

    pub open spec fn retire_engine(self) -> LookupModel {
        LookupModel {
            engine_generation: next_generation(self.engine_generation),
            active: None,
            ..self
        }
    }

    /// The work of the engine that went away is first in line for the next.
    pub open spec fn requeue_active_for_new_engine(self) -> LookupModel {
        LookupModel {
            engine_generation: next_generation(self.engine_generation),
            pending: self.unfinished(),
            active: None,
            ..self
        }
    }

    pub open spec fn clear_engine_work(self) -> LookupModel {
        LookupModel {
            session_generation: self.session_generation,
            engine_generation: next_generation(self.engine_generation),
            pending: Seq::empty(),
            seen: Seq::empty(),
            active: None,
        }
    }

    pub open spec fn reset_session(self) -> LookupModel {
        LookupModel {
            session_generation: next_generation(self.session_generation),
            ..self.clear_engine_work()
        }
    }
}

impl Default for AlbumTypeLookup {
    fn default() -> (lookup: Self)
        ensures
            lookup@ == LookupModel::initial(),
            lookup@.wf(),
    {
        let lookup = AlbumTypeLookup {
            session_generation: 0,
            engine_generation: 0,
            pending: VecDeque::new(),
            seen: TextSet::new(),
            active: None,
        };
        assert(lookup@ =~= LookupModel::initial());
        lookup
    }
}

impl AlbumTypeLookup {
    pub open spec fn view(&self) -> LookupModel {
        LookupModel {
            session_generation: self.session_generation,
            engine_generation: self.engine_generation,
            pending: self.pending@,
            seen: self.seen.list(),
            active: self.active,
        }
    }

    /// Remembers albums to look up. The ones beyond the bound, and the ones
    /// asked for before, are left out.
    pub fn enqueue(&mut self, signed_in: bool, premium: Option<bool>, uris: Vec<String>)
        requires
            old(self)@.wf(),
        ensures
            final(self)@ == old(self)@.enqueue(signed_in, premium, uris@),
            final(self)@.wf(),
    {
        if !signed_in {
            return;
        }
        if let Some(false) = premium {
            return;
        }
        let mut i: usize = 0;
        assert(uris@.take(0) =~= Seq::<String>::empty());
        while i < uris.len()
            invariant
                i <= uris@.len(),
                signed_in,
                premium != Some(false),
                self@.wf(),
                self@ == old(self)@.ask_all(uris@.take(i as int)),
            decreases uris.len() - i,
        {
            let ghost before = self@;
            proof {
                let next = uris@.take(i + 1);
                assert(next.drop_last() =~= uris@.take(i as int));
                assert(next.last() == uris@[i as int]);
                asking_keeps_the_lookups_valid(before, uris@[i as int]);
            }
            let outstanding: usize = self.pending.len() + if self.active.is_some() {
                1
            } else {
                0
            };
            if outstanding >= MAX_PENDING_ALBUM_TYPES {
                proof {
                    a_full_lookup_stays_as_it_is(before, uris@.skip(i as int));
                    asking_in_two_parts(old(self)@, uris@.take(i as int), uris@.skip(i as int));
                    assert(uris@.take(i as int) + uris@.skip(i as int) =~= uris@);
                }
                return;
            }
            let uri = uris[i].clone();
            if self.seen.insert(uri.clone()) {
                self.pending.push_back(uri);
            }
            assert(self@ =~= before.ask(uris@[i as int]));
            i += 1;
        }
        assert(uris@.take(i as int) =~= uris@);
    }

    /// The next lookup, when none is active.
    pub fn next(&mut self) -> (request: Option<AlbumTypeRequest>)
        requires
            old(self)@.wf(),
        ensures
            final(self)@ == old(self)@.next(),
            final(self)@.wf(),
            request == old(self)@.next_request(),
    {
        if self.active.is_some() {
            return None;
        }
        let ghost before = self@;
        match self.pending.pop_front() {
            None => None,
            Some(uri) => {
                let request = AlbumTypeRequest {
                    uri,
                    session_generation: self.session_generation,
                    engine_generation: self.engine_generation,
                };
                self.active = Some(request.clone());
                proof {
                    assert(self@.pending =~= before.pending.drop_first());
                    assert(self@ =~= before.next());
                    assert(before.next().unfinished() =~= before.unfinished());
                }
                Some(request)
            },
        }
    }

    /// Takes the answer of a lookup. False when the answer is for a lookup
    /// that is not the active one.
    pub fn finish(&mut self, request: &AlbumTypeRequest) -> (accepted: bool)
        requires
            old(self)@.wf(),
        ensures
            accepted == old(self)@.accepts(*request),
            final(self)@ == old(self)@.finish(*request),
            final(self)@.wf(),
    {
        let ghost before = self@;
        let same = match &self.active {
            None => false,
            Some(active) => active.uri == request.uri && active.session_generation
                == request.session_generation && active.engine_generation
                == request.engine_generation,
        };
        if same {
            self.active = None;
            proof {
                assert(self@ =~= before.finish(*request));
                dropping_the_active_lookup_keeps_the_rest(before, self@);
            }
        }
        same
    }

    /// Stops waiting for the engine's answer.
    pub fn retire_engine(&mut self)
        requires
            old(self)@.wf(),
        ensures
            final(self)@ == old(self)@.retire_engine(),
            final(self)@.wf(),
    {
        let ghost before = self@;
        self.engine_generation = self.engine_generation.wrapping_add(1);
        self.active = None;
        proof {
            assert(self@ =~= before.retire_engine());
            if before.active is Some {
                dropping_the_active_lookup_keeps_the_rest(before, self@);
            }
        }
    }

    /// Puts the active lookup back at the front, for the engine to come.
    pub fn requeue_active_for_new_engine(&mut self)
        requires
            old(self)@.wf(),
        ensures
            final(self)@ == old(self)@.requeue_active_for_new_engine(),
            final(self)@.wf(),
    {
        let ghost before = self@;
        self.engine_generation = self.engine_generation.wrapping_add(1);
        match self.active.take() {
            None => {},
            Some(request) => {
                self.pending.push_front(request.uri);
            },
        }
        proof {
            assert(self.pending@ =~= before.unfinished());
            assert(self@ =~= before.requeue_active_for_new_engine());
        }
    }

    /// Drops all work, and what was asked, for good reason: no engine will
    /// answer it.
    pub fn clear_engine_work(&mut self)
        requires
            old(self)@.wf(),
        ensures
            final(self)@ == old(self)@.clear_engine_work(),
            final(self)@.wf(),
    {
        let ghost before = self@;
        self.retire_engine();
        self.pending.clear();
        self.seen.clear();
        assert(self@ =~= before.clear_engine_work());
    }

    /// Starts over for another signed-in session.
    pub fn reset_session(&mut self)
        requires
            old(self)@.wf(),
        ensures
            final(self)@ == old(self)@.reset_session(),
            final(self)@.wf(),
    {
        let ghost before = self@;
        self.session_generation = self.session_generation.wrapping_add(1);
        self.active = None;
        proof {
            if before.active is Some {
                dropping_the_active_lookup_keeps_the_rest(before, self@);
            }
        }
        self.clear_engine_work();
        assert(self@ =~= before.reset_session());
    }
}

proof fn dropping_the_active_lookup_keeps_the_rest(before: LookupModel, after: LookupModel)
    requires
        before.wf(),
        before.active is Some,
        after.active is None,
        after.pending == before.pending,
        after.seen == before.seen,
    ensures
        after.wf(),
{
    let (work, rest) = (texts(before.unfinished()), texts(after.unfinished()));
    assert forall|i: int, j: int| 0 <= i < j < rest.len() implies rest[i] != rest[j] by {
        assert(work[i + 1] == rest[i]);
        assert(work[j + 1] == rest[j]);
    }
    assert forall|i: int| 0 <= i < after.unfinished().len() implies after.seen.contains(
        (#[trigger] after.unfinished()[i])@,
    ) by {
        assert(before.unfinished()[i + 1] == after.unfinished()[i]);
    }
}

proof fn asking_keeps_the_lookups_valid(lookup: LookupModel, uri: String)
    requires
        lookup.wf(),
    ensures
        lookup.ask(uri).wf(),
{
    let after = lookup.ask(uri);
    if !(lookup.outstanding() >= MAX_PENDING_ALBUM_TYPES || lookup.seen.contains(uri@)) {
        let work = lookup.unfinished();
        assert(after.unfinished() =~= work.push(uri));
        assert forall|i: int| 0 <= i < after.unfinished().len() implies after.seen.contains(
            (#[trigger] after.unfinished()[i])@,
        ) by {
            if i < work.len() {
                assert(lookup.seen.contains(work[i]@));
                let k = lookup.seen.index_of(work[i]@);
                assert(after.seen[k] == work[i]@);
            } else {
                assert(after.seen[lookup.seen.len() as int] == uri@);
            }
        }
        let names = texts(after.unfinished());
        assert forall|i: int, j: int| 0 <= i < j < names.len() implies names[i] != names[j] by {
            assert(lookup.seen.contains(work[i]@));
            assert(texts(work)[i] == names[i]);
            if j < work.len() {
                assert(texts(work)[j] == names[j]);
            }
        }
    }
}

/// Asking in two parts is asking for all of it.
proof fn asking_in_two_parts(lookup: LookupModel, a: Seq<String>, b: Seq<String>)
    ensures
        lookup.ask_all(a + b) == lookup.ask_all(a).ask_all(b),
    decreases b.len(),
{
    if b.len() == 0 {
        assert(a + b =~= a);
    } else {
        assert((a + b).drop_last() =~= a + b.drop_last());
        assert((a + b).last() == b.last());
        asking_in_two_parts(lookup, a, b.drop_last());
    }
}

proof fn a_full_lookup_stays_as_it_is(lookup: LookupModel, uris: Seq<String>)
    requires
        lookup.outstanding() >= MAX_PENDING_ALBUM_TYPES,
    ensures
        lookup.ask_all(uris) == lookup,
    decreases uris.len(),
{
    if uris.len() > 0 {
        a_full_lookup_stays_as_it_is(lookup, uris.drop_last());
    }
}

/// Work that is not finished is remembered as asked for and stands once, there
/// is never more of it than its bound, and the active lookup bears the stamps of
/// the session and of the engine.
pub proof fn unfinished_work_is_remembered(lookup: LookupModel)
    requires
        lookup.wf(),
    ensures
        texts(lookup.unfinished()).no_duplicates(),
        lookup.seen.no_duplicates(),
        forall|i: int|
            0 <= i < lookup.unfinished().len() ==> lookup.seen.contains(
                (#[trigger] lookup.unfinished()[i])@,
            ),
        lookup.outstanding() <= MAX_PENDING_ALBUM_TYPES,
        lookup.active matches Some(request) ==> request.session_generation
            == lookup.session_generation && request.engine_generation == lookup.engine_generation,
{
}

/// However many albums are asked for, the work stays within its bound and
/// every album stands in it at most once.
pub proof fn album_type_work_stays_bounded(
    lookup: LookupModel,
    signed_in: bool,
    premium: Option<bool>,
    uris: Seq<String>,
)
    requires
        lookup.wf(),
    ensures
        lookup.enqueue(signed_in, premium, uris).wf(),
        lookup.enqueue(signed_in, premium, uris).outstanding() <= MAX_PENDING_ALBUM_TYPES,
        texts(lookup.enqueue(signed_in, premium, uris).unfinished()).no_duplicates(),
    decreases uris.len(),
{
    if uris.len() > 0 {
        album_type_work_stays_bounded(lookup, signed_in, premium, uris.drop_last());
        if signed_in && premium != Some(false) {
            asking_keeps_the_lookups_valid(lookup.ask_all(uris.drop_last()), uris.last());
        }
    }
}

/// An album that was asked for is not asked for again in the same session,
/// whether its lookup waits, runs, failed, or succeeded.
pub proof fn asked_albums_are_not_asked_again(lookup: LookupModel, uri: String)
    requires
        lookup.seen.contains(uri@),
    ensures
        lookup.ask(uri) == lookup,
        lookup.next().seen.contains(uri@),
        forall|request: AlbumTypeRequest| #[trigger]
            lookup.finish(request).seen.contains(uri@),
        lookup.requeue_active_for_new_engine().seen.contains(uri@),
{
}

/// An answer made for an earlier session is rejected after the session was
/// reset, whatever was asked since.
pub proof fn answers_of_an_earlier_session_are_rejected(
    lookup: LookupModel,
    old: AlbumTypeRequest,
    uris: Seq<String>,
)
    requires
        lookup.wf(),
        old.session_generation == lookup.session_generation,
    ensures
        !lookup.reset_session().accepts(old),
        !lookup.reset_session().ask_all(uris).next().accepts(old),
{
    asking_changes_no_stamp(lookup.reset_session(), uris);
}

/// An answer made for an engine that went away is rejected, and its work is
/// the first that the next engine gets.
pub proof fn a_new_engine_repeats_the_active_lookup(lookup: LookupModel)
    requires
        lookup.wf(),
        lookup.active is Some,
    ensures
        ({
            let old = lookup.active->0;
            let requeued = lookup.requeue_active_for_new_engine();
            &&& !requeued.accepts(old)
            &&& !requeued.next().accepts(old)
            &&& requeued.unfinished() == lookup.unfinished()
            &&& requeued.next_request() is Some
            &&& requeued.next_request()->0.uri == old.uri
            &&& requeued.next_request()->0.session_generation == old.session_generation
            &&& requeued.next_request()->0.engine_generation != old.engine_generation
        }),
{
}

/// Clearing the work keeps the session, changes the engine stamp, and rejects
/// the lookup that was active.
pub proof fn cleared_work_is_not_answered(lookup: LookupModel)
    requires
        lookup.wf(),
    ensures
        lookup.clear_engine_work().session_generation == lookup.session_generation,
        lookup.clear_engine_work().engine_generation != lookup.engine_generation,
        lookup.clear_engine_work().outstanding() == 0,
        lookup.active is Some ==> !lookup.clear_engine_work().accepts(lookup.active->0),
{
}

proof fn asking_changes_no_stamp(lookup: LookupModel, uris: Seq<String>)
    ensures
        lookup.ask_all(uris).session_generation == lookup.session_generation,
        lookup.ask_all(uris).engine_generation == lookup.engine_generation,
        lookup.ask_all(uris).active == lookup.active,
    decreases uris.len(),
{
    if uris.len() > 0 {
        asking_changes_no_stamp(lookup, uris.drop_last());
    }
}

} // verus!
