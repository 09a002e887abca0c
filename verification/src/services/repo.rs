//! A repository of notes: queries that filter, order and count the notes of a database,
//! and the requests that change them.
use vstd::prelude::*;

use crate::db::file::{
    first_note_index, has_note_id, is_created_message, is_deleted_message, is_error_message,
    is_updated_message, one_more, update_applied, Database, DatabaseView,
};
use crate::db::msg::DatabaseMessage;
use crate::db::traits::MultiValueArgs;
use crate::types::api::filter::{count_limit, filters_accept};
use crate::types::api::order::{
    lemma_order_compare_antisymmetric, lemma_order_compare_not_greater_transitive, order_compare,
    sorted_in, Comparison, Order,
};
use crate::types::error::{database_error_message, DatabaseError, Error};
use crate::types::note::{lemma_filter_take_step, notes_view, Note, NoteView};
use crate::types::id::is_valid_id;
use crate::types::note_dto::{opt_string_view, reminders_view, CreateNote, DeleteNote, UpdateNote};
use crate::types::text::strings_view;

verus! {

broadcast use vstd::seq_lib::group_to_multiset_ensures;

/// The first `n` notes of a list, or all of them where it holds fewer.
pub open spec fn take_at_most(s: Seq<NoteView>, n: int) -> Seq<NoteView> {
    if n < s.len() {
        s.take(n)
    } else {
        s
    }
}

/// What a query returns from a list of notes: the notes that pass `filter`, taken in
/// the order of `sorted` (the notes sorted in the query's order), at most `limit` of them.
pub open spec fn query_result(
    sorted: Seq<NoteView>,
    filter: Seq<crate::types::api::filter::NoteFilter>,
    limit: int,
) -> Seq<NoteView> {
    take_at_most(sorted.filter(|n: NoteView| filters_accept(filter, n)), limit)
}

/// A repository of notes kept in a database.
pub struct Repository {
    db: Database,
}

impl View for Repository {
    type V = DatabaseView;

    closed spec fn view(&self) -> DatabaseView {
        self.db@
    }
}

/// Inserts `n` into a sorted list of notes after the notes that do not come after it.
fn insert_in_order(out: &mut Vec<Note>, n: Note, order: Order)
    requires
        sorted_in(order@, notes_view(old(out)@)),
    ensures
        sorted_in(order@, notes_view(final(out)@)),
        notes_view(final(out)@).to_multiset() == notes_view(old(out)@).to_multiset().insert(n@),
{
    let ghost v = notes_view(out@);
    let ghost o = order@;
    let mut p: usize = 0;
    while p < out.len()
        invariant
            p <= out.len(),
            out@ == old(out)@,
            v == notes_view(out@),
            o == order@,
            forall|k: int|
                0 <= k < p ==> order_compare(o, #[trigger] v[k], n@) != Comparison::Greater,
        ensures
            p <= out.len(),
            out@ == old(out)@,
            forall|k: int|
                0 <= k < p ==> order_compare(o, #[trigger] v[k], n@) != Comparison::Greater,
            p < out.len() ==> order_compare(o, v[p as int], n@) == Comparison::Greater,
        decreases out.len() - p,
    {
        assert(v[p as int] == out@[p as int]@);
        let c = order.comparison(&out[p], &n);
        if c == Comparison::Greater {
            break;
        }
        p = p + 1;
    }
    let ghost nv = n@;
    out.insert(p, n);
    proof {
        let w = notes_view(out@);
        assert(w =~= v.insert(p as int, nv));
        if p < v.len() {
            lemma_order_compare_antisymmetric(o, v[p as int], nv);
        }
        assert forall|i: int, j: int| 0 <= i < j < w.len() implies order_compare(o, w[i], w[j])
            != Comparison::Greater by {
            if j < p {
            } else if j == p {
                assert(v[i] == w[i]);
            } else if i < p {
                assert(w[i] == v[i] && w[j] == v[j - 1]);
            } else if i == p {
                assert(w[j] == v[j - 1]);
                if j - 1 > p {
                    lemma_order_compare_not_greater_transitive(o, nv, v[p as int], v[j - 1]);
                }
            } else {
                assert(w[i] == v[i - 1] && w[j] == v[j - 1]);
            }
        }
    }
}

/// Copies of the notes, sorted in `order`.
fn sort_in_order(notes: &[Note], order: Order) -> (sorted: Vec<Note>)
    ensures
        sorted_in(order@, notes_view(sorted@)),
        notes_view(sorted@).to_multiset() == notes_view(notes@).to_multiset(),
{
    let mut sorted: Vec<Note> = Vec::new();
    let mut i: usize = 0;
    assert(notes_view(notes@.take(0)) =~= Seq::<NoteView>::empty());
    while i < notes.len()
        invariant
            i <= notes@.len(),
            sorted_in(order@, notes_view(sorted@)),
            notes_view(sorted@).to_multiset() == notes_view(notes@.take(i as int)).to_multiset(),
        decreases notes.len() - i,
    {
        let n = notes[i].clone();
        insert_in_order(&mut sorted, n, order);
        assert(notes_view(notes@.take(i + 1)) =~= notes_view(notes@.take(i as int)).push(
            notes@[i as int]@,
        ));
        i = i + 1;
    }
    assert(notes@.take(notes@.len() as int) =~= notes@);
    sorted
}

impl Repository {
    /// Whether the underlying database is consistent (see `Database::wf`).
    pub closed spec fn wf(&self) -> bool {
        self.db.wf()
    }

    /// The messages the underlying database has sent on its channel, oldest first.
    pub closed spec fn sent(&self) -> Seq<DatabaseMessage> {
        self.db.sent()
    }

    /// A repository of the notes of `db`.
    pub fn from_database(db: Database) -> (r: Repository)
        ensures
            r@ == db@,
            r.wf() == db.wf(),
            r.sent() == db.sent(),
    {
        Repository { db }
    }

    /// The database the notes are kept in.
    pub fn database(&self) -> (db: &Database)
        ensures
            db@ == self@,
    {
        &self.db
    }

    /// Copies of all the notes, in order.
    pub fn get_all(&self) -> (r: Result<Vec<Note>, Error>)
        ensures
            r matches Ok(v) && notes_view(v@) == self@.notes,
    {
        let all = self.db.get_all();
        let mut v: Vec<Note> = Vec::new();
        let mut i: usize = 0;
        while i < all.len()
            invariant
                i <= all@.len(),
                notes_view(all@) == self@.notes,
                notes_view(v@) == notes_view(all@.take(i as int)),
            decreases all.len() - i,
        {
            v.push(all[i].clone());
            assert(notes_view(all@.take(i + 1)) =~= notes_view(all@.take(i as int)).push(
                all@[i as int]@,
            ));
            i = i + 1;
        }
        assert(all@.take(all@.len() as int) =~= all@);
        Ok(v)
    }

    /// The notes that pass the query's filter, sorted in its order, at most as many as
    /// its count lets through. Notes that compare equal in the order may come in any order
    /// among themselves.
    pub fn get_all_with(&self, args: &MultiValueArgs) -> (r: Result<Vec<Note>, Error>)
        ensures
            r matches Ok(v) && exists|sorted: Seq<NoteView>|
                {
                    &&& sorted.to_multiset() == self@.notes.to_multiset()
                    &&& sorted_in(args.order@, sorted)
                    &&& notes_view(v@) == #[trigger] query_result(
                        sorted,
                        args.filter@,
                        count_limit(args.count) as int,
                    )
                },
    {
        let all = self.db.get_all();
        let sorted = sort_in_order(all, args.order);
        let ghost sv = notes_view(sorted@);
        let ghost pred = |n: NoteView| filters_accept(args.filter@, n);
        let mut out: Vec<Note> = Vec::new();
        let mut k: usize = 0;
        while k < sorted.len()
            invariant
                k <= sorted@.len(),
                sv == notes_view(sorted@),
                pred == (|n: NoteView| filters_accept(args.filter@, n)),
                notes_view(out@) == sv.take(k as int).filter(pred),
            decreases sorted.len() - k,
        {
            proof {
                lemma_filter_take_step(sv, pred, k as int);
            }
            assert(sv[k as int] == sorted@[k as int]@);
            if args.filter.predicate(&sorted[k]) {
                let ghost prev = notes_view(out@);
                out.push(sorted[k].clone());
                assert(notes_view(out@) =~= prev.push(sv[k as int]));
            }
            k = k + 1;
        }
        assert(sv.take(sv.len() as int) =~= sv);
        let ghost filtered = notes_view(out@);
        let limit = args.count.to_usize();
        let ghost before = out@;
        out.truncate(limit);
        proof {
            if (limit as int) < filtered.len() {
                assert(notes_view(out@) =~= filtered.take(limit as int));
            } else {
                assert(out@ == before);
            }
            assert(notes_view(out@) == query_result(sv, args.filter@, count_limit(args.count) as int));
        }
        Ok(out)
    }

    /// Creates a note from the request; see `Database::apply_create`.
    pub fn create(&mut self, dto: CreateNote) -> (r: Result<Note, Error>)
        ensures
            r matches Ok(n) ==> final(self)@.notes == old(self)@.notes.push(n@) && final(self)@.ids
                == old(self)@.ids.insert(n@.id) && !old(self)@.ids.contains(n@.id),
            r is Err ==> final(self)@ == old(self)@,
            r matches Ok(n) ==> {
                &&& is_valid_id(n@.id)
                &&& n@.title == (match opt_string_view(dto.title) {
                    Some(t) => t,
                    None => Seq::empty(),
                })
                &&& n@.content == (match opt_string_view(dto.content) {
                    Some(t) => t,
                    None => Seq::empty(),
                })
                &&& n@.tags == strings_view(dto.tags@)
                &&& n@.reminders == reminders_view(dto.reminders@)
                &&& n@.dirty
                &&& !n@.pending_delete
            },
            r matches Err(e) ==> (e matches Error::Database(DatabaseError::DuplicateId(id))
                && old(self)@.ids.contains(id@) && final(self)@ == old(self)@),
            old(self).wf() && r is Ok ==> final(self).wf(),
            one_more(old(self).sent(), final(self).sent()),
            r matches Ok(n) ==> is_created_message(final(self).sent().last(), dto, n@),
            r matches Err(Error::Database(e)) ==> is_error_message(
                final(self).sent().last(),
                database_error_message(e),
            ),
    {
        self.db.apply_create(dto)
    }

    /// Applies an update request; see `Database::apply_update`.
    pub fn update(&mut self, dto: UpdateNote) -> (r: Result<bool, Error>)
        ensures
            !has_note_id(old(self)@.notes, dto.id@) ==> (r matches Err(
                Error::Database(DatabaseError::IdNotFound(id)),
            ) && id == dto.id && final(self)@ == old(self)@),
            has_note_id(old(self)@.notes, dto.id@) ==> update_applied(
                old(self)@,
                dto,
                final(self)@,
                r,
            ),
            old(self).wf() ==> final(self).wf(),
            r is Err ==> one_more(old(self).sent(), final(self).sent()) && is_error_message(
                final(self).sent().last(),
                database_error_message(DatabaseError::IdNotFound(dto.id)),
            ),
            r == Ok::<bool, Error>(true) ==> one_more(old(self).sent(), final(self).sent())
                && is_updated_message(
                final(self).sent().last(),
                old(self)@.notes[first_note_index(old(self)@.notes, dto.id@)],
                final(self)@.notes[first_note_index(old(self)@.notes, dto.id@)],
            ),
            r == Ok::<bool, Error>(false) ==> final(self).sent() == old(self).sent(),
    {
        self.db.apply_update(dto)
    }

    /// Applies a delete request; see `Database::apply_delete`.
    pub fn delete(&mut self, dto: DeleteNote) -> (r: Result<bool, Error>)
        ensures
            !has_note_id(old(self)@.notes, dto.id@) ==> (r matches Err(
                Error::Database(DatabaseError::IdNotFound(id)),
            ) && id == dto.id && final(self)@ == old(self)@),
            has_note_id(old(self)@.notes, dto.id@) ==> r == Ok::<bool, Error>(true)
                && final(self)@.notes == old(self)@.notes.remove(
                first_note_index(old(self)@.notes, dto.id@),
            ) && final(self)@.ids == old(self)@.ids.remove(dto.id@),
            old(self).wf() ==> final(self).wf(),
            one_more(old(self).sent(), final(self).sent()),
            r is Err ==> is_error_message(
                final(self).sent().last(),
                database_error_message(DatabaseError::IdNotFound(dto.id)),
            ),
            r is Ok ==> is_deleted_message(
                final(self).sent().last(),
                old(self)@.notes[first_note_index(old(self)@.notes, dto.id@)],
            ),
    {
        self.db.apply_delete(dto)
    }
}

/// Keeping the notes that pass a predicate true of every note keeps them all.
proof fn lemma_filter_all_pass(s: Seq<NoteView>, pred: spec_fn(NoteView) -> bool)
    requires
        forall|n: NoteView| #[trigger] pred(n),
    ensures
        s.filter(pred) == s,
    decreases s.len(),
{
    reveal(Seq::filter);
    if s.len() > 0 {
        lemma_filter_all_pass(s.drop_last(), pred);
        assert(s.drop_last().push(s.last()) =~= s);
    }
}

/// A query with no filter and no limit gives back every note, in the order it sorted
/// them.
pub proof fn lemma_unfiltered_query_keeps_every_note(sorted: Seq<NoteView>)
    requires
        sorted.len() <= usize::MAX,
    ensures
        query_result(sorted, Seq::empty(), usize::MAX as int) == sorted,
{
    let pred = |n: NoteView| filters_accept(Seq::<crate::types::api::filter::NoteFilter>::empty(), n);
    lemma_filter_all_pass(sorted, pred);
}

/// A query gives at most as many notes as its limit.
pub proof fn lemma_query_respects_limit(
    sorted: Seq<NoteView>,
    filter: Seq<crate::types::api::filter::NoteFilter>,
    limit: int,
)
    requires
        0 <= limit,
    ensures
        query_result(sorted, filter, limit).len() <= limit,
        query_result(sorted, filter, limit).len() <= sorted.len(),
{
    let pred = |n: NoteView| filters_accept(filter, n);
    sorted.lemma_filter_len(pred);
}

} // verus!
