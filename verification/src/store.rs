//! The repository model: person rows keyed by a store-assigned id, with
//! the list/get/insert/update/delete operations and the explicit
//! transaction scope used around creation.
//!
//! The model keeps rows in ascending id order (the store's natural
//! primary-key order), assigns fresh ids from a counter, and enforces the
//! uniqueness constraint on the `(name, surname, age)` key that creation
//! can violate.

use vstd::prelude::*;

use crate::errors::RepoError;
use crate::model::{PeopleModel, PersonV};

verus! {

/// A sequence of rows seen through their mathematical views.
pub open spec fn views_of(s: Seq<PeopleModel>) -> Seq<PersonV> {
    Seq::new(s.len(), |i: int| s[i]@)
}

/// Mathematical view of the store: the row sequence and the next id to
/// assign.
#[verifier::ext_equal]
pub ghost struct StoreV {
    pub rows: Seq<PersonV>,
    pub next_id: int,
}

impl StoreV {
    /// Well-formedness: ids are at least 1, below the id counter, and
    /// strictly ascending (hence unique), and the counter stays within
    /// the id type.
    pub open spec fn wf(self) -> bool {
        &&& 1 <= self.next_id <= i32::MAX
        &&& forall|i: int|
            0 <= i < self.rows.len() ==> 1 <= (#[trigger] self.rows[i]).id < self.next_id
        &&& forall|i: int, j: int|
            #![trigger self.rows[i], self.rows[j]]
            0 <= i < j < self.rows.len() ==> self.rows[i].id < self.rows[j].id
    }

    /// Whether some row carries `id`.
    pub open spec fn has_id(self, id: int) -> bool {
        exists|i: int| 0 <= i < self.rows.len() && (#[trigger] self.rows[i]).id == id
    }

    /// The index of the row carrying `id` (meaningful under `has_id`).
    pub open spec fn idx_of(self, id: int) -> int {
        choose|i: int| 0 <= i < self.rows.len() && (#[trigger] self.rows[i]).id == id
    }

    /// The row carrying `id` (meaningful under `has_id`).
    pub open spec fn row_with_id(self, id: int) -> PersonV {
        self.rows[self.idx_of(id)]
    }

    /// Whether a row with this `(name, surname, age)` key already exists:
    /// the uniqueness constraint that insertion enforces.
    pub open spec fn dup_key(self, name: Seq<char>, surname: Seq<char>, age: int) -> bool {
        exists|i: int|
            0 <= i < self.rows.len() && {
                let p = #[trigger] self.rows[i];
                p.name == name && p.surname == surname && p.age == age
            }
    }

    /// Whether inserting this key must succeed: no duplicate, and an id is
    /// left to assign.
    pub open spec fn can_insert(self, name: Seq<char>, surname: Seq<char>, age: int) -> bool {
        !self.dup_key(name, surname, age) && self.next_id < i32::MAX
    }

    /// The row a successful insertion appends.
    pub open spec fn inserted_row(
        self,
        name: Seq<char>,
        surname: Seq<char>,
        age: int,
        created_at: int,
    ) -> PersonV {
        PersonV { id: self.next_id, name, surname, age, created_at }
    }

    /// The store after a successful insertion.
    pub open spec fn insert_state(
        self,
        name: Seq<char>,
        surname: Seq<char>,
        age: int,
        created_at: int,
    ) -> StoreV {
        StoreV {
            rows: self.rows.push(self.inserted_row(name, surname, age, created_at)),
            next_id: self.next_id + 1,
        }
    }

    /// The store after an update of `id`: name, surname and age replaced,
    /// id and creation time immutable; unchanged when `id` is absent.
    pub open spec fn update_state(
        self,
        id: int,
        name: Seq<char>,
        surname: Seq<char>,
        age: int,
    ) -> StoreV {
        if self.has_id(id) {
            let i = self.idx_of(id);
            let p = self.rows[i];
            StoreV {
                rows: self.rows.update(
                    i,
                    PersonV { id: p.id, name, surname, age, created_at: p.created_at },
                ),
                next_id: self.next_id,
            }
        } else {
            self
        }
    }

    /// The store after a deletion of `id`; unchanged when `id` is absent.
    /// Deletion is physical.
    pub open spec fn delete_state(self, id: int) -> StoreV {
        if self.has_id(id) {
            StoreV { rows: self.rows.remove(self.idx_of(id)), next_id: self.next_id }
        } else {
            self
        }
    }
}

/// In a well-formed store the row at index `i` is the one its id selects.
pub proof fn lemma_idx_at(s: StoreV, i: int)
    requires
        s.wf(),
        0 <= i < s.rows.len(),
    ensures
        s.has_id(s.rows[i].id),
        s.idx_of(s.rows[i].id) == i,
        s.row_with_id(s.rows[i].id) == s.rows[i],
{
    assert(0 <= i < s.rows.len() && s.rows[i].id == s.rows[i].id);
    assert(s.has_id(s.rows[i].id));
    let j = s.idx_of(s.rows[i].id);
    assert(0 <= j < s.rows.len() && s.rows[j].id == s.rows[i].id);
    if j < i {
        assert(s.rows[j].id < s.rows[i].id);
    } else if i < j {
        assert(s.rows[i].id < s.rows[j].id);
    }
}

/// A successful insertion preserves well-formedness, and the id it assigns
/// is fresh: no existing row carries it.
pub proof fn lemma_insert_wf(
    s: StoreV,
    name: Seq<char>,
    surname: Seq<char>,
    age: int,
    created_at: int,
)
    requires
        s.wf(),
        s.next_id < i32::MAX,
    ensures
        s.insert_state(name, surname, age, created_at).wf(),
        !s.has_id(s.next_id),
{
    let s2 = s.insert_state(name, surname, age, created_at);
    assert forall|i: int| 0 <= i < s.rows.len() implies (#[trigger] s.rows[i]).id != s.next_id by {
        assert(s.rows[i].id < s.next_id);
    }
    assert forall|i: int| 0 <= i < s2.rows.len() implies 1 <= (#[trigger] s2.rows[i]).id
        < s2.next_id by {
        if i < s.rows.len() {
            assert(s2.rows[i] == s.rows[i]);
        }
    }
    assert forall|i: int, j: int|
        #![trigger s2.rows[i], s2.rows[j]]
        0 <= i < j < s2.rows.len() implies s2.rows[i].id < s2.rows[j].id by {
        if j < s.rows.len() {
            assert(s2.rows[i] == s.rows[i] && s2.rows[j] == s.rows[j]);
        } else {
            assert(s2.rows[i] == s.rows[i] && s2.rows[j].id == s.next_id);
            assert(s.rows[i].id < s.next_id);
        }
    }
}

/// An update preserves well-formedness and leaves every id in place.
pub proof fn lemma_update_wf(s: StoreV, id: int, name: Seq<char>, surname: Seq<char>, age: int)
    requires
        s.wf(),
    ensures
        s.update_state(id, name, surname, age).wf(),
        forall|x: int| s.update_state(id, name, surname, age).has_id(x) == s.has_id(x),
{
    let s2 = s.update_state(id, name, surname, age);
    if s.has_id(id) {
        let k = s.idx_of(id);
        assert(0 <= k < s.rows.len() && s.rows[k].id == id);
        assert forall|i: int| 0 <= i < s2.rows.len() implies (#[trigger] s2.rows[i]).id
            == s.rows[i].id by {}
        assert forall|x: int| s2.has_id(x) == s.has_id(x) by {
            if s.has_id(x) {
                let w = choose|i: int|
                    0 <= i < s.rows.len() && (#[trigger] s.rows[i]).id == x;
                assert(s2.rows[w].id == x);
            }
            if s2.has_id(x) {
                let w = choose|i: int|
                    0 <= i < s2.rows.len() && (#[trigger] s2.rows[i]).id == x;
                assert(s.rows[w].id == x);
            }
        }
    }
}

/// A deletion preserves well-formedness, removes the deleted id, and
/// leaves every other id in place.
pub proof fn lemma_delete_wf(s: StoreV, id: int)
    requires
        s.wf(),
    ensures
        s.delete_state(id).wf(),
        !s.delete_state(id).has_id(id),
        forall|x: int| x != id ==> s.delete_state(id).has_id(x) == s.has_id(x),
{
    let s2 = s.delete_state(id);
    if s.has_id(id) {
        let k = s.idx_of(id);
        assert(0 <= k < s.rows.len() && s.rows[k].id == id);
        assert forall|i: int| 0 <= i < s2.rows.len() implies #[trigger] s2.rows[i] == (
            if i < k {
                s.rows[i]
            } else {
                s.rows[i + 1]
            }) by {}
        assert forall|i: int| 0 <= i < s2.rows.len() implies (#[trigger] s2.rows[i]).id != id by {
            if i < k {
                lemma_idx_at(s, i);
            } else {
                lemma_idx_at(s, i + 1);
            }
        }
        assert forall|x: int| x != id implies s2.has_id(x) == s.has_id(x) by {
            if s.has_id(x) {
                let w = choose|i: int|
                    0 <= i < s.rows.len() && (#[trigger] s.rows[i]).id == x;
                if w < k {
                    assert(s2.rows[w].id == x);
                } else {
                    assert(w != k);
                    assert(s2.rows[w - 1].id == x);
                }
            }
            if s2.has_id(x) {
                let w = choose|i: int|
                    0 <= i < s2.rows.len() && (#[trigger] s2.rows[i]).id == x;
                if w < k {
                    assert(s.rows[w].id == x);
                } else {
                    assert(s.rows[w + 1].id == x);
                }
            }
        }
    }
}

/// The repository: rows in ascending id order plus the id counter.
pub struct Store {
    rows: Vec<PeopleModel>,
    next_id: i32,
}

impl View for Store {
    type V = StoreV;

    closed spec fn view(&self) -> StoreV {
        StoreV { rows: views_of(self.rows@), next_id: self.next_id as int }
    }
}

impl Clone for Store {
    fn clone(&self) -> (r: Self)
        ensures
            r@ == self@,
    {
        let mut rows: Vec<PeopleModel> = Vec::new();
        let mut i: usize = 0;
        while i < self.rows.len()
            invariant
                0 <= i <= self.rows.len(),
                rows@.len() == i,
                forall|j: int| 0 <= j < i ==> (#[trigger] rows@[j])@ == self.rows@[j]@,
            decreases self.rows.len() - i,
        {
            rows.push(self.rows[i].clone());
            i += 1;
        }
        let r = Store { rows, next_id: self.next_id };
        proof {
            assert(r@.rows =~= self@.rows);
            assert(r@ =~= self@);
        }
        r
    }
}

impl Store {
    /// An empty store; ids start at 1.
    pub fn new() -> (s: Store)
        ensures
            s@.wf(),
            s@.rows == Seq::<PersonV>::empty(),
            s@.next_id == 1,
    {
        let s = Store { rows: Vec::new(), next_id: 1 };
        proof {
            assert(s@.rows =~= Seq::<PersonV>::empty());
        }
        s
    }

    /// At most `limit` rows in natural order, starting after `offset`
    /// rows.
    pub fn list(&self, offset: u64, limit: u64) -> (r: Vec<PeopleModel>)
        requires
            self@.wf(),
        ensures
            r@.len() <= limit,
            views_of(r@) == self@.rows.subrange(
                if offset as int <= self@.rows.len() {
                    offset as int
                } else {
                    self@.rows.len() as int
                },
                if offset as int + limit as int <= self@.rows.len() {
                    offset as int + limit as int
                } else {
                    self@.rows.len() as int
                },
            ),
    {
        let len: usize = self.rows.len();
        let start: usize = if offset >= len as u64 {
            len
        } else {
            offset as usize
        };
        let mut out: Vec<PeopleModel> = Vec::new();
        let mut i: usize = start;
        while i < len && ((i - start) as u64) < limit
            invariant
                start <= i <= len,
                len == self.rows.len(),
                i - start <= limit,
                out@.len() == i - start,
                forall|j: int| 0 <= j < out@.len() ==> (#[trigger] out@[j])@ == self.rows@[start
                    + j]@,
            decreases len - i,
        {
            out.push(self.rows[i].clone());
            i += 1;
        }
        proof {
            assert(views_of(out@) =~= self@.rows.subrange(start as int, i as int));
            assert(views_of(out@) =~= self@.rows.subrange(
                if offset as int <= self@.rows.len() {
                    offset as int
                } else {
                    self@.rows.len() as int
                },
                if offset as int + limit as int <= self@.rows.len() {
                    offset as int + limit as int
                } else {
                    self@.rows.len() as int
                },
            ));
        }
        out
    }

    /// The row carrying `id`, when one exists.
    pub fn get_by_id(&self, id: i32) -> (r: Option<PeopleModel>)
        requires
            self@.wf(),
        ensures
            r is Some <==> self@.has_id(id as int),
            (r matches Some(p) ==> p@ == self@.row_with_id(id as int)),
    {
        let mut i: usize = 0;
        while i < self.rows.len()
            invariant
                0 <= i <= self.rows.len(),
                self@.wf(),
                forall|j: int| 0 <= j < i ==> (#[trigger] self@.rows[j]).id != id as int,
            decreases self.rows.len() - i,
        {
            if self.rows[i].id == id {
                proof {
                    lemma_idx_at(self@, i as int);
                }
                return Some(self.rows[i].clone());
            }
            i += 1;
        }
        proof {
            assert(!self@.has_id(id as int));
        }
        None
    }

    /// Append a row with a fresh id, unless the `(name, surname, age)`
    /// key is already present (the uniqueness constraint) or the id space
    /// is exhausted. On any failure the store is unchanged.
    pub fn insert(&mut self, name: String, surname: String, age: i32, created_at: i64) -> (r:
        Result<i32, RepoError>)
        requires
            old(self)@.wf(),
        ensures
            final(self)@.wf(),
            r is Err ==> final(self)@ == old(self)@,
            old(self)@.dup_key(name@, surname@, age as int) ==> (r matches Err(
                RepoError::DuplicateEntry,
            )),
            !old(self)@.dup_key(name@, surname@, age as int) && old(self)@.next_id == i32::MAX
                ==> (r matches Err(RepoError::Internal { .. })),
            old(self)@.can_insert(name@, surname@, age as int) ==> ({
                &&& r matches Ok(id) && id as int == old(self)@.next_id
                &&& final(self)@ == old(self)@.insert_state(
                    name@,
                    surname@,
                    age as int,
                    created_at as int,
                )
                &&& !old(self)@.has_id(old(self)@.next_id)
            }),
    {
        let mut i: usize = 0;
        while i < self.rows.len()
            invariant
                0 <= i <= self.rows.len(),
                self@ == old(self)@,
                self@.wf(),
                forall|j: int|
                    0 <= j < i ==> !{
                        let p = #[trigger] self@.rows[j];
                        p.name == name@ && p.surname == surname@ && p.age == age as int
                    },
            decreases self.rows.len() - i,
        {
            if self.rows[i].name == name && self.rows[i].surname == surname && self.rows[i].age
                == age {
                proof {
                    assert({
                        let p = self@.rows[i as int];
                        p.name == name@ && p.surname == surname@ && p.age == age as int
                    });
                    assert(self@.dup_key(name@, surname@, age as int));
                }
                return Err(RepoError::DuplicateEntry);
            }
            i += 1;
        }
        proof {
            assert(!self@.dup_key(name@, surname@, age as int));
        }
        if self.next_id == i32::MAX {
            return Err(
                RepoError::Internal {
                    detail: String::from_str("identifier space exhausted"),
                },
            );
        }
        let id = self.next_id;
        proof {
            lemma_insert_wf(self@, name@, surname@, age as int, created_at as int);
        }
        let ghost pre = self@;
        let row = PeopleModel { id, name, surname, age, created_at };
        self.rows.push(row);
        self.next_id = id + 1;
        proof {
            assert(self@.rows =~= pre.insert_state(
                name@,
                surname@,
                age as int,
                created_at as int,
            ).rows);
            assert(self@ =~= pre.insert_state(name@, surname@, age as int, created_at as int));
        }
        Ok(id)
    }

    /// Replace name, surname and age of the row carrying `id`, and report
    /// how many rows were affected: 0 when no row matches (the caller must
    /// check), 1 otherwise. Id and creation time are immutable.
    pub fn update(&mut self, id: i32, name: String, surname: String, age: i32) -> (r: u64)
        requires
            old(self)@.wf(),
        ensures
            final(self)@.wf(),
            final(self)@ == old(self)@.update_state(id as int, name@, surname@, age as int),
            r == (if old(self)@.has_id(id as int) {
                1u64
            } else {
                0u64
            }),
    {
        let ghost pre = self@;
        proof {
            lemma_update_wf(self@, id as int, name@, surname@, age as int);
        }
        let mut i: usize = 0;
        while i < self.rows.len()
            invariant
                0 <= i <= self.rows.len(),
                self@ == pre,
                pre == old(self)@,
                self@.wf(),
                forall|j: int| 0 <= j < i ==> (#[trigger] self@.rows[j]).id != id as int,
            decreases self.rows.len() - i,
        {
            if self.rows[i].id == id {
                proof {
                    lemma_idx_at(self@, i as int);
                }
                let row = PeopleModel {
                    id: self.rows[i].id,
                    name,
                    surname,
                    age,
                    created_at: self.rows[i].created_at,
                };
                self.rows[i] = row;
                proof {
                    assert(self@.rows =~= pre.update_state(
                        id as int,
                        name@,
                        surname@,
                        age as int,
                    ).rows);
                    assert(self@ =~= pre.update_state(id as int, name@, surname@, age as int));
                }
                return 1;
            }
            i += 1;
        }
        proof {
            assert(!self@.has_id(id as int));
            assert(self@ =~= pre.update_state(id as int, name@, surname@, age as int));
        }
        0
    }

    /// Physically remove the row carrying `id`, and report how many rows
    /// were affected: 0 when no row matches, 1 otherwise.
    pub fn delete(&mut self, id: i32) -> (r: u64)
        requires
            old(self)@.wf(),
        ensures
            final(self)@.wf(),
            final(self)@ == old(self)@.delete_state(id as int),
            r == (if old(self)@.has_id(id as int) {
                1u64
            } else {
                0u64
            }),
    {
        let ghost pre = self@;
        proof {
            lemma_delete_wf(self@, id as int);
        }
        let mut i: usize = 0;
        while i < self.rows.len()
            invariant
                0 <= i <= self.rows.len(),
                self@ == pre,
                pre == old(self)@,
                self@.wf(),
                forall|j: int| 0 <= j < i ==> (#[trigger] self@.rows[j]).id != id as int,
            decreases self.rows.len() - i,
        {
            if self.rows[i].id == id {
                proof {
                    lemma_idx_at(self@, i as int);
                }
                self.rows.remove(i);
                proof {
                    assert(self@.rows =~= pre.delete_state(id as int).rows);
                    assert(self@ =~= pre.delete_state(id as int));
                }
                return 1;
            }
            i += 1;
        }
        proof {
            assert(!self@.has_id(id as int));
            assert(self@ =~= pre.delete_state(id as int));
        }
        0
    }
}

/// An explicit transaction: a pending copy of the store. Work happens on
/// the copy; `commit` publishes it, `rollback` discards it, so a failed
/// insert can never be partially committed.
pub struct Transaction {
    pending: Store,
}

impl View for Transaction {
    type V = StoreV;

    closed spec fn view(&self) -> StoreV {
        self.pending@
    }
}

impl Transaction {
    /// Begin a transaction on the current store state.
    pub fn begin(store: &Store) -> (t: Transaction)
        requires
            store@.wf(),
        ensures
            t@ == store@,
            t@.wf(),
    {
        Transaction { pending: store.clone() }
    }

    /// The insert operation, against the pending state; the contract is
    /// that of `Store::insert`.
    pub fn insert(&mut self, name: String, surname: String, age: i32, created_at: i64) -> (r:
        Result<i32, RepoError>)
        requires
            old(self)@.wf(),
        ensures
            final(self)@.wf(),
            r is Err ==> final(self)@ == old(self)@,
            old(self)@.dup_key(name@, surname@, age as int) ==> (r matches Err(
                RepoError::DuplicateEntry,
            )),
            !old(self)@.dup_key(name@, surname@, age as int) && old(self)@.next_id == i32::MAX
                ==> (r matches Err(RepoError::Internal { .. })),
            old(self)@.can_insert(name@, surname@, age as int) ==> ({
                &&& r matches Ok(id) && id as int == old(self)@.next_id
                &&& final(self)@ == old(self)@.insert_state(
                    name@,
                    surname@,
                    age as int,
                    created_at as int,
                )
                &&& !old(self)@.has_id(old(self)@.next_id)
            }),
    {
        self.pending.insert(name, surname, age, created_at)
    }

    /// Publish the pending state.
    pub fn commit(self, store: &mut Store)
        ensures
            final(store)@ == self@,
    {
        *store = self.pending;
    }

    /// Discard the pending state; the store the transaction was begun on
    /// is untouched.
    pub fn rollback(self) {
    }
}

} // verus!
