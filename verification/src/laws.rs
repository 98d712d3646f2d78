//! Laws relating the operations: round-trip of create and get,
//! idempotence of delete, uniqueness of duplicate creation, and
//! distinctness of the ids successive creations assign.

use vstd::prelude::*;

use crate::model::{project, PersonV, PersonViewV};
use crate::store::{lemma_delete_wf, lemma_idx_at, lemma_insert_wf, StoreV};

verus! {

/// Whether none of `bodies` collides with a row already present.
pub open spec fn all_creatable(s: StoreV, bodies: Seq<PersonViewV>) -> bool {
    forall|i: int|
        0 <= i < bodies.len() ==> !s.dup_key(
            (#[trigger] bodies[i]).name,
            bodies[i].surname,
            bodies[i].age,
        )
}

/// Whether the persons in `bodies` are pairwise distinct in their
/// `(name, surname, age)` key.
pub open spec fn pairwise_distinct(bodies: Seq<PersonViewV>) -> bool {
    forall|i: int, j: int|
        #![trigger bodies[i], bodies[j]]
        0 <= i < j < bodies.len() ==> !(bodies[i].name == bodies[j].name && bodies[i].surname
            == bodies[j].surname && bodies[i].age == bodies[j].age)
}

/// The store after creating each person of `bodies` in order, all stamped
/// with time `t`.
pub open spec fn create_all(s: StoreV, bodies: Seq<PersonViewV>, t: int) -> StoreV
    decreases bodies.len(),
{
    if bodies.len() == 0 {
        s
    } else {
        create_all(
            s.insert_state(bodies[0].name, bodies[0].surname, bodies[0].age, t),
            bodies.subrange(1, bodies.len() as int),
            t,
        )
    }
}

/// Round trip: creating a person and then fetching by the returned id
/// yields exactly the fields that were sent, under an id the store
/// assigned and that no earlier row carried.
pub proof fn lemma_create_then_get(
    s: StoreV,
    name: Seq<char>,
    surname: Seq<char>,
    age: int,
    created_at: int,
)
    requires
        s.wf(),
        s.can_insert(name, surname, age),
    ensures
        ({
            let s2 = s.insert_state(name, surname, age, created_at);
            let id = s.next_id;
            &&& !s.has_id(id)
            &&& s2.wf()
            &&& s2.has_id(id)
            &&& s2.row_with_id(id) == (PersonV { id, name, surname, age, created_at })
            &&& project(s2.row_with_id(id)) == (PersonViewV { id, name, surname, age })
        }),
{
    lemma_insert_wf(s, name, surname, age, created_at);
    let s2 = s.insert_state(name, surname, age, created_at);
    lemma_idx_at(s2, s.rows.len() as int);
    assert(s2.rows[s.rows.len() as int] == s.inserted_row(name, surname, age, created_at));
}

/// Idempotence of delete: once a present id is deleted, it is gone, so
/// deleting it again affects zero rows and reports not-found.
pub proof fn lemma_delete_idempotent(s: StoreV, id: int)
    requires
        s.wf(),
        s.has_id(id),
    ensures
        s.delete_state(id).wf(),
        !s.delete_state(id).has_id(id),
        s.delete_state(id).delete_state(id) == s.delete_state(id),
{
    lemma_delete_wf(s, id);
}

/// Duplicate create: after a successful creation its `(name, surname,
/// age)` key is present, so an identical second creation violates the
/// uniqueness constraint and must report a duplicate — the pair yields
/// exactly one success.
pub proof fn lemma_duplicate_create(
    s: StoreV,
    name: Seq<char>,
    surname: Seq<char>,
    age: int,
    created_at: int,
)
    requires
        s.wf(),
        s.can_insert(name, surname, age),
    ensures
        s.insert_state(name, surname, age, created_at).wf(),
        s.insert_state(name, surname, age, created_at).dup_key(name, surname, age),
{
    lemma_insert_wf(s, name, surname, age, created_at);
    let s2 = s.insert_state(name, surname, age, created_at);
    let k = s.rows.len() as int;
    assert(s2.rows[k] == s.inserted_row(name, surname, age, created_at));
    assert({
        let p = s2.rows[k];
        p.name == name && p.surname == surname && p.age == age
    });
}

/// Distinct creates: creating one person leaves any other distinct
/// person creatable, and the next creation is assigned a strictly larger
/// id. Along any sequence of pairwise distinct creations, every one
/// therefore succeeds and the assigned ids are pairwise distinct —
/// whatever order concurrent requests are serialized in.
pub proof fn lemma_distinct_creates(
    s: StoreV,
    name1: Seq<char>,
    surname1: Seq<char>,
    age1: int,
    created_at1: int,
    name2: Seq<char>,
    surname2: Seq<char>,
    age2: int,
)
    requires
        s.wf(),
        s.can_insert(name1, surname1, age1),
        !s.dup_key(name2, surname2, age2),
        !(name1 == name2 && surname1 == surname2 && age1 == age2),
        s.next_id + 1 < i32::MAX,
    ensures
        ({
            let s2 = s.insert_state(name1, surname1, age1, created_at1);
            &&& s2.wf()
            &&& s2.can_insert(name2, surname2, age2)
            &&& s2.next_id == s.next_id + 1
        }),
{
    lemma_insert_wf(s, name1, surname1, age1, created_at1);
    let s2 = s.insert_state(name1, surname1, age1, created_at1);
    assert forall|i: int|
        0 <= i < s2.rows.len() implies !({
        let p = #[trigger] s2.rows[i];
        p.name == name2 && p.surname == surname2 && p.age == age2
    }) by {
        if i < s.rows.len() {
            assert(s2.rows[i] == s.rows[i]);
            assert(!({
                let p = s.rows[i];
                p.name == name2 && p.surname == surname2 && p.age == age2
            }));
        } else {
            assert(s2.rows[i] == s.inserted_row(name1, surname1, age1, created_at1));
        }
    }
    if s2.dup_key(name2, surname2, age2) {
        let w = choose|i: int|
            0 <= i < s2.rows.len() && {
                let p = #[trigger] s2.rows[i];
                p.name == name2 && p.surname == surname2 && p.age == age2
            };
        assert(false);
    }
}

/// Creates of any number of pairwise distinct persons, serialized in
/// whatever order into `bodies`, all succeed: every one appends its row,
/// the earlier rows stay untouched, and the assigned ids — `next_id`
/// onwards, one per person — are pairwise distinct.
pub proof fn lemma_n_distinct_creates(s: StoreV, bodies: Seq<PersonViewV>, t: int)
    requires
        s.wf(),
        all_creatable(s, bodies),
        pairwise_distinct(bodies),
        s.next_id + bodies.len() <= i32::MAX,
    ensures
        ({
            let s2 = create_all(s, bodies, t);
            &&& s2.wf()
            &&& s2.next_id == s.next_id + bodies.len()
            &&& s2.rows.len() == s.rows.len() + bodies.len()
            &&& forall|k: int| 0 <= k < s.rows.len() ==> #[trigger] s2.rows[k] == s.rows[k]
            &&& forall|k: int|
                0 <= k < bodies.len() ==> #[trigger] s2.rows[s.rows.len() + k] == (PersonV {
                    id: s.next_id + k,
                    name: bodies[k].name,
                    surname: bodies[k].surname,
                    age: bodies[k].age,
                    created_at: t,
                })
        }),
    decreases bodies.len(),
{
    if bodies.len() > 0 {
        let b0 = bodies[0];
        assert(!s.dup_key(b0.name, b0.surname, b0.age));
        lemma_insert_wf(s, b0.name, b0.surname, b0.age, t);
        let s1 = s.insert_state(b0.name, b0.surname, b0.age, t);
        let rest = bodies.subrange(1, bodies.len() as int);
        assert forall|i: int|
            0 <= i < rest.len() implies !s1.dup_key(
            (#[trigger] rest[i]).name,
            rest[i].surname,
            rest[i].age,
        ) by {
            assert(rest[i] == bodies[i + 1]);
            assert(!s.dup_key(bodies[i + 1].name, bodies[i + 1].surname, bodies[i + 1].age));
            if s1.dup_key(rest[i].name, rest[i].surname, rest[i].age) {
                let w = choose|j: int|
                    0 <= j < s1.rows.len() && {
                        let p = #[trigger] s1.rows[j];
                        p.name == rest[i].name && p.surname == rest[i].surname && p.age
                            == rest[i].age
                    };
                if w < s.rows.len() {
                    assert(s1.rows[w] == s.rows[w]);
                    assert(false);
                } else {
                    assert(s1.rows[w] == s.inserted_row(b0.name, b0.surname, b0.age, t));
                    assert(false);
                }
            }
        }
        assert forall|i: int, j: int|
            #![trigger rest[i], rest[j]]
            0 <= i < j < rest.len() implies !(rest[i].name == rest[j].name && rest[i].surname
            == rest[j].surname && rest[i].age == rest[j].age) by {
            assert(rest[i] == bodies[i + 1]);
            assert(rest[j] == bodies[j + 1]);
        }
        lemma_n_distinct_creates(s1, rest, t);
        let s2 = create_all(s, bodies, t);
        assert(s2 == create_all(s1, rest, t));
        assert forall|k: int| 0 <= k < s.rows.len() implies #[trigger] s2.rows[k] == s.rows[k] by {
            assert(s2.rows[k] == s1.rows[k]);
        }
        assert forall|k: int|
            0 <= k < bodies.len() implies #[trigger] s2.rows[s.rows.len() + k] == (PersonV {
            id: s.next_id + k,
            name: bodies[k].name,
            surname: bodies[k].surname,
            age: bodies[k].age,
            created_at: t,
        }) by {
            if k == 0 {
                assert(s2.rows[s.rows.len() as int] == s1.rows[s.rows.len() as int]);
                assert(s1.rows[s.rows.len() as int] == s.inserted_row(
                    b0.name,
                    b0.surname,
                    b0.age,
                    t,
                ));
            } else {
                assert(s2.rows[s1.rows.len() + (k - 1)] == (PersonV {
                    id: s1.next_id + (k - 1),
                    name: rest[k - 1].name,
                    surname: rest[k - 1].surname,
                    age: rest[k - 1].age,
                    created_at: t,
                }));
                assert(rest[k - 1] == bodies[k]);
            }
        }
    }
}

} // verus!
