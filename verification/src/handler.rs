//! The request handlers: per-operation envelope construction and the five
//! CRUD operations run against the repository, plus the health report.
//!
//! Each `*_reply` function turns a repository outcome into the response
//! the operation owes, so the edge that talks to a real store reuses the
//! exact same verified construction; the `*_handler` functions compose
//! them with the repository model end to end.

use vstd::prelude::*;
use vstd::string::StringExecFns;

use crate::errors::RepoError;
use crate::model::{project, projected, view_seq, PeopleModel, PeopleModelView, person_to_view};
use crate::pagination::{spec_limit, spec_offset, spec_page, resolve, FilterOptions};
use crate::reply::{Reply, ReplyBody};
use crate::store::{views_of, Store, Transaction};
use crate::text::{not_found_message, not_found_message_spec};
use crate::clock::now_micros;

verus! {

/// The success envelope of the list operation: always `success`, with the
/// row count and the projected rows — never a failure, even when empty.
pub fn list_reply(rows: Vec<PeopleModel>) -> (r: Reply)
    ensures
        r.code == 200,
        (r.body matches ReplyBody::PeopleList { results, peoples } && results == rows@.len()
            && view_seq(peoples@) == projected(views_of(rows@))),
{
    let mut peoples: Vec<PeopleModelView> = Vec::new();
    let mut i: usize = 0;
    while i < rows.len()
        invariant
            0 <= i <= rows.len(),
            peoples@.len() == i,
            forall|j: int| 0 <= j < i ==> (#[trigger] peoples@[j])@ == project(rows@[j]@),
        decreases rows.len() - i,
    {
        peoples.push(person_to_view(&rows[i]));
        i += 1;
    }
    proof {
        assert(view_seq(peoples@) =~= projected(views_of(rows@)));
    }
    Reply { code: 200, body: ReplyBody::PeopleList { results: rows.len(), peoples } }
}

/// The response of the get operation: the projected row on success, a
/// `fail` envelope with the exact message when the id is absent, an
/// `error` envelope with the diagnostic text otherwise.
pub fn get_reply(id: i32, outcome: Result<PeopleModel, RepoError>) -> (r: Reply)
    ensures
        (outcome matches Ok(p) ==> r.code == 200 && (r.body matches ReplyBody::PersonData {
            people,
        } && people@ == project(p@))),
        (outcome matches Err(RepoError::NotFound) ==> r.code == 404 && (r.body
            matches ReplyBody::Fail { message } && message@ == not_found_message_spec(
            id as int,
        ))),
        (outcome matches Err(RepoError::Internal { detail }) ==> r.code == 500 && (r.body
            matches ReplyBody::Error { message } && message@ == detail@)),
        (outcome matches Err(RepoError::DuplicateEntry) ==> r.code == 500 && r.body
            is Error),
{
    match outcome {
        Ok(p) => Reply { code: 200, body: ReplyBody::PersonData { people: person_to_view(&p) } },
        Err(RepoError::NotFound) => Reply {
            code: 404,
            body: ReplyBody::Fail { message: not_found_message(id) },
        },
        Err(RepoError::Internal { detail }) => Reply {
            code: 500,
            body: ReplyBody::Error { message: detail },
        },
        Err(RepoError::DuplicateEntry) => Reply {
            code: 500,
            body: ReplyBody::Error { message: String::from_str("unexpected repository failure") },
        },
    }
}

/// The response of the create operation: the raw new id on success, a
/// `fail` envelope on a duplicate, an `error` envelope otherwise.
pub fn create_reply(outcome: Result<i32, RepoError>) -> (r: Reply)
    ensures
        (outcome matches Ok(id) ==> r.code == 200 && (r.body matches ReplyBody::RawId {
            id: out,
        } && out == id)),
        (outcome matches Err(RepoError::DuplicateEntry) ==> r.code == 400 && (r.body
            matches ReplyBody::Fail { message } && message@ == ("Person already exists")@)),
        (outcome matches Err(RepoError::Internal { detail }) ==> r.code == 500 && (r.body
            matches ReplyBody::Error { message } && message@ == detail@)),
        (outcome matches Err(RepoError::NotFound) ==> r.code == 500 && r.body is Error),
{
    match outcome {
        Ok(id) => Reply { code: 200, body: ReplyBody::RawId { id } },
        Err(RepoError::DuplicateEntry) => Reply {
            code: 400,
            body: ReplyBody::Fail { message: String::from_str("Person already exists") },
        },
        Err(RepoError::Internal { detail }) => Reply {
            code: 500,
            body: ReplyBody::Error { message: detail },
        },
        Err(RepoError::NotFound) => Reply {
            code: 500,
            body: ReplyBody::Error { message: String::from_str("unexpected repository failure") },
        },
    }
}

/// The response the update operation's existence check settles: `None`
/// when the row is there and the update may proceed, the immediate
/// not-found or error response otherwise.
pub fn update_check_reply(id: i32, check: Result<PeopleModel, RepoError>) -> (r: Option<Reply>)
    ensures
        (check matches Ok(_) ==> r is None),
        (check matches Err(RepoError::NotFound) ==> (r matches Some(rep) && rep.code == 404 && (
        rep.body matches ReplyBody::Fail { message } && message@ == not_found_message_spec(
            id as int,
        )))),
        (check matches Err(RepoError::Internal { detail }) ==> (r matches Some(rep) && rep.code
            == 500 && (rep.body matches ReplyBody::Error { message } && message@ == detail@))),
        (check matches Err(RepoError::DuplicateEntry) ==> (r matches Some(rep) && rep.code == 500
            && rep.body is Error)),
{
    match check {
        Ok(_) => None,
        Err(e) => Some(get_reply(id, Err(e))),
    }
}

/// The response of the update's write step, from the affected-row count
/// or the failure: zero affected rows mean the row vanished and the
/// operation reports not-found rather than corrupting state.
pub fn update_result_reply(id: i32, outcome: Result<u64, RepoError>) -> (r: Reply)
    ensures
        (outcome matches Ok(n) && n == 0 ==> r.code == 404 && (r.body matches ReplyBody::Fail {
            message,
        } && message@ == not_found_message_spec(id as int))),
        (outcome matches Ok(n) && n > 0 ==> r.code == 200 && r.body is SuccessOnly),
        (outcome matches Err(RepoError::Internal { detail }) ==> r.code == 500 && (r.body
            matches ReplyBody::Error { message } && message@ == detail@)),
        (outcome matches Err(e) && !(e is Internal) ==> r.code == 500 && r.body is Error),
{
    match outcome {
        Ok(n) => {
            if n == 0 {
                Reply { code: 404, body: ReplyBody::Fail { message: not_found_message(id) } }
            } else {
                Reply { code: 200, body: ReplyBody::SuccessOnly }
            }
        },
        Err(RepoError::Internal { detail }) => Reply {
            code: 500,
            body: ReplyBody::Error { message: detail },
        },
        Err(_) => Reply {
            code: 500,
            body: ReplyBody::Error { message: String::from_str("unexpected repository failure") },
        },
    }
}

/// The response of the delete operation, from the affected-row count or
/// the failure: an empty body on success, not-found when nothing matched.
pub fn delete_result_reply(id: i32, outcome: Result<u64, RepoError>) -> (r: Reply)
    ensures
        (outcome matches Ok(n) && n == 0 ==> r.code == 404 && (r.body matches ReplyBody::Fail {
            message,
        } && message@ == not_found_message_spec(id as int))),
        (outcome matches Ok(n) && n > 0 ==> r.code == 204 && r.body is Empty),
        (outcome matches Err(RepoError::Internal { detail }) ==> r.code == 500 && (r.body
            matches ReplyBody::Error { message } && message@ == detail@)),
        (outcome matches Err(e) && !(e is Internal) ==> r.code == 500 && r.body is Error),
{
    match outcome {
        Ok(n) => {
            if n == 0 {
                Reply { code: 404, body: ReplyBody::Fail { message: not_found_message(id) } }
            } else {
                Reply { code: 204, body: ReplyBody::Empty }
            }
        },
        Err(RepoError::Internal { detail }) => Reply {
            code: 500,
            body: ReplyBody::Error { message: detail },
        },
        Err(_) => Reply {
            code: 500,
            body: ReplyBody::Error { message: String::from_str("unexpected repository failure") },
        },
    }
}

/// The list operation: resolve the pagination options, fetch at most
/// `limit` rows after `offset = (page - 1) * limit`, and wrap them in the
/// success envelope. It never fails, even for an empty result.
pub fn people_list_handler(store: &Store, opts: &FilterOptions) -> (r: Reply)
    requires
        store@.wf(),
        spec_page(*opts) >= 1,
    ensures
        r.code == 200,
        ({
            let lo = if spec_offset(*opts) <= store@.rows.len() {
                spec_offset(*opts)
            } else {
                store@.rows.len() as int
            };
            let hi = if spec_offset(*opts) + spec_limit(*opts) <= store@.rows.len() {
                spec_offset(*opts) + spec_limit(*opts)
            } else {
                store@.rows.len() as int
            };
            r.body matches ReplyBody::PeopleList { results, peoples } && results == hi - lo
                && results <= spec_limit(*opts) && view_seq(peoples@) == projected(
                store@.rows.subrange(lo, hi),
            )
        }),
{
    let (offset, limit) = resolve(opts);
    let rows = store.list(offset, limit);
    list_reply(rows)
}

/// The get operation: fetch by id and build the response.
pub fn get_people_handler(store: &Store, id: i32) -> (r: Reply)
    requires
        store@.wf(),
    ensures
        store@.has_id(id as int) ==> r.code == 200 && (r.body matches ReplyBody::PersonData {
            people,
        } && people@ == project(store@.row_with_id(id as int))),
        !store@.has_id(id as int) ==> r.code == 404 && (r.body matches ReplyBody::Fail {
            message,
        } && message@ == not_found_message_spec(id as int)),
{
    match store.get_by_id(id) {
        Some(p) => get_reply(id, Ok(p)),
        None => get_reply(id, Err(RepoError::NotFound)),
    }
}

/// The create operation at a given creation time: run the insert inside an
/// explicit transaction, commit only on success, and roll back before any
/// failure is surfaced — a failed insert is never partially committed, so
/// on failure the store is exactly what it was.
pub fn create_people_at(store: &mut Store, body: &PeopleModelView, created_at: i64) -> (r: Reply)
    requires
        old(store)@.wf(),
    ensures
        final(store)@.wf(),
        !(r.body is RawId) ==> final(store)@ == old(store)@,
        old(store)@.dup_key(body@.name, body@.surname, body@.age) ==> r.code == 400 && (r.body
            matches ReplyBody::Fail { message } && message@ == ("Person already exists")@),
        !old(store)@.dup_key(body@.name, body@.surname, body@.age) && old(store)@.next_id
            == i32::MAX ==> r.code == 500 && r.body is Error,
        old(store)@.can_insert(body@.name, body@.surname, body@.age) ==> ({
            &&& r.code == 200
            &&& (r.body matches ReplyBody::RawId { id } && id as int == old(store)@.next_id)
            &&& final(store)@ == old(store)@.insert_state(
                body@.name,
                body@.surname,
                body@.age,
                created_at as int,
            )
            &&& !old(store)@.has_id(old(store)@.next_id)
        }),
{
    let mut tx = Transaction::begin(store);
    let outcome = tx.insert(body.name.clone(), body.surname.clone(), body.age, created_at);
    match outcome {
        Ok(id) => {
            tx.commit(store);
            create_reply(Ok(id))
        },
        Err(e) => {
            tx.rollback();
            create_reply(Err(e))
        },
    }
}

/// The create operation: stamp the current server time as the creation
/// time, then create inside the transaction scope. The assigned id and
/// the failure cases are those of `create_people_at`; only the creation
/// time depends on the clock.
pub fn create_people_handler(store: &mut Store, body: &PeopleModelView) -> (r: Reply)
    requires
        old(store)@.wf(),
    ensures
        final(store)@.wf(),
        !(r.body is RawId) ==> final(store)@ == old(store)@,
        old(store)@.dup_key(body@.name, body@.surname, body@.age) ==> r.code == 400 && (r.body
            matches ReplyBody::Fail { message } && message@ == ("Person already exists")@),
        !old(store)@.dup_key(body@.name, body@.surname, body@.age) && old(store)@.next_id
            == i32::MAX ==> r.code == 500 && r.body is Error,
        old(store)@.can_insert(body@.name, body@.surname, body@.age) ==> ({
            &&& r.code == 200
            &&& (r.body matches ReplyBody::RawId { id } && id as int == old(store)@.next_id)
            &&& exists|t: int|
                final(store)@ == #[trigger] old(store)@.insert_state(
                    body@.name,
                    body@.surname,
                    body@.age,
                    t,
                )
            &&& !old(store)@.has_id(old(store)@.next_id)
        }),
{
    let created_at = now_micros();
    create_people_at(store, body, created_at)
}

/// The update operation: check that the row exists, return not-found at
/// once when it does not, otherwise write the new name, surname and age
/// and report success — unless the write affected no row after all, which
/// again reports not-found. Id and creation time are immutable.
pub fn edit_people_handler(store: &mut Store, id: i32, body: &PeopleModelView) -> (r: Reply)
    requires
        old(store)@.wf(),
    ensures
        final(store)@.wf(),
        final(store)@ == old(store)@.update_state(id as int, body@.name, body@.surname, body@.age),
        !old(store)@.has_id(id as int) ==> r.code == 404 && (r.body matches ReplyBody::Fail {
            message,
        } && message@ == not_found_message_spec(id as int)),
        old(store)@.has_id(id as int) ==> r.code == 200 && r.body is SuccessOnly,
{
    let check: Result<PeopleModel, RepoError> = match store.get_by_id(id) {
        Some(p) => Ok(p),
        None => Err(RepoError::NotFound),
    };
    match update_check_reply(id, check) {
        Some(rep) => rep,
        None => {
            let affected = store.update(
                id,
                body.name.clone(),
                body.surname.clone(),
                body.age,
            );
            update_result_reply(id, Ok(affected))
        },
    }
}

/// The delete operation: physically remove the row and report an empty
/// success, or not-found when no row matched. Deleting the same id again
/// therefore reports not-found.
pub fn delete_people_handler(store: &mut Store, id: i32) -> (r: Reply)
    requires
        old(store)@.wf(),
    ensures
        final(store)@.wf(),
        final(store)@ == old(store)@.delete_state(id as int),
        old(store)@.has_id(id as int) ==> r.code == 204 && r.body is Empty,
        !old(store)@.has_id(id as int) ==> r.code == 404 && (r.body matches ReplyBody::Fail {
            message,
        } && message@ == not_found_message_spec(id as int)),
{
    let affected = store.delete(id);
    delete_result_reply(id, Ok(affected))
}

/// The health report: `{database_connected: true}` with 200 exactly when
/// the trivial liveness query succeeded, `{database_connected: false}`
/// with 503 otherwise.
pub fn get_health_status(database_connected: bool) -> (r: Reply)
    ensures
        r.code == (if database_connected {
            200u16
        } else {
            503u16
        }),
        (r.body matches ReplyBody::Health { database_connected: c } && c == database_connected),
{
    Reply {
        code: if database_connected {
            200
        } else {
            503
        },
        body: ReplyBody::Health { database_connected },
    }
}

} // verus!
