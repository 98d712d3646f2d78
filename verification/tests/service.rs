use people_service::handler::{
    create_people_at, create_people_handler, delete_people_handler, edit_people_handler,
    get_health_status, get_people_handler, people_list_handler,
};
use people_service::model::PeopleModelView;
use people_service::pagination::FilterOptions;
use people_service::reply::ReplyBody;
use people_service::store::Store;

fn view(name: &str, surname: &str, age: i32) -> PeopleModelView {
    PeopleModelView { id: 0, name: name.to_string(), surname: surname.to_string(), age }
}

fn created_id(r: &people_service::reply::Reply) -> i32 {
    assert_eq!(r.code, 200);
    match &r.body {
        ReplyBody::RawId { id } => *id,
        _ => panic!("create did not return a raw id body"),
    }
}

#[test]
fn round_trip_create_then_get() {
    let mut store = Store::new();
    let r = create_people_at(&mut store, &view("Ann", "Lee", 30), 1_000_000);
    let id = created_id(&r);
    let g = get_people_handler(&store, id);
    assert_eq!(g.code, 200);
    match g.body {
        ReplyBody::PersonData { people } => {
            assert_eq!(people.id, id);
            assert_eq!(people.name, "Ann");
            assert_eq!(people.surname, "Lee");
            assert_eq!(people.age, 30);
        }
        _ => panic!("get did not return a person body"),
    }
}

#[test]
fn create_assigns_fresh_distinct_ids() {
    let mut store = Store::new();
    let mut ids = Vec::new();
    for i in 0..5 {
        let body = view(&format!("Name{}", i), "Surname", 20 + i);
        let r = create_people_at(&mut store, &body, i as i64);
        ids.push(created_id(&r));
    }
    for a in 0..ids.len() {
        for b in 0..a {
            assert_ne!(ids[a], ids[b]);
        }
    }
}

#[test]
fn duplicate_create_one_success_one_fail() {
    let mut store = Store::new();
    let first = create_people_at(&mut store, &view("Ann", "Lee", 30), 1);
    assert_eq!(first.code, 200);
    let second = create_people_at(&mut store, &view("Ann", "Lee", 30), 2);
    assert_eq!(second.code, 400);
    match second.body {
        ReplyBody::Fail { message } => assert_eq!(message, "Person already exists"),
        _ => panic!("duplicate create did not return a fail envelope"),
    }
    // the failed create was rolled back: only one row is listed
    let l = people_list_handler(&store, &FilterOptions { page: None, limit: None });
    match l.body {
        ReplyBody::PeopleList { results, .. } => assert_eq!(results, 1),
        _ => panic!("list did not return a list envelope"),
    }
}

#[test]
fn delete_twice_success_then_not_found() {
    let mut store = Store::new();
    let r = create_people_at(&mut store, &view("Ann", "Lee", 30), 1);
    let id = created_id(&r);
    let first = delete_people_handler(&mut store, id);
    assert_eq!(first.code, 204);
    assert!(matches!(first.body, ReplyBody::Empty));
    let second = delete_people_handler(&mut store, id);
    assert_eq!(second.code, 404);
    match second.body {
        ReplyBody::Fail { message } => {
            assert_eq!(message, format!("Person with ID: {} not found", id));
        }
        _ => panic!("second delete did not return a fail envelope"),
    }
}

#[test]
fn update_missing_id_is_not_found_never_error() {
    let mut store = Store::new();
    create_people_at(&mut store, &view("Ann", "Lee", 30), 1);
    let r = edit_people_handler(&mut store, 999999, &view("Bea", "Roe", 41));
    assert_eq!(r.code, 404);
    match r.body {
        ReplyBody::Fail { message } => {
            assert_eq!(message, "Person with ID: 999999 not found");
        }
        _ => panic!("update of a missing id did not return a fail envelope"),
    }
}

#[test]
fn update_replaces_fields_and_keeps_id() {
    let mut store = Store::new();
    let r = create_people_at(&mut store, &view("Ann", "Lee", 30), 7);
    let id = created_id(&r);
    let u = edit_people_handler(&mut store, id, &view("Bea", "Roe", 41));
    assert_eq!(u.code, 200);
    assert!(matches!(u.body, ReplyBody::SuccessOnly));
    let g = get_people_handler(&store, id);
    match g.body {
        ReplyBody::PersonData { people } => {
            assert_eq!(people.id, id);
            assert_eq!(people.name, "Bea");
            assert_eq!(people.surname, "Roe");
            assert_eq!(people.age, 41);
        }
        _ => panic!("get after update did not return a person body"),
    }
}

#[test]
fn get_missing_id_is_not_found() {
    let store = Store::new();
    let g = get_people_handler(&store, 5);
    assert_eq!(g.code, 404);
    match g.body {
        ReplyBody::Fail { message } => assert_eq!(message, "Person with ID: 5 not found"),
        _ => panic!("get of a missing id did not return a fail envelope"),
    }
}

#[test]
fn create_stamping_the_clock_succeeds() {
    let mut store = Store::new();
    let r = create_people_handler(&mut store, &view("Ann", "Lee", 30));
    let id = created_id(&r);
    let g = get_people_handler(&store, id);
    assert_eq!(g.code, 200);
}

#[test]
fn health_report_follows_the_probe() {
    let up = get_health_status(true);
    assert_eq!(up.code, 200);
    assert!(matches!(up.body, ReplyBody::Health { database_connected: true }));
    let down = get_health_status(false);
    assert_eq!(down.code, 503);
    assert!(matches!(down.body, ReplyBody::Health { database_connected: false }));
}
