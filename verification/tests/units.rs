use people_service::errors::{translate, RepoError, StoreErrorKind, StoreFailure};
use people_service::handler::people_list_handler;
use people_service::middlewares::{err_handlers, internal_error, not_found};
use people_service::model::PeopleModelView;
use people_service::pagination::{resolve, FilterOptions};
use people_service::reply::{Reply, ReplyBody};
use people_service::store::Store;
use people_service::text::{i64_to_string, not_found_message, u64_to_string};

fn filled_store(n: i32) -> Store {
    let mut store = Store::new();
    for i in 0..n {
        let body = PeopleModelView {
            id: 0,
            name: format!("Name{}", i),
            surname: "Surname".to_string(),
            age: i,
        };
        let r = people_service::handler::create_people_at(&mut store, &body, i as i64);
        assert_eq!(r.code, 200);
    }
    store
}

#[test]
fn offset_is_page_minus_one_times_limit() {
    let (offset, limit) = resolve(&FilterOptions { page: Some(3), limit: Some(5) });
    assert_eq!(offset, 10);
    assert_eq!(limit, 5);
}

#[test]
fn pagination_defaults_are_page_one_limit_ten() {
    let (offset, limit) = resolve(&FilterOptions { page: None, limit: None });
    assert_eq!(offset, 0);
    assert_eq!(limit, 10);
}

#[test]
fn list_returns_at_most_limit_rows() {
    let store = filled_store(7);
    let r = people_list_handler(&store, &FilterOptions { page: Some(1), limit: Some(3) });
    assert_eq!(r.code, 200);
    match r.body {
        ReplyBody::PeopleList { results, peoples } => {
            assert_eq!(results, 3);
            assert_eq!(peoples.len(), 3);
            assert_eq!(peoples[0].name, "Name0");
        }
        _ => panic!("list did not return a list envelope"),
    }
}

#[test]
fn list_second_page_starts_after_offset() {
    let store = filled_store(7);
    let r = people_list_handler(&store, &FilterOptions { page: Some(2), limit: Some(3) });
    match r.body {
        ReplyBody::PeopleList { results, peoples } => {
            assert_eq!(results, 3);
            assert_eq!(peoples[0].name, "Name3");
        }
        _ => panic!("list did not return a list envelope"),
    }
}

#[test]
fn list_past_the_end_is_empty_success() {
    let store = filled_store(2);
    let r = people_list_handler(&store, &FilterOptions { page: Some(5), limit: Some(10) });
    assert_eq!(r.code, 200);
    match r.body {
        ReplyBody::PeopleList { results, peoples } => {
            assert_eq!(results, 0);
            assert!(peoples.is_empty());
        }
        _ => panic!("list did not return a list envelope"),
    }
}

#[test]
fn empty_store_lists_as_empty_success() {
    let store = Store::new();
    let r = people_list_handler(&store, &FilterOptions { page: None, limit: None });
    assert_eq!(r.code, 200);
    match r.body {
        ReplyBody::PeopleList { results, peoples } => {
            assert_eq!(results, 0);
            assert!(peoples.is_empty());
        }
        _ => panic!("list did not return a list envelope"),
    }
}

#[test]
fn translate_classifies_by_structured_kind() {
    let dup = translate(StoreFailure {
        kind: StoreErrorKind::UniqueViolation,
        detail: "duplicate key value".to_string(),
    });
    assert!(matches!(dup, RepoError::DuplicateEntry));
    let missing = translate(StoreFailure {
        kind: StoreErrorKind::RowNotFound,
        detail: "no rows returned".to_string(),
    });
    assert!(matches!(missing, RepoError::NotFound));
    let other = translate(StoreFailure {
        kind: StoreErrorKind::Other,
        detail: "connection reset".to_string(),
    });
    match other {
        RepoError::Internal { detail } => assert_eq!(detail, "connection reset"),
        _ => panic!("an unexpected failure must classify as internal"),
    }
}

#[test]
fn decimal_rendering_is_exact() {
    assert_eq!(u64_to_string(0), "0");
    assert_eq!(u64_to_string(10), "10");
    assert_eq!(u64_to_string(90210), "90210");
    assert_eq!(i64_to_string(-42), "-42");
    assert_eq!(i64_to_string(i64::MIN), "-9223372036854775808");
    assert_eq!(not_found_message(7), "Person with ID: 7 not found");
}

#[test]
fn middleware_rewrites_not_found_bodies() {
    let handler_reply = Reply {
        code: 404,
        body: ReplyBody::Fail { message: "Person with ID: 7 not found".to_string() },
    };
    let rewritten = err_handlers(handler_reply);
    assert_eq!(rewritten.code, 404);
    match rewritten.body {
        ReplyBody::Text { message } => assert_eq!(message, "Not found"),
        _ => panic!("the 404 body was not rewritten"),
    }
}

#[test]
fn middleware_rewrites_internal_error_bodies() {
    let handler_reply = Reply {
        code: 500,
        body: ReplyBody::Error { message: "connection reset".to_string() },
    };
    let rewritten = err_handlers(handler_reply);
    assert_eq!(rewritten.code, 500);
    match rewritten.body {
        ReplyBody::Text { message } => assert_eq!(message, "An error occurred"),
        _ => panic!("the 500 body was not rewritten"),
    }
}

#[test]
fn middleware_passes_other_responses_unchanged() {
    let ok = Reply { code: 200, body: ReplyBody::SuccessOnly };
    let out = err_handlers(ok);
    assert_eq!(out.code, 200);
    assert!(matches!(out.body, ReplyBody::SuccessOnly));
    let no_content = Reply { code: 204, body: ReplyBody::Empty };
    let out = err_handlers(no_content);
    assert_eq!(out.code, 204);
    assert!(matches!(out.body, ReplyBody::Empty));
}

#[test]
fn rewriting_helpers_keep_the_status_code() {
    let out = not_found(Reply { code: 404, body: ReplyBody::Empty });
    assert_eq!(out.code, 404);
    let out = internal_error(Reply { code: 500, body: ReplyBody::Empty });
    assert_eq!(out.code, 500);
}

#[test]
fn status_words_follow_the_envelope_kind() {
    assert_eq!(ReplyBody::SuccessOnly.status_word(), "success");
    assert_eq!(ReplyBody::Fail { message: String::new() }.status_word(), "fail");
    assert_eq!(ReplyBody::Error { message: String::new() }.status_word(), "error");
    assert_eq!(ReplyBody::RawId { id: 3 }.status_word(), "success");
}
