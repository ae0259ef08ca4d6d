use simple_backend::configuration::GoRest;
use simple_backend::go_rest_client::{
    check_user_reply, check_users_reply, decode_user, decode_users, get_user_request,
    get_users_request, transport_error, user_from_members, GoRestError, Reply, User,
};

const TEST_USER_ID: u32 = 112233;

const TEST_USER_JSON: &str = "{\"id\":112233,\"name\":\"TEST TESTER\",\"email\":\"test@tester.com\",\"gender\":\"Does it matter?\",\"status\":\"Just testing\"}";

fn config(url: &str, token: &str) -> GoRest {
    GoRest { url: String::from(url), token: String::from(token) }
}

fn test_user() -> User {
    User::new(
        TEST_USER_ID,
        String::from("TEST TESTER"),
        String::from("test@tester.com"),
        String::from("Does it matter?"),
        String::from("Just testing"),
    )
}

#[test]
fn test_get_users_empty_url() {
    assert_eq!(Err(GoRestError::UrlError), get_users_request(&config("", "")).map(|r| r.url));
}

#[test]
fn test_get_users_not_ok_status() {
    assert_eq!(Err(GoRestError::RestError(400)), check_users_reply(Reply::Answered(400)));
}

#[test]
fn test_get_users_faulty_json() {
    assert_eq!(check_users_reply(Reply::Answered(200)), Ok(()));
    assert_eq!(
        Err(GoRestError::JsonError(String::from(
            "Error occurred when deserializing JSON to list of users."
        ))),
        decode_users("TEST BODY")
    );
}

#[test]
fn test_get_users() {
    let body = format!("[{}]", TEST_USER_JSON);
    let users_result = decode_users(&body);
    assert!(users_result.is_ok());
    let users_list = users_result.unwrap();
    assert!(!users_list.is_empty());
    assert_eq!(TEST_USER_ID, users_list.get(0).unwrap().id);
}

#[test]
fn test_get_user_empty_url() {
    assert_eq!(
        Err(GoRestError::UrlError),
        get_user_request(TEST_USER_ID, &config("", "")).map(|r| r.url)
    );
}

#[test]
fn test_get_user_not_ok_status() {
    assert_eq!(
        Err(GoRestError::RestError(400)),
        check_user_reply(TEST_USER_ID, Reply::Answered(400))
    );
}

#[test]
fn test_get_user_not_found() {
    assert_eq!(
        Err(GoRestError::UserNotFound(TEST_USER_ID)),
        check_user_reply(TEST_USER_ID, Reply::Answered(404))
    );
}

#[test]
fn test_get_user_faulty_json() {
    assert_eq!(check_user_reply(TEST_USER_ID, Reply::Answered(200)), Ok(()));
    assert_eq!(
        Err(GoRestError::JsonError(String::from("Error occurred when deserializing JSON to a user."))),
        decode_user("TEST BODY")
    );
}

#[test]
fn test_get_user() {
    let user_result = decode_user(TEST_USER_JSON);
    assert!(user_result.is_ok());
    assert_eq!(TEST_USER_ID, user_result.unwrap().id);
}

#[test]
fn decoded_user_keeps_every_field() {
    let user = decode_user(TEST_USER_JSON).unwrap();
    assert_eq!(user, test_user());
    assert_eq!(user.id(), TEST_USER_ID);
    assert_eq!(user.name(), "TEST TESTER");
    assert_eq!(user.email(), "test@tester.com");
    assert_eq!(user.gender(), "Does it matter?");
    assert_eq!(user.status(), "Just testing");
}

#[test]
fn decoded_list_keeps_every_user_in_order() {
    let body = "[{\"id\":1,\"name\":\"a\",\"email\":\"b\",\"gender\":\"c\",\"status\":\"d\"},\
                {\"id\":2,\"name\":\"e\",\"email\":\"f\",\"gender\":\"g\",\"status\":\"h\"}]";
    let users = decode_users(body).unwrap();
    assert_eq!(users.len(), 2);
    assert_eq!(users[0], User::new(1, "a".into(), "b".into(), "c".into(), "d".into()));
    assert_eq!(users[1], User::new(2, "e".into(), "f".into(), "g".into(), "h".into()));
}

#[test]
fn empty_list_decodes_to_no_users() {
    assert_eq!(decode_users("[]"), Ok(vec![]));
}

#[test]
fn unknown_members_are_ignored() {
    let body = "{\"id\":7,\"name\":\"n\",\"email\":\"e\",\"gender\":\"g\",\"status\":\"s\",\"extra\":true}";
    assert_eq!(decode_user(body), Ok(User::new(7, "n".into(), "e".into(), "g".into(), "s".into())));
}

#[test]
fn wrong_shapes_are_json_errors() {
    let user_error = Err(GoRestError::JsonError(String::from(
        "Error occurred when deserializing JSON to a user.",
    )));
    let list_error: Result<Vec<User>, GoRestError> = Err(GoRestError::JsonError(String::from(
        "Error occurred when deserializing JSON to list of users.",
    )));
    // a missing member
    assert_eq!(decode_user("{\"id\":7,\"name\":\"n\",\"email\":\"e\",\"gender\":\"g\"}"), user_error);
    // an id that is text
    assert_eq!(
        decode_user("{\"id\":\"7\",\"name\":\"n\",\"email\":\"e\",\"gender\":\"g\",\"status\":\"s\"}"),
        user_error
    );
    // an id beyond u32
    assert_eq!(
        decode_user("{\"id\":4294967296,\"name\":\"n\",\"email\":\"e\",\"gender\":\"g\",\"status\":\"s\"}"),
        user_error
    );
    // a negative id
    assert_eq!(
        decode_user("{\"id\":-1,\"name\":\"n\",\"email\":\"e\",\"gender\":\"g\",\"status\":\"s\"}"),
        user_error
    );
    // a list where one user is expected
    assert_eq!(decode_user(&format!("[{}]", TEST_USER_JSON)), user_error);
    // one user where a list is expected
    assert_eq!(decode_users(TEST_USER_JSON), list_error);
    // a list with one malformed entry
    assert_eq!(decode_users(&format!("[{},{{}}]", TEST_USER_JSON)), list_error);
    // an empty body
    assert_eq!(decode_users(""), list_error);
}

#[test]
fn largest_id_decodes() {
    let body = "{\"id\":4294967295,\"name\":\"n\",\"email\":\"e\",\"gender\":\"g\",\"status\":\"s\"}";
    assert_eq!(decode_user(body).unwrap().id, u32::MAX);
}

#[test]
fn list_request_joins_the_collection_path() {
    let request = get_users_request(&config("http://127.0.0.1:5000", "TEST_TOKEN")).unwrap();
    assert_eq!(request.url, "http://127.0.0.1:5000/public/v2/users");
    assert_eq!(request.bearer_token, "TEST_TOKEN");
}

#[test]
fn user_request_joins_the_user_path() {
    let request = get_user_request(TEST_USER_ID, &config("http://127.0.0.1:5000/", "T")).unwrap();
    assert_eq!(request.url, "http://127.0.0.1:5000/public/v2/users/112233");
    assert_eq!(request.bearer_token, "T");
}

#[test]
fn join_replaces_the_base_path() {
    let request = get_users_request(&config("https://gorest.co.in/api/v1/", "T")).unwrap();
    assert_eq!(request.url, "https://gorest.co.in/public/v2/users");
    let request = get_user_request(0, &config("https://gorest.co.in", "T")).unwrap();
    assert_eq!(request.url, "https://gorest.co.in/public/v2/users/0");
}

#[test]
fn malformed_base_urls_are_url_errors() {
    for base in ["not a url", "//no-scheme", "http://", "127.0.0.1:5000/x y"] {
        assert_eq!(get_users_request(&config(base, "T")).map(|r| r.url), Err(GoRestError::UrlError));
        assert_eq!(get_user_request(5, &config(base, "T")).map(|r| r.url), Err(GoRestError::UrlError));
    }
}

#[test]
fn any_other_status_is_a_rest_error() {
    for status in [100u16, 201, 204, 301, 401, 403, 500, 503, 999] {
        assert_eq!(check_users_reply(Reply::Answered(status)), Err(GoRestError::RestError(status)));
        assert_eq!(check_user_reply(3, Reply::Answered(status)), Err(GoRestError::RestError(status)));
    }
    assert_eq!(check_users_reply(Reply::Answered(404)), Err(GoRestError::RestError(404)));
}

#[test]
fn not_found_keeps_the_requested_id() {
    for id in [0u32, 1, TEST_USER_ID, u32::MAX] {
        assert_eq!(check_user_reply(id, Reply::Answered(404)), Err(GoRestError::UserNotFound(id)));
    }
}

#[test]
fn unreachable_upstream_defaults_to_internal_server_error() {
    assert_eq!(transport_error(), GoRestError::RestError(500));
    assert_eq!(check_users_reply(Reply::Unreachable), Err(GoRestError::RestError(500)));
    assert_eq!(check_user_reply(9, Reply::Unreachable), Err(GoRestError::RestError(500)));
}

#[test]
fn errors_compare_by_kind_and_detail() {
    assert_eq!(GoRestError::UrlError, GoRestError::UrlError);
    assert_ne!(GoRestError::UserNotFound(1), GoRestError::UserNotFound(2));
    assert_ne!(GoRestError::RestError(404), GoRestError::UserNotFound(404));
    assert_ne!(GoRestError::JsonError("a".into()), GoRestError::JsonError("b".into()));
    assert_ne!(test_user(), User::new(TEST_USER_ID, "x".into(), "".into(), "".into(), "".into()));
}

#[test]
fn members_make_a_user_only_when_all_are_there() {
    let s = |t: &str| Some(String::from(t));
    assert_eq!(
        user_from_members(Some(112233), s("TEST TESTER"), s("test@tester.com"), s("Does it matter?"), s("Just testing")),
        Some(test_user())
    );
    assert_eq!(user_from_members(None, s("a"), s("b"), s("c"), s("d")), None);
    assert_eq!(user_from_members(Some(1), s("a"), None, s("c"), s("d")), None);
    assert_eq!(user_from_members(Some(1), s("a"), s("b"), s("c"), None), None);
    assert_eq!(user_from_members(Some(u32::MAX as u64 + 1), s("a"), s("b"), s("c"), s("d")), None);
    assert_eq!(
        user_from_members(Some(u32::MAX as u64), s("a"), s("b"), s("c"), s("d")).map(|u| u.id),
        Some(u32::MAX)
    );
}

#[test]
fn member_order_and_whitespace_do_not_matter() {
    let body = " { \"status\" : \"s\", \"gender\":\"g\", \"email\":\"e\", \"name\":\"n\", \"id\": 42 } ";
    assert_eq!(decode_user(body), Ok(User::new(42, "n".into(), "e".into(), "g".into(), "s".into())));
}

#[test]
fn fractional_id_is_a_json_error() {
    let body = "{\"id\":1.5,\"name\":\"n\",\"email\":\"e\",\"gender\":\"g\",\"status\":\"s\"}";
    assert!(matches!(decode_user(body), Err(GoRestError::JsonError(_))));
}
