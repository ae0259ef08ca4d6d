use vstd::prelude::*;
use vstd::string::StringExecFns;
use crate::configuration::GoRest;
use crate::endpoint::{resolve, resolve_url, url_parse, user_path, user_path_spec, users_path, users_path_text};
use crate::json::{
    as_text, as_u64, integer_of, json_of, member, member_from, member_of, parse_json, text_of, Json,
    JsonView,
};

verus! {

/// Status of a successful upstream answer.
pub const STATUS_OK: u16 = 200;

/// Status with which the upstream reports an unknown resource.
pub const STATUS_NOT_FOUND: u16 = 404;

/// Status assumed when no answer came back at all.
pub const STATUS_INTERNAL_SERVER_ERROR: u16 = 500;

/// Detail of the error for a user list that does not decode.
pub const USERS_JSON_ERROR: &'static str = "Error occurred when deserializing JSON to list of users.";

/// Detail of the error for a user that does not decode.
pub const USER_JSON_ERROR: &'static str = "Error occurred when deserializing JSON to a user.";

/// One entry of the user directory.
#[derive(Debug, Clone)]
pub struct User {
    pub id: u32,
    name: String,
    email: String,
    gender: String,
    status: String,
}

/// What a [`User`] holds, as mathematical values.
pub struct UserView {
    pub id: u32,
    pub name: Seq<char>,
    pub email: Seq<char>,
    pub gender: Seq<char>,
    pub status: Seq<char>,
}

impl View for User {
    type V = UserView;

    closed spec fn view(&self) -> UserView {
        UserView {
            id: self.id,
            name: self.name@,
            email: self.email@,
            gender: self.gender@,
            status: self.status@,
        }
    }
}

impl User {
    pub fn new(id: u32, name: String, email: String, gender: String, status: String) -> (r: User)
        ensures
            r@ == (UserView { id, name: name@, email: email@, gender: gender@, status: status@ }),
    {
        User { id, name, email, gender, status }
    }

    pub fn id(&self) -> (r: u32)
        ensures
            r == self@.id,
    {
        self.id
    }

    pub fn name(&self) -> (r: &str)
        ensures
            r@ == self@.name,
    {
        self.name.as_str()
    }

    pub fn email(&self) -> (r: &str)
        ensures
            r@ == self@.email,
    {
        self.email.as_str()
    }

    pub fn gender(&self) -> (r: &str)
        ensures
            r@ == self@.gender,
    {
        self.gender.as_str()
    }

    pub fn status(&self) -> (r: &str)
        ensures
            r@ == self@.status,
    {
        self.status.as_str()
    }
}

impl PartialEq for User {
    fn eq(&self, other: &User) -> (r: bool) {
        self.id == other.id && self.name == other.name && self.email == other.email
            && self.gender == other.gender && self.status == other.status
    }
}

impl vstd::std_specs::cmp::PartialEqSpecImpl for User {
    open spec fn obeys_eq_spec() -> bool {
        true
    }

    open spec fn eq_spec(&self, other: &User) -> bool {
        self@ == other@
    }
}

impl Eq for User {
}

/// Why an upstream call gave no value.
#[derive(Debug, Clone)]
pub enum GoRestError {
    /// The upstream reported that no user has this id.
    UserNotFound(u32),
    /// The upstream answered with this status, or could not be reached.
    RestError(u16),
    /// The answer's body is not a JSON document of the expected shape.
    JsonError(String),
    /// The base URL is malformed.
    UrlError,
}

/// Whether two errors are of one kind with equal details.
pub open spec fn same_error(a: GoRestError, b: GoRestError) -> bool {
    match a {
        GoRestError::UserNotFound(x) => match b {
            GoRestError::UserNotFound(y) => x == y,
            _ => false,
        },
        GoRestError::RestError(x) => match b {
            GoRestError::RestError(y) => x == y,
            _ => false,
        },
        GoRestError::JsonError(x) => match b {
            GoRestError::JsonError(y) => x@ == y@,
            _ => false,
        },
        GoRestError::UrlError => b is UrlError,
    }
}

/// Whether `e` is a decoding error with the given detail.
pub open spec fn is_json_error(e: GoRestError, detail: Seq<char>) -> bool {
    match e {
        GoRestError::JsonError(m) => m@ == detail,
        _ => false,
    }
}

impl PartialEq for GoRestError {
    fn eq(&self, other: &GoRestError) -> (r: bool) {
        match self {
            GoRestError::UserNotFound(x) => match other {
                GoRestError::UserNotFound(y) => *x == *y,
                _ => false,
            },
            GoRestError::RestError(x) => match other {
                GoRestError::RestError(y) => *x == *y,
                _ => false,
            },
            GoRestError::JsonError(x) => match other {
                GoRestError::JsonError(y) => *x == *y,
                _ => false,
            },
            GoRestError::UrlError => match other {
                GoRestError::UrlError => true,
                _ => false,
            },
        }
    }
}

impl vstd::std_specs::cmp::PartialEqSpecImpl for GoRestError {
    open spec fn obeys_eq_spec() -> bool {
        true
    }

    open spec fn eq_spec(&self, other: &GoRestError) -> bool {
        same_error(*self, *other)
    }
}

impl Eq for GoRestError {
}

/// What to send upstream: a GET of `url` that carries `bearer_token` as
/// bearer authorization and asks for JSON.
#[derive(Debug, Clone)]
pub struct UpstreamRequest {
    pub url: String,
    pub bearer_token: String,
}

/// Whether `r` is the request for `path` on the configured service: the
/// request is owed exactly when the path resolves against the base URL,
/// and the only failure is a malformed base URL.
pub open spec fn request_outcome(
    config: GoRest,
    path: Seq<char>,
    r: Result<UpstreamRequest, GoRestError>,
) -> bool {
    match r {
        Ok(q) => resolve(config.url@, path) == Some(q.url@) && q.bearer_token@ == config.token@,
        Err(e) => resolve(config.url@, path) is None && e is UrlError,
    }
}

fn request_for(config: &GoRest, path: &str) -> (r: Result<UpstreamRequest, GoRestError>)
    ensures
        request_outcome(*config, path@, r),
{
    match resolve_url(config.url.as_str(), path) {
        Some(url) => Ok(UpstreamRequest { url, bearer_token: config.token.clone() }),
        None => Err(GoRestError::UrlError),
    }
}

/// The request that lists all users. A base URL that does not parse gives
/// `UrlError`, and no request to send.
pub fn get_users_request(config: &GoRest) -> (r: Result<UpstreamRequest, GoRestError>)
    ensures
        request_outcome(*config, users_path(), r),
        url_parse(config.url@) is None ==> r == Err::<UpstreamRequest, GoRestError>(GoRestError::UrlError),
{
    let path = users_path_text();
    request_for(config, path.as_str())
}

/// The request that fetches the user with the given id. A base URL that does
/// not parse gives `UrlError`, and no request to send.
pub fn get_user_request(id: u32, config: &GoRest) -> (r: Result<UpstreamRequest, GoRestError>)
    ensures
        request_outcome(*config, user_path_spec(id), r),
        url_parse(config.url@) is None ==> r == Err::<UpstreamRequest, GoRestError>(GoRestError::UrlError),
{
    let path = user_path(id);
    request_for(config, path.as_str())
}

/// How the upstream answered a request, up to its status line.
#[derive(Debug, Clone, Copy, PartialEq, Eq, Structural)]
pub enum Reply {
    /// No status line came back.
    Unreachable,
    /// The upstream answered with this status.
    Answered(u16),
}

/// Whether the body of a reply to the user list is to be decoded (`Ok`),
/// or the error that ends the call.
pub open spec fn users_reply_spec(reply: Reply) -> Result<(), GoRestError> {
    match reply {
        Reply::Unreachable => Err(GoRestError::RestError(STATUS_INTERNAL_SERVER_ERROR)),
        Reply::Answered(s) => if s == STATUS_OK {
            Ok(())
        } else {
            Err(GoRestError::RestError(s))
        },
    }
}

/// Whether the body of a reply to a lookup of user `id` is to be decoded
/// (`Ok`), or the error that ends the call.
pub open spec fn user_reply_spec(id: u32, reply: Reply) -> Result<(), GoRestError> {
    match reply {
        Reply::Unreachable => Err(GoRestError::RestError(STATUS_INTERNAL_SERVER_ERROR)),
        Reply::Answered(s) => if s == STATUS_OK {
            Ok(())
        } else if s == STATUS_NOT_FOUND {
            Err(GoRestError::UserNotFound(id))
        } else {
            Err(GoRestError::RestError(s))
        },
    }
}

/// The error for a request that got no status line back: `500`, as no real
/// status was received.
pub fn transport_error() -> (r: GoRestError)
    ensures
        r == GoRestError::RestError(STATUS_INTERNAL_SERVER_ERROR),
{
    GoRestError::RestError(STATUS_INTERNAL_SERVER_ERROR)
}

/// Reads the reply to the user list: `200` goes on to the body, any other
/// status is a `RestError` with that status.
pub fn check_users_reply(reply: Reply) -> (r: Result<(), GoRestError>)
    ensures
        r == users_reply_spec(reply),
        reply is Answered && reply->Answered_0 != STATUS_OK
            ==> r == Err::<(), GoRestError>(GoRestError::RestError(reply->Answered_0)),
{
    match reply {
        Reply::Unreachable => Err(transport_error()),
        Reply::Answered(s) => if s == STATUS_OK {
            Ok(())
        } else {
            Err(GoRestError::RestError(s))
        },
    }
}

/// Reads the reply to a lookup of user `id`: `200` goes on to the body,
/// `404` is `UserNotFound(id)`, any other status a `RestError` with that status.
pub fn check_user_reply(id: u32, reply: Reply) -> (r: Result<(), GoRestError>)
    ensures
        r == user_reply_spec(id, reply),
        reply == Reply::Answered(STATUS_NOT_FOUND)
            ==> r == Err::<(), GoRestError>(GoRestError::UserNotFound(id)),
        reply is Answered && reply->Answered_0 != STATUS_OK && reply->Answered_0 != STATUS_NOT_FOUND
            ==> r == Err::<(), GoRestError>(GoRestError::RestError(reply->Answered_0)),
{
    match reply {
        Reply::Unreachable => Err(transport_error()),
        Reply::Answered(s) => if s == STATUS_OK {
            Ok(())
        } else if s == STATUS_NOT_FOUND {
            Err(GoRestError::UserNotFound(id))
        } else {
            Err(GoRestError::RestError(s))
        },
    }
}

/// The user that the members of a JSON object describe: an `id` that is an
/// integer in the range of `u32`, and four text members. `None` where one is
/// missing or out of range.
pub fn user_from_members(
    id: Option<u64>,
    name: Option<String>,
    email: Option<String>,
    gender: Option<String>,
    status: Option<String>,
) -> (r: Option<User>)
    ensures
        r is Some <==> (id is Some && id->0 <= u32::MAX && name is Some && email is Some
            && gender is Some && status is Some),
        r is Some ==> r->0@ == (UserView {
            id: id->0 as u32,
            name: name->0@,
            email: email->0@,
            gender: gender->0@,
            status: status->0@,
        }),
{
    match (id, name, email, gender, status) {
        (Some(n), Some(name), Some(email), Some(gender), Some(status)) => if n <= u32::MAX as u64 {
            Some(User::new(n as u32, name, email, gender, status))
        } else {
            None
        },
        _ => None,
    }
}

/// Key of the member that holds a user's id.
pub open spec fn id_key() -> Seq<char> {
    seq!['i', 'd']
}

/// Key of the member that holds a user's name.
pub open spec fn name_key() -> Seq<char> {
    seq!['n', 'a', 'm', 'e']
}

/// Key of the member that holds a user's email.
pub open spec fn email_key() -> Seq<char> {
    seq!['e', 'm', 'a', 'i', 'l']
}

/// Key of the member that holds a user's gender.
pub open spec fn gender_key() -> Seq<char> {
    seq!['g', 'e', 'n', 'd', 'e', 'r']
}

/// Key of the member that holds a user's status.
pub open spec fn status_key() -> Seq<char> {
    seq!['s', 't', 'a', 't', 'u', 's']
}

/// The user that a JSON document describes: an object with an integer `id`
/// in the range of `u32` and the text members `name`, `email`, `gender` and
/// `status`. Other members are ignored.
pub open spec fn user_of(d: JsonView) -> Option<UserView> {
    let id = integer_of(member_of(d, id_key()));
    let name = text_of(member_of(d, name_key()));
    let email = text_of(member_of(d, email_key()));
    let gender = text_of(member_of(d, gender_key()));
    let status = text_of(member_of(d, status_key()));
    if id is Some && id->0 <= u32::MAX && name is Some && email is Some && gender is Some
        && status is Some {
        Some(UserView { id: id->0 as u32, name: name->0, email: email->0, gender: gender->0, status: status->0 })
    } else {
        None
    }
}

/// The users that a JSON document describes: an array of which every item
/// describes a user, in the array's order.
pub open spec fn users_of(d: JsonView) -> Option<Seq<UserView>> {
    match d {
        JsonView::Array(items) => if forall|i: int| 0 <= i < items.len() ==> (#[trigger] user_of(items[i])) is Some {
            Some(items.map_values(|x: JsonView| user_of(x)->0))
        } else {
            None
        },
        _ => None,
    }
}

/// The JSON object in which a user travels: the members `id`, `name`,
/// `email`, `gender` and `status`.
pub open spec fn user_document(u: UserView) -> JsonView {
    JsonView::Object(
        seq![
            (id_key(), JsonView::Number(Some(u.id as u64))),
            (name_key(), JsonView::Text(u.name)),
            (email_key(), JsonView::Text(u.email)),
            (gender_key(), JsonView::Text(u.gender)),
            (status_key(), JsonView::Text(u.status)),
        ],
    )
}

/// A user written as its JSON object reads back as the same user, every
/// field equal.
pub proof fn user_document_round_trip(u: UserView)
    ensures
        user_of(user_document(u)) == Some(u),
{
    let ms = seq![
        (id_key(), JsonView::Number(Some(u.id as u64))),
        (name_key(), JsonView::Text(u.name)),
        (email_key(), JsonView::Text(u.email)),
        (gender_key(), JsonView::Text(u.gender)),
        (status_key(), JsonView::Text(u.status)),
    ];
    assert(ms[0].0 == id_key() && ms[1].0 == name_key() && ms[2].0 == email_key());
    assert(ms[3].0 == gender_key() && ms[4].0 == status_key());
    assert(id_key().len() == 2 && name_key().len() == 4 && email_key().len() == 5);
    assert(gender_key().len() == 6 && status_key().len() == 6);
    assert(gender_key()[0] != status_key()[0]);
    reveal_with_fuel(member_from, 6);
    assert(member_from(ms, id_key(), 0) == Some(ms[0].1));
    assert(member_from(ms, name_key(), 0) == Some(ms[1].1));
    assert(member_from(ms, email_key(), 0) == Some(ms[2].1));
    assert(member_from(ms, gender_key(), 0) == Some(ms[3].1));
    assert(member_from(ms, status_key(), 0) == Some(ms[4].1));
}

/// A list of users written as a JSON array of their objects reads back as
/// the same list, in the same order.
pub proof fn users_document_round_trip(us: Seq<UserView>)
    ensures
        users_of(JsonView::Array(us.map_values(|u: UserView| user_document(u)))) == Some(us),
{
    let items = us.map_values(|u: UserView| user_document(u));
    assert forall|i: int| 0 <= i < items.len() implies (#[trigger] user_of(items[i])) == Some(us[i]) by {
        user_document_round_trip(us[i]);
    }
    assert(items.map_values(|x: JsonView| user_of(x)->0) =~= us);
}

/// A user from a JSON document, by its members `id`, `name`, `email`,
/// `gender` and `status`.
pub fn user_from_json(v: &Json) -> (r: Option<User>)
    ensures
        r is Some <==> user_of(v@) is Some,
        r is Some ==> r->0@ == user_of(v@)->0,
{
    proof {
        reveal_strlit("id");
        reveal_strlit("name");
        reveal_strlit("email");
        reveal_strlit("gender");
        reveal_strlit("status");
        assert("id"@ =~= id_key());
        assert("name"@ =~= name_key());
        assert("email"@ =~= email_key());
        assert("gender"@ =~= gender_key());
        assert("status"@ =~= status_key());
    }
    let id = member(v, "id");
    let name = member(v, "name");
    let email = member(v, "email");
    let gender = member(v, "gender");
    let status = member(v, "status");
    user_from_members(as_u64(id), as_text(name), as_text(email), as_text(gender), as_text(status))
}

fn users_json_error() -> (r: GoRestError)
    ensures
        is_json_error(r, USERS_JSON_ERROR@),
{
    GoRestError::JsonError(String::from_str(USERS_JSON_ERROR))
}

fn user_json_error() -> (r: GoRestError)
    ensures
        is_json_error(r, USER_JSON_ERROR@),
{
    GoRestError::JsonError(String::from_str(USER_JSON_ERROR))
}

/// Decodes the body of a `200` reply to the user list: a JSON array of user
/// objects. Any other body is a `JsonError` that names the list.
pub fn decode_users(body: &str) -> (r: Result<Vec<User>, GoRestError>)
    ensures
        json_of(body@) is None ==> r is Err,
        json_of(body@) is Some ==> (r is Ok <==> users_of(json_of(body@)->0) is Some),
        r is Ok ==> r->Ok_0@.map_values(|u: User| u@) == users_of(json_of(body@)->0)->0,
        r is Err ==> is_json_error(r->Err_0, USERS_JSON_ERROR@),
{
    let doc = match parse_json(body) {
        Some(d) => d,
        None => return Err(users_json_error()),
    };
    assert(json_of(body@) == Some(doc@));
    let items = match &doc {
        Json::Array(a) => a,
        _ => return Err(users_json_error()),
    };
    let ghost its = match doc@ {
        JsonView::Array(its) => its,
        _ => Seq::empty(),
    };
    assert(its.len() == items.len());
    assert(forall|j: int| 0 <= j < items.len() ==> its[j] == #[trigger] items[j]@);
    let mut users: Vec<User> = Vec::new();
    let mut i: usize = 0;
    while i < items.len()
        invariant
            i <= items.len(),
            its.len() == items.len(),
            doc@ == JsonView::Array(its),
            json_of(body@) == Some(doc@),
            forall|j: int| 0 <= j < items.len() ==> its[j] == #[trigger] items[j]@,
            users.len() == i,
            forall|j: int| 0 <= j < i ==> (#[trigger] user_of(its[j])) is Some && users[j]@ == user_of(its[j])->0,
        decreases items.len() - i,
    {
        match user_from_json(&items[i]) {
            Some(u) => users.push(u),
            None => {
                assert(user_of(its[i as int]) is None);
                assert(users_of(doc@) is None);
                return Err(users_json_error());
            },
        }
        i = i + 1;
    }
    assert(users@.map_values(|u: User| u@) =~= its.map_values(|x: JsonView| user_of(x)->0));
    Ok(users)
}

/// Decodes the body of a `200` reply to a user lookup: one JSON user object.
/// Any other body is a `JsonError` that names a single user.
pub fn decode_user(body: &str) -> (r: Result<User, GoRestError>)
    ensures
        json_of(body@) is None ==> r is Err,
        json_of(body@) is Some ==> (r is Ok <==> user_of(json_of(body@)->0) is Some),
        r is Ok ==> r->Ok_0@ == user_of(json_of(body@)->0)->0,
        r is Err ==> is_json_error(r->Err_0, USER_JSON_ERROR@),
{
    let doc = match parse_json(body) {
        Some(d) => d,
        None => return Err(user_json_error()),
    };
    match user_from_json(&doc) {
        Some(u) => Ok(u),
        None => Err(user_json_error()),
    }
}

} // verus!
