use vstd::prelude::*;
use vstd::string::StringExecFns;

verus! {

/// Resource path of the user collection on the upstream service.
pub const USERS_PATH: &'static str = "/public/v2/users";

/// Media type sent as both `Content-Type` and `Accept` on upstream requests.
pub const JSON_MEDIA_TYPE: &'static str = "application/json";

/// The character of a decimal digit.
pub open spec fn digit_char(d: nat) -> char {
    if d == 0 { '0' }
    else if d == 1 { '1' }
    else if d == 2 { '2' }
    else if d == 3 { '3' }
    else if d == 4 { '4' }
    else if d == 5 { '5' }
    else if d == 6 { '6' }
    else if d == 7 { '7' }
    else if d == 8 { '8' }
    else { '9' }
}

/// Decimal text of a natural number, without sign or leading zeros.
pub open spec fn decimal(n: nat) -> Seq<char>
    decreases n,
{
    if n < 10 {
        seq![digit_char(n)]
    } else {
        decimal(n / 10) + seq![digit_char(n % 10)]
    }
}

/// Path of the user collection.
pub open spec fn users_path() -> Seq<char> {
    seq!['/', 'p', 'u', 'b', 'l', 'i', 'c', '/', 'v', '2', '/', 'u', 's', 'e', 'r', 's']
}

/// Path of one user of the collection.
pub open spec fn user_path_spec(id: u32) -> Seq<char> {
    users_path() + seq!['/'] + decimal(id as nat)
}

/// Serialization of the URL that `url::Url::parse` makes of `input`, or `None`
/// where it refuses the text.
pub uninterp spec fn url_parse(input: Seq<char>) -> Option<Seq<char>>;

/// Serialization of the URL that `url::Url::join` resolves `input` to against
/// the URL that `url::Url::parse` makes of `base`, or `None` where either
/// refuses.
pub uninterp spec fn url_join(base: Seq<char>, input: Seq<char>) -> Option<Seq<char>>;

/// Standard URL resolution of `path` against the base text: the base is
/// parsed, then the path is joined onto it.
pub open spec fn resolve(base: Seq<char>, path: Seq<char>) -> Option<Seq<char>> {
    if url_parse(base) is Some {
        url_join(base, path)
    } else {
        None
    }
}

/// Relies on `url::Url::parse`: the URL it makes of a text, serialized, depends
/// on the text alone.
#[verifier::external_body]
fn parse_url(input: &str) -> (r: Option<String>)
    ensures
        r.deep_view() == url_parse(input@),
{
    url::Url::parse(input).ok().map(String::from)
}

/// Relies on `url::Url::join`, applied to the URL that `url::Url::parse` makes
/// of `base`: resolving a reference against a base depends on the two texts
/// alone.
#[verifier::external_body]
fn join_url(base: &str, input: &str) -> (r: Option<String>)
    ensures
        r.deep_view() == url_join(base@, input@),
{
    url::Url::parse(base).and_then(|u| u.join(input)).ok().map(String::from)
}

/// Resolves `path` against the base URL text.
pub fn resolve_url(base: &str, path: &str) -> (r: Option<String>)
    ensures
        r.deep_view() == resolve(base@, path@),
        url_parse(base@) is None ==> r is None,
{
    match parse_url(base) {
        Some(_) => join_url(base, path),
        None => None,
    }
}

fn digit_text(d: u32) -> (r: &'static str)
    requires
        d < 10,
    ensures
        r@ == seq![digit_char(d as nat)],
{
    proof {
        reveal_strlit("0");
        reveal_strlit("1");
        reveal_strlit("2");
        reveal_strlit("3");
        reveal_strlit("4");
        reveal_strlit("5");
        reveal_strlit("6");
        reveal_strlit("7");
        reveal_strlit("8");
        reveal_strlit("9");
    }
    if d == 0 { "0" }
    else if d == 1 { "1" }
    else if d == 2 { "2" }
    else if d == 3 { "3" }
    else if d == 4 { "4" }
    else if d == 5 { "5" }
    else if d == 6 { "6" }
    else if d == 7 { "7" }
    else if d == 8 { "8" }
    else { "9" }
}

/// Decimal text of `n`.
pub fn decimal_text(n: u32) -> (r: String)
    ensures
        r@ == decimal(n as nat),
    decreases n,
{
    if n < 10 {
        String::from_str(digit_text(n))
    } else {
        let mut s = decimal_text(n / 10);
        s.append(digit_text(n % 10));
        s
    }
}

/// Path of the user collection.
pub fn users_path_text() -> (r: String)
    ensures
        r@ == users_path(),
{
    proof {
        reveal_strlit("/public/v2/users");
    }
    String::from_str(USERS_PATH)
}

/// Path of the user with the given id.
pub fn user_path(id: u32) -> (r: String)
    ensures
        r@ == user_path_spec(id),
{
    proof {
        reveal_strlit("/");
    }
    let mut p = users_path_text();
    p.append("/");
    let digits = decimal_text(id);
    p.append(digits.as_str());
    p
}

} // verus!
