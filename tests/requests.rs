use modio::params::name_lt;
use modio::client::DEFAULT_HOST;
use modio::text::to_decimal;
use modio::{Comments, CommentsListOptions, Credentials, Endpoint, Method, Modio, Request, RequestBody};
use modio::{AddOptions, DeleteOptions, QueryParams};

fn header<'a>(r: &'a Request<()>, name: &str) -> Option<&'a str> {
    r.headers.iter().find(|(k, _)| k == name).map(|(_, v)| v.as_str())
}

fn client(credentials: Credentials) -> Modio {
    Modio::host(String::from("https://api.test.mod.io/v1"), String::from("agent/1.0"), credentials)
}

#[test]
fn default_host() {
    let m = Modio::new(String::from("a"), Credentials::Anonymous);
    assert_eq!(m.host, DEFAULT_HOST);
    assert_eq!(m.host, "https://api.mod.io/v1");
}

#[test]
fn api_key_goes_into_query() {
    let m = client(Credentials::ApiKey(String::from("k3y")));
    let r: Request<()> = m.get("/games").unwrap();
    assert_eq!(r.url, "https://api.test.mod.io/v1/games?api_key=k3y");
    assert_eq!(r.method, Method::Get);
    assert_eq!(header(&r, "user-agent"), Some("agent/1.0"));
    assert_eq!(header(&r, "authorization"), None);
    let r: Request<()> = m.prepare(Method::Get, "https://cdn.test/file.zip?x=1", RequestBody::Empty).unwrap();
    assert_eq!(r.url, "https://cdn.test/file.zip?x=1&api_key=k3y");
}

#[test]
fn token_goes_into_header() {
    let m = client(Credentials::Token(String::from("t0k")));
    let r: Request<()> = m.get("/me").unwrap();
    assert_eq!(r.url, "https://api.test.mod.io/v1/me");
    assert_eq!(header(&r, "authorization"), Some("Bearer t0k"));
    assert_eq!(r.headers.len(), 2);
}

#[test]
fn url_is_normalised() {
    let m = client(Credentials::Anonymous);
    let r: Request<()> = m.prepare(Method::Get, "HTTPS://Example.COM", RequestBody::Empty).unwrap();
    assert_eq!(r.url, "https://example.com/");
    assert_eq!(r.headers.len(), 1);
}

#[test]
fn bad_url_is_builder_error() {
    let m = client(Credentials::ApiKey(String::from("k")));
    let r: Result<Request<()>, _> = m.prepare(Method::Get, "/relative", RequestBody::Empty);
    assert!(r.err().unwrap().is_builder());
    let m = client(Credentials::Anonymous);
    let r: Result<Request<()>, _> = m.prepare(Method::Get, "", RequestBody::Empty);
    assert!(r.err().unwrap().is_builder());
}

#[test]
fn post_is_form_encoded() {
    let m = client(Credentials::Token(String::from("t")));
    let r: Request<()> = m.post("/games/1/mods/2/tags", String::from("tags[]=a")).unwrap();
    assert_eq!(r.method, Method::Post);
    assert_eq!(header(&r, "content-type"), Some("application/x-www-form-urlencoded"));
    assert!(matches!(r.body, RequestBody::Body(ref d, Some(_)) if d == "tags[]=a"));
    let r: Request<()> = m.put("/x", String::new()).unwrap();
    assert_eq!(r.method, Method::Put);
    let r: Request<()> = m.delete("/x", String::new()).unwrap();
    assert_eq!(r.method, Method::Delete);
    assert_eq!(r.headers.len(), 3);
}

#[test]
fn form_has_no_content_type_header() {
    let m = client(Credentials::Anonymous);
    let r: Request<u8> = m.post_form("/games/1/mods", 9u8).unwrap();
    assert!(matches!(r.body, RequestBody::Form(9)));
    assert_eq!(r.headers.len(), 1);
}

#[test]
fn content_type_only_for_encoded_data() {
    let b: RequestBody<()> = RequestBody::Empty.with_content_type(String::from("text/plain"));
    assert!(matches!(b, RequestBody::Empty));
    let b: RequestBody<()> = RequestBody::Body(String::from("x"), None).with_content_type(String::from("text/plain"));
    assert!(matches!(b, RequestBody::Body(_, Some(ref m)) if m == "text/plain"));
}

#[test]
fn credentials_can_be_replaced() {
    let m = client(Credentials::ApiKey(String::from("k"))).with_credentials(Credentials::Token(String::from("t")));
    let r: Request<()> = m.get("/me").unwrap();
    assert_eq!(r.url, "https://api.test.mod.io/v1/me");
    assert_eq!(header(&r, "authorization"), Some("Bearer t"));
}

#[test]
fn decimals() {
    assert_eq!(to_decimal(0), "0");
    assert_eq!(to_decimal(7), "7");
    assert_eq!(to_decimal(10), "10");
    assert_eq!(to_decimal(11051), "11051");
    assert_eq!(to_decimal(u64::MAX), "18446744073709551615");
}

#[test]
fn comments_listing() {
    let c = Comments::new(client(Credentials::Anonymous), 5, 19);
    let r: Request<()> = c.list(&CommentsListOptions::new()).unwrap();
    assert_eq!(r.url, "https://api.test.mod.io/v1/games/5/mods/19/comments");
    let mut o = CommentsListOptions::new();
    o.set(String::from("user_id"), String::from("3"));
    o.set(String::from("content-lk"), String::from("good mod"));
    o.set(String::from("user_id"), String::from("4"));
    assert_eq!(o.serialize().unwrap(), "content-lk=good+mod&user_id=4");
    let r: Request<()> = c.list(&o).unwrap();
    assert_eq!(r.url, "https://api.test.mod.io/v1/games/5/mods/19/comments?content-lk=good+mod&user_id=4");
}

#[test]
fn empty_options_serialize_to_nothing() {
    assert_eq!(CommentsListOptions::new().serialize(), None);
}

struct Tags(&'static str);

impl AddOptions for Tags {}
impl DeleteOptions for Tags {}
impl QueryParams for Tags {
    fn to_query_params(&self) -> String {
        format!("tags[]={}", self.0)
    }
}

#[test]
fn endpoint_requests() {
    let e = Endpoint::new(client(Credentials::Anonymous), String::from("/games/1/mods/2/tags"));
    let r: Request<()> = e.list().unwrap();
    assert_eq!(r.url, "https://api.test.mod.io/v1/games/1/mods/2/tags");
    let r: Request<()> = e.iter().unwrap();
    assert_eq!(r.method, Method::Get);
    let r: Request<()> = e.add(&Tags("x")).unwrap();
    assert_eq!(r.method, Method::Post);
    assert!(matches!(r.body, RequestBody::Body(ref d, _) if d == "tags[]=x"));
    let r: Request<()> = e.delete(&Tags("y")).unwrap();
    assert_eq!(r.method, Method::Delete);
}

#[test]
fn name_order() {
    assert!(name_lt("", "a"));
    assert!(!name_lt("", ""));
    assert!(name_lt("_limit", "_offset"));
    assert!(name_lt("Z", "_"));
    assert!(name_lt("ab", "abc"));
    assert!(!name_lt("abc", "ab"));
    assert!(name_lt("z", "\u{e9}"));
    assert!(!name_lt("b", "a"));
}
