use modio::pagination::next_page_url;
use modio::{Cursor, Page, Pull};

/// Serves a listing of `total` numbered items in pages of `limit`.
fn serve(offset: u32, limit: u32, total: u32) -> Page<u32> {
    let end = std::cmp::min(offset + limit, total);
    Page { items: (offset..end).collect(), offset, limit, total }
}

fn offset_of(url: &str) -> u32 {
    let q = url.split('?').nth(1).unwrap();
    let v = q.split('&').find(|p| p.starts_with("_offset=")).unwrap();
    v["_offset=".len()..].parse().unwrap()
}

/// Drives a cursor to the end, recording the offsets fetched.
fn walk(limit: u32, total: u32) -> (Vec<u32>, Vec<u32>) {
    let first_url = String::from("https://api.test/v1/games?api_key=k");
    let mut fetched = vec![0];
    let mut cursor = Cursor::start(first_url, serve(0, limit, total));
    let mut out = Vec::new();
    loop {
        match cursor.pull() {
            Pull::Item(t) => out.push(t),
            Pull::Done => break,
            Pull::Fetch(offset) => {
                let url = next_page_url(cursor.url(), offset).unwrap();
                let at = offset_of(&url);
                assert_eq!(at as u64, offset);
                fetched.push(at);
                let page = serve(at, limit, total);
                match cursor.resume(url, page.items) {
                    Some(t) => out.push(t),
                    None => break,
                }
            }
        }
    }
    (fetched, out)
}

#[test]
fn three_pages_in_order() {
    let (fetched, items) = walk(100, 250);
    assert_eq!(fetched, vec![0, 100, 200]);
    assert_eq!(items, (0..250).collect::<Vec<u32>>());
}

#[test]
fn empty_listing_fetches_once() {
    let (fetched, items) = walk(100, 0);
    assert_eq!(fetched, vec![0]);
    assert!(items.is_empty());
}

#[test]
fn count_matches_total() {
    for (limit, total) in [(1, 5), (3, 10), (10, 10), (7, 1), (100, 99)] {
        let (_, items) = walk(limit, total);
        assert_eq!(items.len() as u32, total);
    }
}

#[test]
fn later_totals_are_ignored() {
    let mut cursor = Cursor::start(
        String::from("https://api.test/v1/mods"),
        Page { items: vec![1u32], offset: 0, limit: 1, total: 2 },
    );
    assert!(matches!(cursor.pull(), Pull::Item(1)));
    assert!(matches!(cursor.pull(), Pull::Fetch(1)));
    assert_eq!(cursor.resume(String::from("https://api.test/v1/mods?_offset=1"), vec![2, 3, 4]), Some(2));
    assert!(matches!(cursor.pull(), Pull::Done));
}

#[test]
fn empty_later_page_ends_the_sequence() {
    let mut cursor = Cursor::start(
        String::from("https://api.test/v1/mods"),
        Page { items: Vec::<u32>::new(), offset: 0, limit: 5, total: 5 },
    );
    assert!(matches!(cursor.pull(), Pull::Fetch(5)));
    assert_eq!(cursor.resume(String::from("https://api.test/v1/mods?_offset=5"), vec![]), None);
    assert!(matches!(cursor.pull(), Pull::Done));
    assert_eq!(cursor.remaining(), 0);
}

#[test]
fn offset_parameter_is_replaced() {
    let u = next_page_url("https://api.test/v1/mods?_offset=0&tags=a+b&_limit=100", 100).unwrap();
    assert_eq!(u, "https://api.test/v1/mods?_limit=100&_offset=100&tags=a+b");
    let u = next_page_url("https://api.test/v1/mods?a=1&b=x&a=2", 5).unwrap();
    assert_eq!(u, "https://api.test/v1/mods?_offset=5&a=2&b=x");
    let u = next_page_url("https://api.test/v1/mods?z=1&Z=2&zz=3&%C3%A9=4", 0).unwrap();
    assert_eq!(u, "https://api.test/v1/mods?Z=2&_offset=0&z=1&zz=3&%C3%A9=4");
    let u = next_page_url("https://api.test/v1/mods", 4294967295).unwrap();
    assert_eq!(u, "https://api.test/v1/mods?_offset=4294967295");
    assert!(next_page_url("not a url", 1).unwrap_err().is_builder());
}
