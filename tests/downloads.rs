use modio::download::{resolve_file, resolve_primary, resolve_version, MAX_REDIRECTS};
use modio::{DownloadAction, DownloadError, Error, Hop, Kind, ResolvePolicy, Transfer};

fn urls(n: usize) -> Vec<String> {
    (0..n).map(|i| format!("https://files.test/{i}.zip")).collect()
}

fn version(policy: ResolvePolicy, n: usize) -> Result<String, Error> {
    resolve_version(1, 2, String::from("0.1"), policy, urls(n))
}

#[test]
fn version_resolution_outcomes() {
    for policy in [ResolvePolicy::Latest, ResolvePolicy::Fail] {
        let e = version(policy, 0).unwrap_err();
        assert!(matches!(e.kind, Kind::Download(DownloadError::VersionNotFound { game_id: 1, mod_id: 2, ref version }) if version == "0.1"));
        assert_eq!(version(policy, 1).unwrap(), "https://files.test/0.zip");
    }
    assert_eq!(version(ResolvePolicy::Latest, 2).unwrap(), "https://files.test/0.zip");
    let e = version(ResolvePolicy::Fail, 2).unwrap_err();
    assert!(matches!(e.kind, Kind::Download(DownloadError::MultipleFilesFound { game_id: 1, mod_id: 2, .. })));
}

#[test]
fn primary_file() {
    assert_eq!(resolve_primary(1, 2, Some(String::from("u"))).unwrap(), "u");
    let e = resolve_primary(1, 2, None).unwrap_err();
    assert!(matches!(e.kind, Kind::Download(DownloadError::NoPrimaryFile { game_id: 1, mod_id: 2 })));
}

#[test]
fn missing_file_is_download_error() {
    let e = resolve_file(1, 2, 3, Err(Error::new(Kind::Status(404)))).unwrap_err();
    assert!(matches!(e.kind, Kind::Download(DownloadError::FileNotFound { game_id: 1, mod_id: 2, file_id: 3 })));
    let e = resolve_file(1, 2, 3, Err(Error::new(Kind::Status(500)))).unwrap_err();
    assert_eq!(e.status(), Some(500));
    assert_eq!(resolve_file(1, 2, 3, Ok(String::from("u"))).unwrap(), "u");
}

#[test]
fn lookup_paths() {
    let a = DownloadAction::Primary { game_id: 5, mod_id: 19 };
    assert_eq!(a.lookup_path().unwrap(), "/games/5/mods/19");
    let a = DownloadAction::File { game_id: 5, mod_id: 19, file_id: 101 };
    assert_eq!(a.lookup_path().unwrap(), "/games/5/mods/19/files/101");
    let a = DownloadAction::Version {
        game_id: 5,
        mod_id: 19,
        version: String::from("0.1 beta"),
        policy: ResolvePolicy::Latest,
    };
    assert_eq!(a.lookup_path().unwrap(), "/games/5/mods/19/files?version=0.1+beta&_sort=-date_added&_limit=2");
    assert_eq!(DownloadAction::Url(String::from("https://x.test/f")).lookup_path(), None);
}

#[test]
fn redirect_is_followed_and_bytes_add_up() {
    let mut t = Transfer::new("https://api.test/dl/1").unwrap();
    assert!(t.record(10));
    match t.on_response(302, Some(String::from("https://cdn.test/f.zip?sig=abc"))) {
        Hop::Follow(u) => assert_eq!(u, "https://cdn.test/f.zip?sig=abc"),
        _ => panic!("redirect not followed"),
    }
    assert_eq!(t.url(), "https://cdn.test/f.zip?sig=abc");
    assert!(matches!(t.on_response(200, None), Hop::Read));
    assert!(t.record(4096));
    assert!(t.record(904));
    assert_eq!(t.written(), 5010);
}

#[test]
fn redirect_without_location_fails() {
    let mut t = Transfer::new("https://api.test/dl/1").unwrap();
    match t.on_response(302, None) {
        Hop::Failed(e) => assert_eq!(e.status(), Some(302)),
        _ => panic!("expected a failure"),
    }
    match t.on_response(404, Some(String::from("https://cdn.test/"))) {
        Hop::Failed(e) => assert_eq!(e.status(), Some(404)),
        _ => panic!("expected a failure"),
    }
}

#[test]
fn redirects_are_bounded() {
    let mut t = Transfer::new("https://api.test/dl/1").unwrap();
    for i in 0..MAX_REDIRECTS {
        assert!(matches!(t.on_response(307, Some(format!("https://cdn.test/{i}"))), Hop::Follow(_)));
    }
    match t.on_response(301, Some(String::from("https://cdn.test/last"))) {
        Hop::Failed(e) => assert!(matches!(e.kind, Kind::Request)),
        _ => panic!("expected a failure"),
    }
}

#[test]
fn bad_redirect_target() {
    let mut t = Transfer::new("https://api.test/dl/1").unwrap();
    match t.on_response(302, Some(String::from("/relative"))) {
        Hop::Failed(e) => assert!(e.is_builder()),
        _ => panic!("expected a failure"),
    }
    assert!(Transfer::new("nope").err().unwrap().is_builder());
}

#[test]
fn byte_count_overflow_is_refused() {
    let mut t = Transfer::new("https://api.test/dl/1").unwrap();
    assert!(t.record(u64::MAX));
    assert!(!t.record(1));
    assert_eq!(t.written(), u64::MAX);
}
