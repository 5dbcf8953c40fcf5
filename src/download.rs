//! Resolving a download request to the URL of a file, and following
//! redirects while its bytes are read.
use vstd::prelude::*;

use crate::error::{
    builder, download_error, is_success, request_error, spec_error, DownloadError, Error, Kind,
};
use crate::text::{decimal, to_decimal};
use crate::urls::{encode_pairs, form_encoded, pairs_view, parse_url, parsed_url};

verus! {

/// How many redirects a transfer follows before it gives up.
pub const MAX_REDIRECTS: u32 = 10;

/// What to do when a version matches more than one file.
#[derive(PartialEq, Eq, Structural, Clone, Copy, Debug)]
pub enum ResolvePolicy {
    /// Download the most recently added file.
    Latest,
    /// Fail with `DownloadError::MultipleFilesFound`.
    Fail,
}

/// What to download.
#[derive(Debug)]
pub enum DownloadAction {
    /// The primary file of a mod.
    Primary { game_id: u32, mod_id: u32 },
    /// A given file of a mod.
    File { game_id: u32, mod_id: u32, file_id: u32 },
    /// The file of a mod with a given version.
    Version { game_id: u32, mod_id: u32, version: String, policy: ResolvePolicy },
    /// A file at a known URL.
    Url(String),
}

pub open spec fn mod_path(game_id: u32, mod_id: u32) -> Seq<char> {
    "/games/"@ + decimal(game_id as nat) + "/mods/"@ + decimal(mod_id as nat)
}

/// The query that lists the files of a version, newest first, two at most:
/// enough to tell one match from several.
pub open spec fn version_query(version: Seq<char>) -> Seq<(Seq<char>, Seq<char>)> {
    seq![("version"@, version), ("_sort"@, "-date_added"@), ("_limit"@, "2"@)]
}

/// The path of the record to look up before a download; none for a URL.
pub open spec fn lookup_path(action: DownloadAction) -> Option<Seq<char>> {
    match action {
        DownloadAction::Primary { game_id, mod_id } => Some(mod_path(game_id, mod_id)),
        DownloadAction::File { game_id, mod_id, file_id } => Some(
            mod_path(game_id, mod_id) + "/files/"@ + decimal(file_id as nat),
        ),
        DownloadAction::Version { game_id, mod_id, version, .. } => Some(
            mod_path(game_id, mod_id) + "/files?"@ + form_encoded(version_query(version@)),
        ),
        DownloadAction::Url(_) => None,
    }
}

fn mod_path_of(game_id: u32, mod_id: u32) -> (r: String)
    ensures
        r@ == mod_path(game_id, mod_id),
{
    let mut s = String::from_str("/games/");
    let g = to_decimal(game_id as u64);
    s.append(g.as_str());
    s.append("/mods/");
    let m = to_decimal(mod_id as u64);
    s.append(m.as_str());
    s
}

impl DownloadAction {
    /// The path of the record that names the file's URL, under the API host;
    /// `None` where the action already holds the URL.
    pub fn lookup_path(&self) -> (r: Option<String>)
        ensures
            match lookup_path(*self) {
                Some(p) => r is Some && r->0@ == p,
                None => r is None,
            },
    {
        match self {
            DownloadAction::Primary { game_id, mod_id } => Some(mod_path_of(*game_id, *mod_id)),
            DownloadAction::File { game_id, mod_id, file_id } => {
                let mut s = mod_path_of(*game_id, *mod_id);
                s.append("/files/");
                let f = to_decimal(*file_id as u64);
                s.append(f.as_str());
                Some(s)
            },
            DownloadAction::Version { game_id, mod_id, version, .. } => {
                let mut q: Vec<(String, String)> = Vec::new();
                q.push((String::from_str("version"), version.clone()));
                q.push((String::from_str("_sort"), String::from_str("-date_added")));
                q.push((String::from_str("_limit"), String::from_str("2")));
                assert(pairs_view(q@) =~= version_query(version@));
                let mut s = mod_path_of(*game_id, *mod_id);
                s.append("/files?");
                let e = encode_pairs(&q);
                s.append(e.as_str());
                Some(s)
            },
            DownloadAction::Url(_) => None,
        }
    }
}

/// The URL to download for a mod whose primary file has `binary_url`.
pub fn resolve_primary(game_id: u32, mod_id: u32, binary_url: Option<String>) -> (r: Result<
    String,
    Error,
>)
    ensures
        r == (match binary_url {
            Some(u) => Ok(u),
            None => Err(
                spec_error(
                    Kind::Download(DownloadError::NoPrimaryFile { game_id, mod_id }),
                    None,
                    None,
                ),
            ),
        }),
{
    match binary_url {
        Some(u) => Ok(u),
        None => Err(download_error(DownloadError::NoPrimaryFile { game_id, mod_id })),
    }
}

/// The URL to download for a file record lookup; a lookup that failed with
/// status 404 means the file does not exist.
pub fn resolve_file(game_id: u32, mod_id: u32, file_id: u32, fetched: Result<String, Error>) -> (r:
    Result<String, Error>)
    ensures
        r == (match fetched {
            Err(e) => if e.kind == Kind::Status(404) {
                Err(
                    spec_error(
                        Kind::Download(DownloadError::FileNotFound { game_id, mod_id, file_id }),
                        None,
                        None,
                    ),
                )
            } else {
                Err(e)
            },
            Ok(u) => Ok(u),
        }),
{
    match fetched {
        Err(e) => if e.status() == Some(404u16) {
            Err(download_error(DownloadError::FileNotFound { game_id, mod_id, file_id }))
        } else {
            Err(e)
        },
        Ok(u) => Ok(u),
    }
}

/// The outcome of a version lookup that found the files with URLs `urls`,
/// newest first.
pub open spec fn version_outcome(
    game_id: u32,
    mod_id: u32,
    version: String,
    policy: ResolvePolicy,
    urls: Seq<String>,
) -> Result<String, Error> {
    if urls.len() == 0 {
        Err(
            spec_error(
                Kind::Download(DownloadError::VersionNotFound { game_id, mod_id, version }),
                None,
                None,
            ),
        )
    } else if urls.len() == 1 || policy == ResolvePolicy::Latest {
        Ok(urls[0])
    } else {
        Err(
            spec_error(
                Kind::Download(DownloadError::MultipleFilesFound { game_id, mod_id, version }),
                None,
                None,
            ),
        )
    }
}

/// The URL to download for a version, given the URLs of the files the
/// version lookup found, newest first.
pub fn resolve_version(
    game_id: u32,
    mod_id: u32,
    version: String,
    policy: ResolvePolicy,
    urls: Vec<String>,
) -> (r: Result<String, Error>)
    ensures
        r == version_outcome(game_id, mod_id, version, policy, urls@),
{
    let mut urls = urls;
    if urls.len() == 0 {
        Err(download_error(DownloadError::VersionNotFound { game_id, mod_id, version }))
    } else if urls.len() == 1 || policy == ResolvePolicy::Latest {
        Ok(urls.swap_remove(0))
    } else {
        Err(download_error(DownloadError::MultipleFilesFound { game_id, mod_id, version }))
    }
}

/// Resolving a version lookup that found no file, one file, or two files,
/// under either policy, ends in one of five ways: no version, the one file,
/// the newest of two, or too many files.
pub proof fn lemma_version_outcomes(
    game_id: u32,
    mod_id: u32,
    version: String,
    policy: ResolvePolicy,
    urls: Seq<String>,
)
    requires
        urls.len() <= 2,
    ensures
        urls.len() == 0 ==> version_outcome(game_id, mod_id, version, policy, urls) == Err::<
            String,
            Error,
        >(
            spec_error(
                Kind::Download(DownloadError::VersionNotFound { game_id, mod_id, version }),
                None,
                None,
            ),
        ),
        urls.len() == 1 ==> version_outcome(game_id, mod_id, version, policy, urls) == Ok::<
            String,
            Error,
        >(urls[0]),
        urls.len() == 2 && policy == ResolvePolicy::Latest ==> version_outcome(
            game_id,
            mod_id,
            version,
            policy,
            urls,
        ) == Ok::<String, Error>(urls[0]),
        urls.len() == 2 && policy == ResolvePolicy::Fail ==> version_outcome(
            game_id,
            mod_id,
            version,
            policy,
            urls,
        ) == Err::<String, Error>(
            spec_error(
                Kind::Download(DownloadError::MultipleFilesFound { game_id, mod_id, version }),
                None,
                None,
            ),
        ),
{
}

/// A redirect status: 301, 302 or 307.
pub open spec fn is_redirect(status: u16) -> bool {
    status == 301 || status == 302 || status == 307
}

/// What a transfer holds: the URL it reads from, the bytes written so far
/// and the redirects followed.
pub struct TransferView {
    pub url: Seq<char>,
    pub written: int,
    pub redirects: int,
}

/// The transfer after following a redirect to `url`.
pub open spec fn follow_view(t: TransferView, url: Seq<char>) -> TransferView {
    TransferView { url, redirects: t.redirects + 1, ..t }
}

/// The transfer after writing the chunks `chunks`, of these many bytes.
pub open spec fn after_chunks(t: TransferView, chunks: Seq<u64>) -> TransferView
    decreases chunks.len(),
{
    if chunks.len() == 0 {
        t
    } else {
        let prev = after_chunks(t, chunks.drop_last());
        TransferView { written: prev.written + chunks.last(), ..prev }
    }
}

/// The sum of `chunks`.
pub open spec fn total(chunks: Seq<u64>) -> int
    decreases chunks.len(),
{
    if chunks.len() == 0 {
        0
    } else {
        total(chunks.drop_last()) + chunks.last()
    }
}

proof fn lemma_after_chunks(t: TransferView, chunks: Seq<u64>)
    ensures
        after_chunks(t, chunks).written == t.written + total(chunks),
        after_chunks(t, chunks).url == t.url,
        after_chunks(t, chunks).redirects == t.redirects,
    decreases chunks.len(),
{
    if chunks.len() > 0 {
        lemma_after_chunks(t, chunks.drop_last());
    }
}

/// A download that is redirected reads from the new URL, and the bytes of
/// both legs add up to one total.
pub proof fn lemma_redirect_sums_legs(
    t: TransferView,
    first_leg: Seq<u64>,
    url: Seq<char>,
    second_leg: Seq<u64>,
)
    ensures
        after_chunks(follow_view(after_chunks(t, first_leg), url), second_leg).url == url,
        after_chunks(follow_view(after_chunks(t, first_leg), url), second_leg).written == t.written
            + total(first_leg) + total(second_leg),
{
    lemma_after_chunks(t, first_leg);
    lemma_after_chunks(follow_view(after_chunks(t, first_leg), url), second_leg);
}

/// What to do with a response of the transfer.
#[derive(Debug)]
pub enum Hop {
    /// Send a GET to this URL, taken verbatim from the redirect.
    Follow(String),
    /// Read the body into the sink.
    Read,
    /// Stop with this error.
    Failed(Error),
}

/// The reading of one file, across redirects.
#[derive(Debug)]
pub struct Transfer {
    url: String,
    written: u64,
    redirects: u32,
}

impl View for Transfer {
    type V = TransferView;

    closed spec fn view(&self) -> TransferView {
        TransferView { url: self.url@, written: self.written as int, redirects: self.redirects as int }
    }
}

impl Transfer {
    pub open spec fn wf(&self) -> bool {
        &&& 0 <= self@.written <= u64::MAX
        &&& 0 <= self@.redirects <= MAX_REDIRECTS
    }

    /// A transfer from `url`, which must parse as an absolute URL.
    pub fn new(url: &str) -> (r: Result<Transfer, Error>)
        ensures
            match parsed_url(url@) {
                Some(u) => r is Ok && r->Ok_0@ == TransferView { url: u, written: 0, redirects: 0 }
                    && r->Ok_0.wf(),
                None => r is Err && r->Err_0.kind is Builder && r->Err_0.error_ref is None,
            },
    {
        match parse_url(url) {
            Some(u) => Ok(Transfer { url: u, written: 0, redirects: 0 }),
            None => Err(builder(String::from_str("invalid download URL"))),
        }
    }

    /// The URL the next GET goes to.
    pub fn url(&self) -> (r: &String)
        ensures
            r@ == self@.url,
    {
        &self.url
    }

    /// The bytes written so far.
    pub fn written(&self) -> (r: u64)
        ensures
            r == self@.written,
    {
        self.written
    }

    /// Decides on a response: follow a redirect that names its target, read
    /// a 2xx body, fail on anything else.
    pub fn on_response(&mut self, status: u16, location: Option<String>) -> (r: Hop)
        requires
            old(self).wf(),
        ensures
            final(self).wf(),
            is_redirect(status) && location is Some ==> match parsed_url(location->0@) {
                Some(u) => if old(self)@.redirects < MAX_REDIRECTS {
                    r is Follow && r->Follow_0@ == u && final(self)@ == follow_view(old(self)@, u)
                } else {
                    r is Failed && r->Failed_0.kind is Request && r->Failed_0.error_ref is None
                        && final(self)@ == old(self)@
                },
                None => r is Failed && r->Failed_0.kind is Builder && r->Failed_0.error_ref is None
                    && final(self)@ == old(self)@,
            },
            !(is_redirect(status) && location is Some) ==> final(self)@ == old(self)@ && if is_success(
                status,
            ) {
                r is Read
            } else {
                r is Failed && r->Failed_0 == spec_error(Kind::Status(status), None, None)
            },
    {
        if status == 301 || status == 302 || status == 307 {
            if let Some(loc) = location {
                return match parse_url(loc.as_str()) {
                    Some(u) => if self.redirects < MAX_REDIRECTS {
                        self.url = u.clone();
                        self.redirects = self.redirects + 1;
                        Hop::Follow(u)
                    } else {
                        Hop::Failed(request_error(String::from_str("too many redirects")))
                    },
                    None => Hop::Failed(builder(String::from_str("invalid redirect URL"))),
                };
            }
        }
        if 200 <= status && status < 300 {
            Hop::Read
        } else {
            Hop::Failed(Error::new(Kind::Status(status)))
        }
    }

    /// Counts a chunk of `n` bytes written to the sink; false, with nothing
    /// counted, where the total would not fit in a `u64`.
    pub fn record(&mut self, n: u64) -> (ok: bool)
        requires
            old(self).wf(),
        ensures
            final(self).wf(),
            ok == (old(self)@.written + n <= u64::MAX),
            ok ==> final(self)@ == after_chunks(old(self)@, seq![n]),
            !ok ==> final(self)@ == old(self)@,
    {
        if self.written <= u64::MAX - n {
            self.written = self.written + n;
            proof {
                let ghost one = seq![n];
                assert(one.drop_last() =~= Seq::<u64>::empty());
                assert(after_chunks(old(self)@, one.drop_last()) == old(self)@);
                assert(self@ =~= after_chunks(old(self)@, one));
            }
            true
        } else {
            false
        }
    }
}

} // verus!
