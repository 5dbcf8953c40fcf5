//! Client errors and the classification of failed responses.
use vstd::prelude::*;

use crate::urls::pairs_view;

verus! {

/// The server's error code for "the Terms of Use must be accepted first".
pub const TERMS_ACCEPTANCE_REF: u16 = 11051;

/// Authentication failures.
#[derive(Debug)]
pub enum AuthError {
    Unauthorized,
    TokenRequired,
    TermsAcceptanceRequired,
}

/// Reasons why a download could not be resolved to a file.
#[derive(Debug)]
pub enum DownloadError {
    NoPrimaryFile { game_id: u32, mod_id: u32 },
    FileNotFound { game_id: u32, mod_id: u32, file_id: u32 },
    VersionNotFound { game_id: u32, mod_id: u32, version: String },
    MultipleFilesFound { game_id: u32, mod_id: u32, version: String },
}

/// The error payload the server sends with a failed response.
#[derive(Debug)]
pub struct ErrorEnvelope {
    pub message: String,
    pub errors: Vec<(String, String)>,
    pub error_ref: u16,
}

/// The lines that list field errors: `\n  field: message` for each.
pub open spec fn field_lines(errors: Seq<(Seq<char>, Seq<char>)>) -> Seq<char>
    decreases errors.len(),
{
    if errors.len() == 0 {
        Seq::empty()
    } else {
        field_lines(errors.drop_last()) + "\n  "@ + errors.last().0 + ": "@ + errors.last().1
    }
}

impl ErrorEnvelope {
    /// The message, followed by one line for each field error.
    pub fn text(&self) -> (r: String)
        ensures
            r@ == self.message@ + field_lines(pairs_view(self.errors@)),
    {
        let mut buf = self.message.clone();
        let mut i: usize = 0;
        while i < self.errors.len()
            invariant
                0 <= i <= self.errors@.len(),
                buf@ == self.message@ + field_lines(pairs_view(self.errors@).take(i as int)),
            decreases self.errors@.len() - i,
        {
            let ghost before = buf@;
            let (k, v) = &self.errors[i];
            buf.append("\n  ");
            buf.append(k.as_str());
            buf.append(": ");
            buf.append(v.as_str());
            assert(pairs_view(self.errors@).take(i + 1).drop_last() =~= pairs_view(self.errors@).take(i as int));
            assert(buf@ =~= self.message@ + field_lines(pairs_view(self.errors@).take(i + 1)));
            i = i + 1;
        }
        assert(pairs_view(self.errors@).take(self.errors@.len() as int) =~= pairs_view(self.errors@));
        buf
    }
}

/// What went wrong.
#[derive(Debug)]
pub enum Kind {
    Auth(AuthError),
    Download(DownloadError),
    Validation { message: String, errors: Vec<(String, String)> },
    /// The rate limit is exhausted; retry after this many seconds.
    RateLimit { retry_after: u64 },
    Builder,
    Request,
    Decode,
    /// Writing the downloaded bytes to the sink failed.
    Io,
    Status(u16),
}

/// The underlying cause attached to an error.
#[derive(Debug)]
pub enum Source {
    Auth(AuthError),
    Envelope(ErrorEnvelope),
    /// A description of a transport or decoding failure.
    Message(String),
}

/// The errors that may occur when using the client.
#[derive(Debug)]
pub struct Error {
    pub kind: Kind,
    pub error_ref: Option<u16>,
    pub source: Option<Source>,
}

pub open spec fn spec_error(kind: Kind, error_ref: Option<u16>, source: Option<Source>) -> Error {
    Error { kind, error_ref, source }
}

/// A status code in the 2xx range.
pub open spec fn is_success(status: u16) -> bool {
    200 <= status < 300
}

/// The error a failed response carries, decided by its status and the
/// server's error payload.
pub open spec fn status_error(status: u16, envelope: ErrorEnvelope) -> Error {
    if status == 422 {
        spec_error(
            Kind::Validation { message: envelope.message, errors: envelope.errors },
            Some(envelope.error_ref),
            None,
        )
    } else if status == 401 {
        spec_error(
            Kind::Auth(AuthError::Unauthorized),
            Some(envelope.error_ref),
            Some(Source::Auth(AuthError::Unauthorized)),
        )
    } else if status == 403 && envelope.error_ref == TERMS_ACCEPTANCE_REF {
        spec_error(
            Kind::Auth(AuthError::TermsAcceptanceRequired),
            None,
            Some(Source::Auth(AuthError::TermsAcceptanceRequired)),
        )
    } else {
        spec_error(Kind::Status(status), Some(envelope.error_ref), Some(Source::Envelope(envelope)))
    }
}

/// Seconds to wait for a number of minutes, capped at the largest `u64`.
pub open spec fn minutes_to_secs(minutes: u64) -> u64 {
    if minutes * 60 <= u64::MAX {
        (minutes * 60) as u64
    } else {
        u64::MAX
    }
}

impl Error {
    pub fn new(kind: Kind) -> (r: Self)
        ensures
            r == spec_error(kind, None, None),
    {
        Error { kind, error_ref: None, source: None }
    }

    pub fn with(self, source: Source) -> (r: Self)
        ensures
            r == spec_error(self.kind, self.error_ref, Some(source)),
    {
        Error { kind: self.kind, error_ref: self.error_ref, source: Some(source) }
    }

    pub fn with_error_ref(self, error_ref: u16) -> (r: Self)
        ensures
            r == spec_error(self.kind, Some(error_ref), self.source),
    {
        Error { kind: self.kind, error_ref: Some(error_ref), source: self.source }
    }

    /// The credentials are incorrect, revoked or expired, or the request
    /// needs another kind of authentication.
    pub fn is_auth(&self) -> (r: bool)
        ensures
            r == (self.kind == Kind::Auth(AuthError::Unauthorized) || self.kind == Kind::Auth(
                AuthError::TokenRequired,
            )),
    {
        match self.kind {
            Kind::Auth(AuthError::Unauthorized) | Kind::Auth(AuthError::TokenRequired) => true,
            _ => false,
        }
    }

    /// The Terms of Use must be accepted before going on.
    pub fn is_terms_acceptance_required(&self) -> (r: bool)
        ensures
            r == (self.kind == Kind::Auth(AuthError::TermsAcceptanceRequired)),
    {
        match self.kind {
            Kind::Auth(AuthError::TermsAcceptanceRequired) => true,
            _ => false,
        }
    }

    pub fn is_builder(&self) -> (r: bool)
        ensures
            r == (self.kind is Builder),
    {
        match self.kind {
            Kind::Builder => true,
            _ => false,
        }
    }

    pub fn is_download(&self) -> (r: bool)
        ensures
            r == (self.kind is Download),
    {
        match self.kind {
            Kind::Download(_) => true,
            _ => false,
        }
    }

    pub fn is_ratelimited(&self) -> (r: bool)
        ensures
            r == (self.kind is RateLimit),
    {
        match self.kind {
            Kind::RateLimit { .. } => true,
            _ => false,
        }
    }

    pub fn is_status(&self) -> (r: bool)
        ensures
            r == (self.kind is Status),
    {
        match self.kind {
            Kind::Status(_) => true,
            _ => false,
        }
    }

    pub fn is_validation(&self) -> (r: bool)
        ensures
            r == (self.kind is Validation),
    {
        match self.kind {
            Kind::Validation { .. } => true,
            _ => false,
        }
    }

    /// Writing a download to its sink failed.
    pub fn is_io(&self) -> (r: bool)
        ensures
            r == (self.kind is Io),
    {
        match self.kind {
            Kind::Io => true,
            _ => false,
        }
    }

    pub fn is_decode(&self) -> (r: bool)
        ensures
            r == (self.kind is Decode),
    {
        match self.kind {
            Kind::Decode => true,
            _ => false,
        }
    }

    /// The server's error reference code.
    pub fn error_ref(&self) -> (r: Option<u16>)
        ensures
            r == self.error_ref,
    {
        self.error_ref
    }

    /// The status code, where the error stands for a failed response.
    pub fn status(&self) -> (r: Option<u16>)
        ensures
            r == (match self.kind {
                Kind::Status(code) => Some(code),
                _ => None,
            }),
    {
        match self.kind {
            Kind::Status(code) => Some(code),
            _ => None,
        }
    }

    /// The validation message and the errors of each field.
    pub fn validation(&self) -> (r: Option<(&String, &Vec<(String, String)>)>)
        ensures
            match self.kind {
                Kind::Validation { message, errors } => r == Some((&message, &errors)),
                _ => r is None,
            },
    {
        match &self.kind {
            Kind::Validation { message, errors } => Some((message, errors)),
            _ => None,
        }
    }

    /// The kind of failure.
    pub fn kind(&self) -> (r: &Kind)
        ensures
            *r == self.kind,
    {
        &self.kind
    }
}

pub fn token_required() -> (r: Error)
    ensures
        r == spec_error(
            Kind::Auth(AuthError::TokenRequired),
            None,
            Some(Source::Auth(AuthError::TokenRequired)),
        ),
{
    Error::new(Kind::Auth(AuthError::TokenRequired)).with(Source::Auth(AuthError::TokenRequired))
}

pub fn unauthorized(error_ref: u16) -> (r: Error)
    ensures
        r == spec_error(
            Kind::Auth(AuthError::Unauthorized),
            Some(error_ref),
            Some(Source::Auth(AuthError::Unauthorized)),
        ),
{
    Error::new(Kind::Auth(AuthError::Unauthorized)).with_error_ref(error_ref).with(
        Source::Auth(AuthError::Unauthorized),
    )
}

pub fn terms_required() -> (r: Error)
    ensures
        r == spec_error(
            Kind::Auth(AuthError::TermsAcceptanceRequired),
            None,
            Some(Source::Auth(AuthError::TermsAcceptanceRequired)),
        ),
{
    Error::new(Kind::Auth(AuthError::TermsAcceptanceRequired)).with(
        Source::Auth(AuthError::TermsAcceptanceRequired),
    )
}

/// A transport failure: a malformed request is a builder error, anything
/// else a request error.
pub fn builder_or_request(is_builder: bool, cause: String) -> (r: Error)
    ensures
        r == spec_error(
            if is_builder {
                Kind::Builder
            } else {
                Kind::Request
            },
            None,
            Some(Source::Message(cause)),
        ),
{
    if is_builder {
        builder(cause)
    } else {
        request_error(cause)
    }
}

pub fn builder(cause: String) -> (r: Error)
    ensures
        r == spec_error(Kind::Builder, None, Some(Source::Message(cause))),
{
    Error::new(Kind::Builder).with(Source::Message(cause))
}

pub fn request_error(cause: String) -> (r: Error)
    ensures
        r == spec_error(Kind::Request, None, Some(Source::Message(cause))),
{
    Error::new(Kind::Request).with(Source::Message(cause))
}

pub fn io_error(cause: String) -> (r: Error)
    ensures
        r == spec_error(Kind::Io, None, Some(Source::Message(cause))),
{
    Error::new(Kind::Io).with(Source::Message(cause))
}

pub fn decode(cause: String) -> (r: Error)
    ensures
        r == spec_error(Kind::Decode, None, Some(Source::Message(cause))),
{
    Error::new(Kind::Decode).with(Source::Message(cause))
}

pub fn download_error(e: DownloadError) -> (r: Error)
    ensures
        r == spec_error(Kind::Download(e), None, None),
{
    Error::new(Kind::Download(e))
}

/// Classifies a failed response by its status and error payload.
pub fn error_for_status(status: u16, error: ErrorEnvelope) -> (r: Error)
    ensures
        r == status_error(status, error),
{
    if status == 422 {
        let error_ref = error.error_ref;
        Error::new(Kind::Validation { message: error.message, errors: error.errors }).with_error_ref(
            error_ref,
        )
    } else if status == 401 {
        unauthorized(error.error_ref)
    } else if status == 403 && error.error_ref == TERMS_ACCEPTANCE_REF {
        terms_required()
    } else {
        let error_ref = error.error_ref;
        Error::new(Kind::Status(status)).with_error_ref(error_ref).with(Source::Envelope(error))
    }
}

/// The rate-limit error for a wait given in minutes.
pub fn ratelimit(minutes: u64) -> (r: Error)
    ensures
        r == spec_error(Kind::RateLimit { retry_after: minutes_to_secs(minutes) }, None, None),
{
    let secs: u64 = if minutes <= u64::MAX / 60 {
        minutes * 60
    } else {
        u64::MAX
    };
    Error::new(Kind::RateLimit { retry_after: secs })
}

} // verus!
