//! A client library for the mod.io REST service: request preparation with
//! credentials, classification of error responses, pagination over listings
//! and resolution of file downloads.
//!
//! The transport itself (sending requests, reading bodies, decoding JSON) is
//! left to the caller; this crate decides what to send and what the answers
//! mean.
use vstd::prelude::*;

pub mod client;
pub mod comments;
pub mod download;
pub mod endpoint;
pub mod error;
pub mod pagination;
pub mod params;
pub mod response;
pub mod text;
pub mod urls;

pub use crate::client::{Credentials, Method, Modio, Request, RequestBody};
pub use crate::comments::{Comments, CommentsListOptions};
pub use crate::download::{DownloadAction, Hop, ResolvePolicy, Transfer};
pub use crate::endpoint::{AddOptions, DeleteOptions, Endpoint, QueryParams};
pub use crate::error::{AuthError, DownloadError, Error, ErrorEnvelope, Kind, Source};
pub use crate::pagination::{Cursor, Page, Pull};
pub use crate::response::RateLimit;

verus! {

} // verus!
