//! A generic endpoint for a sub-resource.
use vstd::prelude::*;

use crate::client::{Method, Modio, Request, RequestBody};
use crate::error::Error;

verus! {

/// Options accepted when adding to an endpoint.
pub trait AddOptions {

}

/// Options accepted when deleting from an endpoint.
pub trait DeleteOptions {

}

/// Options that encode as a form-encoded query.
pub trait QueryParams {
    fn to_query_params(&self) -> String;
}

/// A sub-resource under a path of the API.
#[derive(Debug)]
pub struct Endpoint {
    pub modio: Modio,
    pub path: String,
}

impl Endpoint {
    pub fn new(modio: Modio, path: String) -> (r: Self)
        ensures
            r.modio == modio,
            r.path == path,
    {
        Endpoint { modio, path }
    }

    /// The request for one page of the listing.
    pub fn list<F>(&self) -> (r: Result<Request<F>, Error>)
        ensures
            self.modio.prepared(r, Method::Get, self.modio.host@ + self.path@, RequestBody::Empty),
    {
        self.modio.get(self.path.as_str())
    }

    /// The request for the first page of a walk over the whole listing; see
    /// `Cursor` for the pages after it.
    pub fn iter<F>(&self) -> (r: Result<Request<F>, Error>)
        ensures
            self.modio.prepared(r, Method::Get, self.modio.host@ + self.path@, RequestBody::Empty),
    {
        self.modio.get(self.path.as_str())
    }

    /// The request that adds to the resource.
    pub fn add<F, T: AddOptions + QueryParams>(&self, options: &T) -> (r: Result<Request<F>, Error>)
        ensures
            exists|data: String|
                self.modio.prepared_data(r, Method::Post, self.modio.host@ + self.path@, data),
    {
        let params = options.to_query_params();
        self.modio.post(self.path.as_str(), params)
    }

    /// The request that deletes from the resource.
    pub fn delete<F, T: DeleteOptions + QueryParams>(&self, options: &T) -> (r: Result<
        Request<F>,
        Error,
    >)
        ensures
            exists|data: String|
                self.modio.prepared_data(r, Method::Delete, self.modio.host@ + self.path@, data),
    {
        let params = options.to_query_params();
        self.modio.delete(self.path.as_str(), params)
    }
}

} // verus!
