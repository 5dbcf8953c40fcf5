//! Listing the comments of a mod.
use vstd::prelude::*;

use crate::client::{Modio, Request, RequestBody};
use crate::download::mod_path;
use crate::error::Error;
use crate::params::{set_pair, set_param, sorted_names};
use crate::text::to_decimal;
use crate::urls::{encode_pairs, form_encoded, pairs_view};

verus! {

/// Filters of a comment listing, as query parameters.
#[derive(Debug)]
pub struct CommentsListOptions {
    params: Vec<(String, String)>,
}

impl View for CommentsListOptions {
    type V = Seq<(Seq<char>, Seq<char>)>;

    closed spec fn view(&self) -> Seq<(Seq<char>, Seq<char>)> {
        pairs_view(self.params@)
    }
}

impl CommentsListOptions {
    /// Options with no filter.
    pub fn new() -> (r: Self)
        ensures
            r@ == Seq::<(Seq<char>, Seq<char>)>::empty(),
    {
        let r = CommentsListOptions { params: Vec::new() };
        assert(r@ =~= Seq::<(Seq<char>, Seq<char>)>::empty());
        r
    }

    /// Sets the parameter `name` to `value`.
    pub fn set(&mut self, name: String, value: String)
        requires
            sorted_names(old(self)@),
        ensures
            sorted_names(final(self)@),
            final(self)@ == set_param(old(self)@, name@, value@),
    {
        set_pair(&mut self.params, name, value);
    }

    /// The query string of the options; `None` where there is no filter.
    pub fn serialize(&self) -> (r: Option<String>)
        ensures
            self@.len() == 0 ==> r is None,
            self@.len() > 0 ==> r is Some && r->0@ == form_encoded(self@),
    {
        if self.params.len() == 0 {
            None
        } else {
            Some(encode_pairs(&self.params))
        }
    }
}

/// The path of a mod's comments.
pub open spec fn comments_path(game: u32, mod_id: u32) -> Seq<char> {
    mod_path(game, mod_id) + "/comments"@
}

/// The comments of a mod.
#[derive(Debug)]
pub struct Comments {
    pub modio: Modio,
    pub game: u32,
    pub mod_id: u32,
}

impl Comments {
    pub fn new(modio: Modio, game: u32, mod_id: u32) -> (r: Self)
        ensures
            r.modio == modio,
            r.game == game,
            r.mod_id == mod_id,
    {
        Comments { modio, game, mod_id }
    }

    /// The request that lists the comments matching `options`.
    pub fn list<F>(&self, options: &CommentsListOptions) -> (r: Result<Request<F>, Error>)
        ensures
            options@.len() == 0 ==> self.modio.prepared(
                r,
                crate::client::Method::Get,
                self.modio.host@ + comments_path(self.game, self.mod_id),
                RequestBody::Empty,
            ),
            options@.len() > 0 ==> self.modio.prepared(
                r,
                crate::client::Method::Get,
                self.modio.host@ + comments_path(self.game, self.mod_id) + "?"@ + form_encoded(
                    options@,
                ),
                RequestBody::Empty,
            ),
    {
        let mut uri = String::from_str("/games/");
        let g = to_decimal(self.game as u64);
        uri.append(g.as_str());
        uri.append("/mods/");
        let m = to_decimal(self.mod_id as u64);
        uri.append(m.as_str());
        uri.append("/comments");
        if let Some(query) = options.serialize() {
            uri.append("?");
            uri.append(query.as_str());
        }
        proof {
            assert(self.modio.host@ + uri@ =~= if options@.len() == 0 {
                self.modio.host@ + comments_path(self.game, self.mod_id)
            } else {
                self.modio.host@ + comments_path(self.game, self.mod_id) + "?"@ + form_encoded(
                    options@,
                )
            });
        }
        self.modio.get(uri.as_str())
    }
}

} // verus!
