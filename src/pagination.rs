//! Walking a multi-page listing as one sequence of items.
//!
//! A `Cursor` holds what the first page said and the items not yet handed
//! out. Each `pull` hands out the next item, asks for the next page, or
//! ends the sequence; the caller fetches the page and gives it to `resume`.
use vstd::prelude::*;

use crate::error::{builder, Error};
use crate::params::{as_mapping, set_pair, set_param, to_mapping};
use crate::text::{decimal, to_decimal};
use crate::urls::{query_pairs, replace_query, url_query, url_with_query};

verus! {

/// Name of the query parameter that selects a listing's offset.
pub const OFFSET_PARAM: &'static str = "_offset";

/// The largest value of `offset + limit * remaining` over a cursor's life:
/// an offset and `remaining` strides of `limit`, each at most `u32::MAX`.
pub const OFFSET_BOUND: u64 = 0xffff_ffff_ffff_ffff;

/// One page of a listing.
#[derive(Debug)]
pub struct Page<T> {
    pub items: Vec<T>,
    pub offset: u32,
    pub limit: u32,
    pub total: u32,
}

/// `s` back to front.
pub open spec fn rev<T>(s: Seq<T>) -> Seq<T> {
    Seq::new(s.len(), |i: int| s[s.len() - 1 - i])
}

/// What a cursor holds: the URL of the last page, the items not yet handed
/// out (the next one last), the last page's offset, the page size and how
/// many items are still owed.
pub struct CursorView<T> {
    pub url: Seq<char>,
    pub buffer: Seq<T>,
    pub offset: int,
    pub limit: int,
    pub remaining: int,
}

/// The cursor's state after the first page.
pub open spec fn start_view<T>(url: Seq<char>, items: Seq<T>, offset: u32, limit: u32, total: u32) -> CursorView<T> {
    CursorView { url, buffer: rev(items), offset: offset as int, limit: limit as int, remaining: total as int }
}

/// One step of the sequence: the next item where one is buffered, a fetch
/// at the next offset where items are owed but none is buffered, or the end.
#[derive(Debug)]
pub enum Pull<T> {
    Item(T),
    Fetch(u64),
    Done,
}

pub open spec fn pull_view<T>(c: CursorView<T>) -> (Pull<T>, CursorView<T>) {
    if c.remaining <= 0 {
        (Pull::Done, c)
    } else if c.buffer.len() > 0 {
        (Pull::Item(c.buffer.last()), CursorView { buffer: c.buffer.drop_last(), remaining: c.remaining - 1, ..c })
    } else {
        (Pull::Fetch((c.offset + c.limit) as u64), c)
    }
}

/// The cursor's state after a later page, and the item handed out at once.
/// An empty page ends the sequence.
pub open spec fn resume_view<T>(c: CursorView<T>, url: Seq<char>, items: Seq<T>) -> (Option<T>, CursorView<T>) {
    if items.len() == 0 {
        (None, CursorView { buffer: Seq::empty(), remaining: 0, ..c })
    } else {
        (
            Some(items[0]),
            CursorView {
                url,
                buffer: rev(items.drop_first()),
                offset: c.offset + c.limit,
                limit: c.limit,
                remaining: c.remaining - 1,
            },
        )
    }
}

/// The items a cursor hands out when the server answers its fetches with
/// `pages`, in order. Stops where the pages run out.
pub open spec fn drain<T>(c: CursorView<T>, pages: Seq<Seq<T>>) -> Seq<T>
    decreases (if c.remaining > 0 { c.remaining } else { 0 }),
{
    if c.remaining <= 0 {
        Seq::empty()
    } else if c.buffer.len() > 0 {
        seq![c.buffer.last()] + drain(pull_view(c).1, pages)
    } else if pages.len() == 0 {
        Seq::empty()
    } else {
        let (first, next) = resume_view(c, Seq::empty(), pages[0]);
        match first {
            Some(t) => seq![t] + drain(next, pages.drop_first()),
            None => Seq::empty(),
        }
    }
}

/// The sequence yields exactly as many items as a cursor owes, wherever the
/// server answers each fetch with a page that is not empty: for a cursor
/// made from a first page, the `total` that page reported.
pub proof fn lemma_drain_len<T>(c: CursorView<T>, pages: Seq<Seq<T>>)
    requires
        c.remaining >= 0,
        pages.len() >= c.remaining,
        forall|i: int| 0 <= i < pages.len() ==> (#[trigger] pages[i]).len() > 0,
    ensures
        drain(c, pages).len() == c.remaining,
    decreases c.remaining,
{
    if c.remaining > 0 {
        if c.buffer.len() > 0 {
            lemma_drain_len(pull_view(c).1, pages);
        } else {
            let next = resume_view(c, Seq::empty(), pages[0]).1;
            assert forall|i: int| 0 <= i < pages.drop_first().len() implies (#[trigger] pages.drop_first()[i]).len() > 0 by {
                assert(pages.drop_first()[i] == pages[i + 1]);
            }
            lemma_drain_len(next, pages.drop_first());
        }
    }
}

/// The count of items yielded over a listing equals the `total` of its
/// first page, whatever its offset and limit, as long as every later page
/// the server sends holds at least one item.
pub proof fn lemma_listing_yields_total<T>(
    url: Seq<char>,
    first: Seq<T>,
    offset: u32,
    limit: u32,
    total: u32,
    pages: Seq<Seq<T>>,
)
    requires
        pages.len() >= total,
        forall|i: int| 0 <= i < pages.len() ==> (#[trigger] pages[i]).len() > 0,
    ensures
        drain(start_view(url, first, offset, limit, total), pages).len() == total,
{
    lemma_drain_len(start_view(url, first, offset, limit, total), pages);
}

/// A listing whose first page reports a total of zero ends at once, with
/// no further fetch.
pub proof fn lemma_empty_listing<T>(url: Seq<char>, first: Seq<T>, offset: u32, limit: u32)
    ensures
        pull_view(start_view(url, first, offset, limit, 0)).0 is Done,
        forall|pages: Seq<Seq<T>>| drain(start_view(url, first, offset, limit, 0), pages).len() == 0,
{
}

/// Cursor state over a listing.
#[derive(Debug)]
pub struct Cursor<T> {
    url: String,
    buffer: Vec<T>,
    offset: u64,
    limit: u32,
    remaining: u32,
}

impl<T> View for Cursor<T> {
    type V = CursorView<T>;

    closed spec fn view(&self) -> CursorView<T> {
        CursorView {
            url: self.url@,
            buffer: self.buffer@,
            offset: self.offset as int,
            limit: self.limit as int,
            remaining: self.remaining as int,
        }
    }
}

/// The items of `v` back to front.
pub fn reversed<T>(v: Vec<T>) -> (r: Vec<T>)
    ensures
        r@ == rev(v@),
{
    let ghost orig = v@;
    let mut v = v;
    let mut r: Vec<T> = Vec::new();
    while v.len() > 0
        invariant
            v@ == orig.take(v@.len() as int),
            v@.len() <= orig.len(),
            r@.len() == orig.len() - v@.len(),
            forall|i: int| 0 <= i < r@.len() ==> r@[i] == orig[orig.len() - 1 - i],
        decreases v@.len(),
    {
        let x = v.pop().unwrap();
        assert(v@ =~= orig.take(v@.len() as int));
        r.push(x);
    }
    assert(r@ =~= rev(orig));
    r
}

impl<T> Cursor<T> {
    /// The cursor's bounds: the next offset always fits.
    pub open spec fn wf(&self) -> bool {
        &&& 0 <= self@.offset
        &&& 0 <= self@.limit <= u32::MAX
        &&& 0 <= self@.remaining <= u32::MAX
        &&& self@.offset + self@.limit * self@.remaining <= OFFSET_BOUND
    }

    /// The cursor after the first page, fetched from `url`.
    pub fn start(url: String, page: Page<T>) -> (r: Self)
        ensures
            r@ == start_view(url@, page.items@, page.offset, page.limit, page.total),
            r.wf(),
    {
        let buffer = reversed(page.items);
        let r = Cursor {
            url,
            buffer,
            offset: page.offset as u64,
            limit: page.limit,
            remaining: page.total,
        };
        assert(r@.offset + r@.limit * r@.remaining <= OFFSET_BOUND) by (nonlinear_arith)
            requires
                0 <= r@.offset <= u32::MAX,
                0 <= r@.limit <= u32::MAX,
                0 <= r@.remaining <= u32::MAX,
        ;
        r
    }

    /// The URL of the last page fetched.
    pub fn url(&self) -> (r: &String)
        ensures
            r@ == self@.url,
    {
        &self.url
    }

    /// How many items are still owed.
    pub fn remaining(&self) -> (r: u32)
        ensures
            r == self@.remaining,
    {
        self.remaining
    }

    /// The next step of the sequence.
    pub fn pull(&mut self) -> (r: Pull<T>)
        requires
            old(self).wf(),
        ensures
            (r, final(self)@) == pull_view(old(self)@),
            final(self).wf(),
    {
        if self.remaining == 0 {
            Pull::Done
        } else if self.buffer.len() > 0 {
            let item = self.buffer.pop().unwrap();
            self.remaining = self.remaining - 1;
            assert(self@.offset + self@.limit * self@.remaining <= OFFSET_BOUND) by (nonlinear_arith)
                requires
                    self@.offset + self@.limit * (self@.remaining + 1) <= OFFSET_BOUND,
                    0 <= self@.limit,
                    0 <= self@.offset,
            ;
            assert(self@ == pull_view(old(self)@).1);
            Pull::Item(item)
        } else {
            assert(self@.offset + self@.limit <= OFFSET_BOUND) by (nonlinear_arith)
                requires
                    self@.offset + self@.limit * self@.remaining <= OFFSET_BOUND,
                    self@.remaining >= 1,
                    0 <= self@.limit,
            ;
            Pull::Fetch(self.offset + self.limit as u64)
        }
    }

    /// Takes in the page fetched from `url` after a `Fetch`, and hands out
    /// its first item.
    pub fn resume(&mut self, url: String, page: Vec<T>) -> (r: Option<T>)
        requires
            old(self).wf(),
            pull_view(old(self)@).0 is Fetch,
        ensures
            (r, final(self)@) == resume_view(old(self)@, url@, page@),
            final(self).wf(),
    {
        if page.len() == 0 {
            self.buffer = Vec::new();
            self.remaining = 0;
            assert(self@ =~= resume_view(old(self)@, url@, page@).1);
            return None;
        }
        let ghost items = page@;
        let mut page = page;
        let first = page.remove(0);
        assert(page@ =~= items.drop_first());
        self.url = url;
        self.buffer = reversed(page);
        assert(self@.offset + self@.limit <= OFFSET_BOUND) by (nonlinear_arith)
            requires
                self@.offset + self@.limit * self@.remaining <= OFFSET_BOUND,
                self@.remaining >= 1,
                0 <= self@.limit,
        ;
        self.offset = self.offset + self.limit as u64;
        self.remaining = self.remaining - 1;
        assert(self@.offset + self@.limit * self@.remaining <= OFFSET_BOUND) by (nonlinear_arith)
            requires
                self@.offset - self@.limit + self@.limit * (self@.remaining + 1) <= OFFSET_BOUND,
                0 <= self@.limit,
        ;
        Some(first)
    }
}

/// The query of a URL with its offset parameter set to `offset`: the
/// URL's pairs as a mapping, with the offset overwritten or added.
pub open spec fn with_offset(q: Seq<(Seq<char>, Seq<char>)>, offset: u64) -> Seq<(Seq<char>, Seq<char>)> {
    set_param(as_mapping(q), OFFSET_PARAM@, decimal(offset as nat))
}

/// The URL of the page at `offset` of the listing at `url`.
pub open spec fn page_url(url: Seq<char>, offset: u64) -> Option<Seq<char>> {
    match url_query(url) {
        Some(q) => url_with_query(url, with_offset(q, offset)),
        None => None,
    }
}

/// The URL of the page at `offset` of the listing whose last page came from
/// `url`; a builder error where `url` does not parse.
pub fn next_page_url(url: &str, offset: u64) -> (r: Result<String, Error>)
    ensures
        match page_url(url@, offset) {
            Some(u) => r is Ok && r->Ok_0@ == u,
            None => r is Err && r->Err_0.kind is Builder && r->Err_0.error_ref is None,
        },
{
    let pairs = match query_pairs(url) {
        Some(p) => p,
        None => {
            return Err(builder(String::from_str("invalid listing URL")));
        },
    };
    let mut kept = to_mapping(&pairs);
    set_pair(&mut kept, String::from_str(OFFSET_PARAM), to_decimal(offset));
    match replace_query(url, &kept) {
        Some(u) => Ok(u),
        None => Err(builder(String::from_str("invalid listing URL"))),
    }
}

} // verus!
