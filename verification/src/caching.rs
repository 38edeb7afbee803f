//! The cache decorator: a response-producing value together with the
//! `Cache-Control` directives that its response is to carry.

use crate::response::{
    adjoin_header, header_key, header_table, status_code, values_of, HeaderTable,
};
use rocket::http::Status;
use rocket::Response;
use vstd::prelude::*;

verus! {

/// The name of the header that carries the directives.
pub const CACHE_CONTROL: &'static str = "Cache-Control";

/// The directives as texts, in their order.
pub open spec fn texts(directives: Seq<String>) -> Seq<Seq<char>> {
    directives.map_values(|directive: String| directive@)
}

/// A header table after `directives` were added: each is one more value of
/// `Cache-Control`, behind those that the header had. Without directives the
/// table stays as it is.
pub open spec fn with_cache_control(table: HeaderTable, directives: Seq<Seq<char>>) -> HeaderTable {
    if directives.len() == 0 {
        table
    } else {
        table.insert(header_key(CACHE_CONTROL@), values_of(table, CACHE_CONTROL@) + directives)
    }
}

/// What decorating makes of the outcome of the wrapped value: a response
/// gains the directives and keeps its status, a failure stays the failure
/// that it was.
pub open spec fn decorated(
    produced: Result<Response, Status>,
    directives: Seq<Seq<char>>,
    out: Result<Response, Status>,
) -> bool {
    match produced {
        Ok(before) => out matches Ok(after) && header_table(after) == with_cache_control(
            header_table(before),
            directives,
        ) && status_code(after) == status_code(before),
        Err(status) => out == Err::<Response, Status>(status),
    }
}

/// A response-producing value with the directives for its response.
pub struct Cached<R> {
    inner: R,
    directives: Vec<String>,
}

impl<R> Cached<R> {
    /// The wrapped value.
    pub closed spec fn wrapped(self) -> R {
        self.inner
    }

    /// The directives as texts, in their order.
    pub closed spec fn directive_texts(self) -> Seq<Seq<char>> {
        texts(self.directives@)
    }

    /// The directives.
    pub fn directives(&self) -> (directives: &Vec<String>)
        ensures
            texts(directives@) == self.directive_texts(),
    {
        &self.directives
    }

    /// Takes the decorator apart again.
    pub fn into_parts(self) -> (parts: (R, Vec<String>))
        ensures
            parts.0 == self.wrapped(),
            texts(parts.1@) == self.directive_texts(),
    {
        (self.inner, self.directives)
    }

    /// Lets `produce` turn the wrapped value into its outcome and finishes
    /// that outcome: a response gets the directives, a failure is handed on
    /// unchanged.
    pub fn respond_with<'o, F>(self, produce: F) -> (out: Result<Response<'o>, Status>) where
        F: FnOnce(R) -> Result<Response<'o>, Status>,

        requires
            produce.requires((self.wrapped(),)),
        ensures
            exists|produced: Result<Response, Status>|
                produce.ensures((self.wrapped(),), produced) && #[trigger] decorated(
                    produced,
                    self.directive_texts(),
                    out,
                ),
    {
        let Cached { inner, directives } = self;
        let produced = produce(inner);
        let out = decorate(produced, directives);
        assert(decorated(produced, self.directive_texts(), out));
        out
    }
}

/// Wrapping a value for caching.
pub trait Caching where Self: Sized {
    /// Wraps `self` with `directives`.
    fn cached(self, directives: Vec<String>) -> (out: Cached<Self>)
        ensures
            out.wrapped() == self,
            out.directive_texts() == texts(directives@),
    ;
}

impl<R> Caching for R {
    fn cached(self, directives: Vec<String>) -> (out: Cached<Self>) {
        Cached { inner: self, directives }
    }
}

/// Adds each of `directives`, in order, as a `Cache-Control` header entry of
/// its own, behind the entries that are there.
pub fn add_cache_control(response: &mut Response<'_>, directives: Vec<String>)
    ensures
        header_table(*final(response)) == with_cache_control(
            header_table(*old(response)),
            texts(directives@),
        ),
        values_of(header_table(*final(response)), CACHE_CONTROL@) == values_of(
            header_table(*old(response)),
            CACHE_CONTROL@,
        ) + texts(directives@),
        status_code(*final(response)) == status_code(*old(response)),
{
    let ghost all = texts(directives@);
    for directive in iter: directives.into_iter()
        invariant
            texts(iter.seq()) == all,
            header_table(*response) == with_cache_control(
                header_table(*old(response)),
                all.take(iter.index() as int),
            ),
            status_code(*response) == status_code(*old(response)),
    {
        let ghost done = all.take(iter.index() as int);
        proof {
            assert(all.take(iter.index() + 1) =~= done.push(directive@));
        }
        adjoin_header(response, CACHE_CONTROL, directive);
    }
    proof {
        assert(all.take(all.len() as int) =~= all);
        lemma_directives_follow(header_table(*old(response)), all);
    }
}

/// Finishes the outcome of a wrapped value: its response gets the
/// directives, its failure is handed on unchanged.
pub fn decorate<'o>(produced: Result<Response<'o>, Status>, directives: Vec<String>) -> (out:
    Result<Response<'o>, Status>)
    ensures
        decorated(produced, texts(directives@), out),
{
    match produced {
        Ok(mut response) => {
            add_cache_control(&mut response, directives);
            Ok(response)
        },
        Err(status) => Err(status),
    }
}

/// After decorating, `Cache-Control` holds the values that it held, and
/// behind them the directives in their order.
pub proof fn lemma_directives_follow(table: HeaderTable, directives: Seq<Seq<char>>)
    ensures
        values_of(with_cache_control(table, directives), CACHE_CONTROL@) == values_of(
            table,
            CACHE_CONTROL@,
        ) + directives,
{
    let held = values_of(table, CACHE_CONTROL@);
    if directives.len() == 0 {
        assert(held + directives =~= held);
    }
}

/// Decorating leaves every header but `Cache-Control` as it was.
pub proof fn lemma_other_headers_stay(
    table: HeaderTable,
    directives: Seq<Seq<char>>,
    name: Seq<char>,
)
    requires
        header_key(name) != header_key(CACHE_CONTROL@),
    ensures
        values_of(with_cache_control(table, directives), name) == values_of(table, name),
{
}

/// Decorating with one list and then with another is decorating with the
/// two lists joined.
pub proof fn lemma_directives_compose(
    table: HeaderTable,
    first: Seq<Seq<char>>,
    second: Seq<Seq<char>>,
)
    ensures
        with_cache_control(with_cache_control(table, first), second) == with_cache_control(
            table,
            first + second,
        ),
{
    let held = values_of(table, CACHE_CONTROL@);
    lemma_directives_follow(table, first);
    if first.len() == 0 {
        assert(first + second =~= second);
    } else if second.len() == 0 {
        assert(first + second =~= first);
    } else {
        assert((held + first) + second =~= held + (first + second));
    }
}

} // verus!
