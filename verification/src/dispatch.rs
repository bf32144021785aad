//! The boundary to the transport adapter: typed commands in, typed replies
//! out. The adapter owns no state; it decodes wire requests into a
//! [`Command`] (or notes that no route matches) and encodes the outcome.

use vstd::prelude::*;

use crate::comment::{views, Comment};
use crate::errors::RequestError;
use crate::query::{is_page_of, list, Page};
use crate::store::{contains_id, spec_get, Store};

verus! {

/// Listing offset when the query names none.
pub const DEFAULT_OFFSET: usize = 0;

/// Listing limit when the query names none.
pub const DEFAULT_LIMIT: usize = 100;

/// The query parameters of a listing; a missing field falls back to the
/// default.
pub struct Pagination {
    pub offset: Option<usize>,
    pub limit: Option<usize>,
}

/// A decoded request.
pub enum Command {
    /// List a page of comments, newest first.
    ListComments { pagination: Pagination },
    /// Fetch one comment by id.
    GetComment { id: u128 },
    /// Store a new comment; `created_at` is the caller-supplied UTC
    /// timestamp in milliseconds.
    CreateComment { name: String, text: String, created_at: i64 },
}

/// A successful reply.
pub enum Reply {
    /// A page of comments and the total count.
    Listing(Page),
    /// The requested comment.
    Single(Comment),
    /// The comment as stored, with its generated id.
    Created(Comment),
}

/// The offset a listing actually uses.
pub open spec fn effective_offset(offset: Option<usize>) -> int {
    match offset {
        Some(o) => o as int,
        None => DEFAULT_OFFSET as int,
    }
}

/// The limit a listing actually uses.
pub open spec fn effective_limit(limit: Option<usize>) -> int {
    match limit {
        Some(l) => l as int,
        None => DEFAULT_LIMIT as int,
    }
}

/// What handling `cmd` means: how the store after the call (`post`) and the
/// reply relate to the store before it (`pre`).
pub open spec fn handle_post(
    pre: Seq<crate::comment::CommentView>,
    post: Seq<crate::comment::CommentView>,
    cmd: Command,
    r: Result<Reply, RequestError>,
) -> bool {
    match cmd {
        Command::ListComments { pagination } => {
            &&& post == pre
            &&& (match r {
                Ok(Reply::Listing(page)) => {
                    &&& page.total == pre.len()
                    &&& is_page_of(
                        pre,
                        effective_offset(pagination.offset),
                        effective_limit(pagination.limit),
                        views(page.entries@),
                    )
                },
                _ => false,
            })
        },
        Command::GetComment { id } => {
            &&& post == pre
            &&& (match r {
                Ok(Reply::Single(c)) => spec_get(pre, id) == Some(c@),
                Err(e) => e == RequestError::NotFound && spec_get(pre, id) is None,
                _ => false,
            })
        },
        Command::CreateComment { name, text, created_at } => {
            match r {
                Ok(Reply::Created(c)) => {
                    &&& post == pre.push(c@)
                    &&& !contains_id(pre, c@.id)
                    &&& c@.name == name@
                    &&& c@.text == text@
                    &&& c@.created_at == created_at
                },
                _ => false,
            }
        },
    }
}

/// List a page under the given pagination, filling in the defaults where the
/// query named none. Takes the store read-only, so concurrent listings never
/// exclude one another.
pub fn list_with(store: &Store, pagination: Pagination) -> (page: Page)
    ensures
        page.total == store@.len(),
        is_page_of(
            store@,
            effective_offset(pagination.offset),
            effective_limit(pagination.limit),
            views(page.entries@),
        ),
{
    let off = match pagination.offset {
        Some(o) => o,
        None => DEFAULT_OFFSET,
    };
    let lim = match pagination.limit {
        Some(l) => l,
        None => DEFAULT_LIMIT,
    };
    list(store, off, lim)
}

/// Handle one decoded command against the store.
///
/// Listing and lookup leave the store unchanged; creation appends exactly one
/// record. `NotFound` is returned if and only if the requested id is absent;
/// listing and creation always succeed.
pub fn handle(store: &mut Store, cmd: Command) -> (r: Result<Reply, RequestError>)
    requires
        old(store).wf(),
        old(store)@.len() < usize::MAX,
    ensures
        final(store).wf(),
        handle_post(old(store)@, final(store)@, cmd, r),
{
    match cmd {
        Command::ListComments { pagination } => Ok(Reply::Listing(list_with(store, pagination))),
        Command::GetComment { id } => {
            match store.get(id) {
                Ok(c) => Ok(Reply::Single(c)),
                Err(e) => Err(e),
            }
        },
        Command::CreateComment { name, text, created_at } => {
            Ok(Reply::Created(store.insert(name, text, created_at)))
        },
    }
}

/// A wire request, after routing: either a decoded command or a path no
/// route matches.
pub enum RoutedRequest {
    Known(Command),
    UnknownPath,
}

/// What the transport sends back for one routed request.
pub enum Outcome {
    /// The command's result.
    Handled(Result<Reply, RequestError>),
    /// The generic fallback for an unknown path — distinct from the domain
    /// `NotFound`, which names a missing comment id.
    RouteNotFound,
}

/// Serve one routed request: unknown paths get the generic fallback and
/// leave the store untouched; known commands are handled.
pub fn serve(store: &mut Store, req: RoutedRequest) -> (o: Outcome)
    requires
        old(store).wf(),
        old(store)@.len() < usize::MAX,
    ensures
        final(store).wf(),
        (match req {
            RoutedRequest::UnknownPath => o == Outcome::RouteNotFound && final(store)@ == old(
                store,
            )@,
            RoutedRequest::Known(cmd) => (o matches Outcome::Handled(r) && handle_post(
                old(store)@,
                final(store)@,
                cmd,
                r,
            )),
        }),
{
    match req {
        RoutedRequest::Known(cmd) => Outcome::Handled(handle(store, cmd)),
        RoutedRequest::UnknownPath => Outcome::RouteNotFound,
    }
}

} // verus!
