//! One handler per route. Each follows the same shape: gather the data it
//! needs (none, or through data access), render a named template with a
//! context built from it, and answer with the rendered body or the mapped
//! error. The decision each route makes is written down as a spec function of
//! the outcomes it depends on, and the laws at the end of the file are proved
//! of those decisions.

use vstd::prelude::*;
use crate::db::{DatabaseError, Post, StoreHandle, has_slug, select_last_n_posts,
    select_post_with_slug};
use crate::errors::{Response, ResponseView, ServerError, internal_error_message,
    post_not_found_message, respond_view, result_view};
use crate::render::{Binding, context_insert_post, context_insert_posts, ctx_bindings,
    new_context, render};

verus! {

/// The decision a route with no data dependency makes, as a function of the
/// render outcome: the rendered body is answered with 200, a render failure
/// is reported as an internal error.
pub open spec fn render_only_decision(rendered: Result<Seq<char>, ()>) -> Result<
    ResponseView,
    ServerError,
> {
    match rendered {
        Ok(body) => Ok(ResponseView { status: 200, body }),
        Err(_) => Err(ServerError::InternalError),
    }
}

/// The blog route's decision: a connection-pool failure (the only failure the
/// bulk query can report) is an internal error; otherwise the render outcome
/// decides.
pub open spec fn blog_decision(pool_available: bool, rendered: Result<Seq<char>, ()>) -> Result<
    ResponseView,
    ServerError,
> {
    if !pool_available {
        Err(ServerError::InternalError)
    } else {
        render_only_decision(rendered)
    }
}

/// The post route's decision: a connection-pool failure is an internal error,
/// a slug matching no stored post is the user-facing PostNotFound, and for a
/// found post the render outcome decides.
pub open spec fn post_decision(
    pool_available: bool,
    posts: Seq<Post>,
    slug: Seq<char>,
    rendered: Result<Seq<char>, ()>,
) -> Result<ResponseView, ServerError> {
    if !pool_available {
        Err(ServerError::InternalError)
    } else if !has_slug(posts, slug) {
        Err(ServerError::PostNotFound)
    } else {
        render_only_decision(rendered)
    }
}

/// Maps a data-access failure on the blog page: every failure is reported as
/// an internal error (the bulk query never yields NotFound, so no finer
/// mapping applies).
pub fn map_blog_error(e: DatabaseError) -> (r: ServerError)
    ensures
        r == ServerError::InternalError,
{
    match e {
        _ => ServerError::InternalError,
    }
}

/// Maps a data-access failure on the single-post page: a missing row is the
/// user-facing PostNotFound; everything else is an internal error.
pub fn map_post_error(e: DatabaseError) -> (r: ServerError)
    ensures
        e == DatabaseError::NotFound ==> r == ServerError::PostNotFound,
        e != DatabaseError::NotFound ==> r == ServerError::InternalError,
{
    match e {
        DatabaseError::NotFound => ServerError::PostNotFound,
        _ => ServerError::InternalError,
    }
}

/// The blog page's render context: exactly one binding, the fetched posts
/// under "posts", most recent first as data access handed them over.
pub fn blog_context(posts: &Vec<Post>) -> (c: tera::Context)
    ensures
        ctx_bindings(c) =~= Map::<Seq<char>, Binding>::empty().insert(
            "posts"@,
            Binding::Many(posts@),
        ),
{
    let mut c = new_context();
    context_insert_posts(&mut c, "posts", posts);
    c
}

/// The post page's render context: exactly one binding, the found post under
/// "post".
pub fn post_context(found: &Post) -> (c: tera::Context)
    ensures
        ctx_bindings(c) =~= Map::<Seq<char>, Binding>::empty().insert(
            "post"@,
            Binding::One(*found),
        ),
{
    let mut c = new_context();
    context_insert_post(&mut c, "post", found);
    c
}

/// What every handler does with a render outcome: a rendered body becomes the
/// 200 response; a failure is reported as an internal error, and the engine's
/// diagnostic goes no further.
pub fn finish_render(rendered: Result<String, tera::Error>) -> (r: Result<Response, ServerError>)
    ensures
        rendered matches Ok(body) ==> result_view(r) == Ok::<ResponseView, ServerError>(
            ResponseView { status: 200, body: body@ },
        ),
        rendered is Err ==> r == Err::<Response, ServerError>(ServerError::InternalError),
{
    match rendered {
        Ok(body) => Ok(Response { status: 200, body }),
        Err(_) => Err(ServerError::InternalError),
    }
}

/// The index route: no data gathering; renders the "index" template with an
/// empty context.
pub fn index(tmpl: &tera::Tera) -> (r: Result<Response, ServerError>)
    ensures
        r matches Ok(resp) ==> result_view(r) == render_only_decision(Ok(resp@.body)),
        r is Err ==> result_view(r) == render_only_decision(Err(())),
{
    let context = new_context();
    finish_render(render(tmpl, "index.html.tera", &context))
}

/// The hire-me route: no data gathering; renders the "hireme" template with
/// an empty context.
pub fn hire_me(tmpl: &tera::Tera) -> (r: Result<Response, ServerError>)
    ensures
        r matches Ok(resp) ==> result_view(r) == render_only_decision(Ok(resp@.body)),
        r is Err ==> result_view(r) == render_only_decision(Err(())),
{
    let context = new_context();
    finish_render(render(tmpl, "hireme.html.tera", &context))
}

/// The blog route: gathers the 10 most recent posts, puts them in the render
/// context under "posts", and renders the "blog" template.
pub fn blog(handle: &StoreHandle, tmpl: &tera::Tera) -> (r: Result<Response, ServerError>)
    ensures
        r matches Ok(resp) ==> result_view(r) == blog_decision(
            handle.pool_available,
            Ok(resp@.body),
        ),
        r is Err ==> result_view(r) == blog_decision(handle.pool_available, Err(())),
{
    let posts = match select_last_n_posts(10, handle) {
        Ok(posts) => posts,
        Err(e) => {
            return Err(map_blog_error(e));
        },
    };
    let context = blog_context(&posts);
    finish_render(render(tmpl, "blog.html.tera", &context))
}

/// The post route: takes the slug from the request path, gathers the matching
/// post, puts it in the render context under "post", and renders the "post"
/// template.
pub fn post(handle: &StoreHandle, tmpl: &tera::Tera, post_slug: &str) -> (r: Result<
    Response,
    ServerError,
>)
    ensures
        r matches Ok(resp) ==> result_view(r) == post_decision(
            handle.pool_available,
            handle.store.posts@,
            post_slug@,
            Ok(resp@.body),
        ),
        r is Err ==> result_view(r) == post_decision(
            handle.pool_available,
            handle.store.posts@,
            post_slug@,
            Err(()),
        ),
{
    let found = match select_post_with_slug(post_slug, handle) {
        Ok(p) => p,
        Err(e) => {
            return Err(map_post_error(e));
        },
    };
    let context = post_context(&found);
    finish_render(render(tmpl, "post.html.tera", &context))
}

/// Law: a route with no data dependency answers 200 with the rendered body
/// whenever the template set renders it, regardless of any database state.
pub proof fn lemma_data_free_route_success(body: Seq<char>)
    ensures
        respond_view(render_only_decision(Ok(body))) == (ResponseView { status: 200, body }),
{
}

/// Law: a slug matching no stored post is answered with status 404 and
/// exactly the fixed "post not found" message, whatever the render outcome.
pub proof fn lemma_absent_slug_not_found(
    posts: Seq<Post>,
    slug: Seq<char>,
    rendered: Result<Seq<char>, ()>,
)
    requires
        !has_slug(posts, slug),
    ensures
        respond_view(post_decision(true, posts, slug, rendered)) == (ResponseView {
            status: 404,
            body: post_not_found_message(),
        }),
{
}

/// Law: a connection-pool acquisition failure during either query is answered
/// with status 500 and exactly the fixed internal-error message — the failure
/// reason itself is never part of the body — whatever the store holds and
/// whatever rendering would have done.
pub proof fn lemma_pool_failure_internal_error(
    posts: Seq<Post>,
    slug: Seq<char>,
    rendered: Result<Seq<char>, ()>,
)
    ensures
        respond_view(blog_decision(false, rendered)) == (ResponseView {
            status: 500,
            body: internal_error_message(),
        }),
        respond_view(post_decision(false, posts, slug, rendered)) == (ResponseView {
            status: 500,
            body: internal_error_message(),
        }),
{
}

/// Law: with the store reachable, the blog page answers 200 with the rendered
/// body as soon as rendering succeeds — however few posts the store holds.
pub proof fn lemma_blog_success(body: Seq<char>)
    ensures
        respond_view(blog_decision(true, Ok(body))) == (ResponseView { status: 200, body }),
{
}

/// Law: a failed render is answered on every route with status 500 and
/// exactly the fixed internal-error message; the handler returns that
/// response rather than letting the failure propagate.
pub proof fn lemma_render_failure_internal_error(posts: Seq<Post>, slug: Seq<char>)
    requires
        has_slug(posts, slug),
    ensures
        respond_view(render_only_decision(Err(()))) == (ResponseView {
            status: 500,
            body: internal_error_message(),
        }),
        respond_view(blog_decision(true, Err(()))) == (ResponseView {
            status: 500,
            body: internal_error_message(),
        }),
        respond_view(post_decision(true, posts, slug, Err(()))) == (ResponseView {
            status: 500,
            body: internal_error_message(),
        }),
{
}

} // verus!
