//! The boundary to the `tera` template engine: declarations of its types and
//! thin trusted wrappers around the calls the handlers make.
//!
//! A render context is a collection of an outside crate, so its contents are
//! given a name, `ctx_bindings`: the map from template variable name to what
//! this library bound under it. The wrappers that build and fill a context
//! state their effect on that map exactly; the engine's output itself depends
//! on the compiled template set (and on built-ins such as the current time),
//! which this library treats as opaque, so nothing is claimed of a rendered
//! body beyond what the handlers state of every outcome.

use vstd::prelude::*;
use crate::db::Post;

verus! {

#[verifier::external_type_specification]
#[verifier::external_body]
pub struct ExTera(tera::Tera);

#[verifier::external_type_specification]
#[verifier::external_body]
pub struct ExTeraContext(tera::Context);

#[verifier::external_type_specification]
#[verifier::external_body]
pub struct ExTeraError(tera::Error);

/// What one template variable is bound to: a single post, or a list of posts.
pub ghost enum Binding {
    One(Post),
    Many(Seq<Post>),
}

/// The contents of a render context: each template variable name this library
/// bound, mapped to the post data bound under it.
pub uninterp spec fn ctx_bindings(c: tera::Context) -> Map<Seq<char>, Binding>;

/// Relies on `tera::Context::new`: a fresh render context, holding no
/// variables yet.
#[verifier::external_body]
pub(crate) fn new_context() -> (r: tera::Context)
    ensures
        ctx_bindings(r) =~= Map::empty(),
{
    tera::Context::new()
}

/// Relies on `tera::Context::insert`: binds `key` to the given post — its
/// four fields under their own names, as a `tera::Value` object — leaving
/// every other binding as it was. Insertion serializes the value, which for a
/// `tera::Value` is the identity and cannot fail.
#[verifier::external_body]
pub(crate) fn context_insert_post(ctx: &mut tera::Context, key: &str, post: &Post)
    ensures
        ctx_bindings(*final(ctx)) =~= ctx_bindings(*old(ctx)).insert(
            key@,
            Binding::One(*post),
        ),
{
    let mut m = tera::Map::new();
    m.insert("slug".to_owned(), tera::Value::String(post.slug.clone()));
    m.insert("title".to_owned(), tera::Value::String(post.title.clone()));
    m.insert("body".to_owned(), tera::Value::String(post.body.clone()));
    m.insert("published".to_owned(), tera::Value::from(post.published));
    ctx.insert(key, &tera::Value::Object(m))
}

/// Relies on `tera::Context::insert`: binds `key` to the given posts — one
/// `tera::Value` object per post, in the same order — leaving every other
/// binding as it was. Insertion serializes the list, which for `tera::Value`
/// items is the identity and cannot fail.
#[verifier::external_body]
pub(crate) fn context_insert_posts(ctx: &mut tera::Context, key: &str, posts: &Vec<Post>)
    ensures
        ctx_bindings(*final(ctx)) =~= ctx_bindings(*old(ctx)).insert(
            key@,
            Binding::Many(posts@),
        ),
{
    let mut values: Vec<tera::Value> = Vec::new();
    for p in posts.iter() {
        let mut m = tera::Map::new();
        m.insert("slug".to_owned(), tera::Value::String(p.slug.clone()));
        m.insert("title".to_owned(), tera::Value::String(p.title.clone()));
        m.insert("body".to_owned(), tera::Value::String(p.body.clone()));
        m.insert("published".to_owned(), tera::Value::from(p.published));
        values.push(tera::Value::Object(m));
    }
    ctx.insert(key, &values)
}

/// Relies on `tera::Tera::render`: renders the named template with the given
/// context, and reports the engine's error (an unknown template name, a
/// failed evaluation) instead of a body.
#[verifier::external_body]
pub(crate) fn render(tmpl: &tera::Tera, name: &str, ctx: &tera::Context) -> Result<
    String,
    tera::Error,
> {
    tmpl.render(name, ctx)
}

} // verus!
