//! The route table of the site and its classifier.
use vstd::prelude::*;

use crate::text::{chars_of, span_is};

verus! {

/// A page of the site that the renderer knows.
#[derive(Clone, Debug, PartialEq, Eq)]
pub enum Route {
    Home,
    BlogIndex,
    BlogPost { slug: String },
    Projects,
}

/// The mathematical value of a [`Route`].
pub enum RouteView {
    Home,
    BlogIndex,
    BlogPost { slug: Seq<char> },
    Projects,
}

impl View for Route {
    type V = RouteView;

    open spec fn view(&self) -> RouteView {
        match self {
            Route::Home => RouteView::Home,
            Route::BlogIndex => RouteView::BlogIndex,
            Route::BlogPost { slug } => RouteView::BlogPost { slug: slug@ },
            Route::Projects => RouteView::Projects,
        }
    }
}

pub open spec fn home_path() -> Seq<char> {
    seq!['/']
}

pub open spec fn blog_path() -> Seq<char> {
    seq!['/', 'b', 'l', 'o', 'g']
}

/// The prefix of every blog post path: the blog path and a separator.
pub open spec fn post_prefix() -> Seq<char> {
    blog_path().push('/')
}

pub open spec fn projects_path() -> Seq<char> {
    seq!['/', 'p', 'r', 'o', 'j', 'e', 'c', 't', 's']
}

/// One path segment: not empty, and without a separator.
pub open spec fn is_segment(s: Seq<char>) -> bool {
    s.len() > 0 && !s.contains('/')
}

/// The canonical path of a route.
pub open spec fn route_path(r: RouteView) -> Seq<char> {
    match r {
        RouteView::Home => home_path(),
        RouteView::BlogIndex => blog_path(),
        RouteView::BlogPost { slug } => post_prefix() + slug,
        RouteView::Projects => projects_path(),
    }
}

/// A route that has a path: a post's slug is exactly one segment.
pub open spec fn route_wf(r: RouteView) -> bool {
    match r {
        RouteView::BlogPost { slug } => is_segment(slug),
        _ => true,
    }
}

/// A path with one trailing separator removed, the root path excepted.
pub open spec fn trim_trailing_slash(p: Seq<char>) -> Seq<char> {
    if p.len() > 1 && p.last() == '/' {
        p.drop_last()
    } else {
        p
    }
}

/// The route that a path names, if any. One trailing separator is ignored;
/// nothing else is normalised.
pub open spec fn classify(p: Seq<char>) -> Option<RouteView> {
    let q = trim_trailing_slash(p);
    if q == home_path() {
        Some(RouteView::Home)
    } else if q == blog_path() {
        Some(RouteView::BlogIndex)
    } else if q == projects_path() {
        Some(RouteView::Projects)
    } else if q.len() > post_prefix().len() && q.subrange(0, post_prefix().len() as int)
        == post_prefix() && is_segment(q.subrange(post_prefix().len() as int, q.len() as int)) {
        Some(RouteView::BlogPost { slug: q.subrange(post_prefix().len() as int, q.len() as int) })
    } else {
        None
    }
}

pub open spec fn option_view(r: Option<Route>) -> Option<RouteView> {
    match r {
        Some(route) => Some(route@),
        None => None,
    }
}

/// Whether `v[start..end]` holds a separator.
fn span_has_slash(v: &Vec<char>, start: usize, end: usize) -> (r: bool)
    requires
        start <= end <= v@.len(),
    ensures
        r == v@.subrange(start as int, end as int).contains('/'),
{
    let mut i: usize = start;
    while i < end
        invariant
            start <= i <= end <= v@.len(),
            forall|j: int| start <= j < i ==> v@[j] != '/',
        decreases end - i,
    {
        if v[i] == '/' {
            assert(v@.subrange(start as int, end as int)[i - start] == '/');
            return true;
        }
        i = i + 1;
    }
    assert forall|k: int| 0 <= k < end - start implies v@.subrange(start as int, end as int)[k]
        != '/' by {
        assert(v@[start + k] != '/');
    }
    false
}

/// Classifies a request path against the route table; method and query play
/// no part.
pub fn recognize(path: &str) -> (r: Option<Route>)
    ensures
        option_view(r) == classify(path@),
{
    let v = chars_of(path);
    let mut n = v.len();
    if n > 1 && v[n - 1] == '/' {
        n = n - 1;
    }
    let ghost q = trim_trailing_slash(path@);
    assert(q =~= v@.subrange(0, n as int));
    let prefix_len: usize = 6;
    let home = ['/'];
    let blog = ['/', 'b', 'l', 'o', 'g'];
    let projects = ['/', 'p', 'r', 'o', 'j', 'e', 'c', 't', 's'];
    let prefix = ['/', 'b', 'l', 'o', 'g', '/'];
    assert(home@ =~= home_path());
    assert(blog@ =~= blog_path());
    assert(projects@ =~= projects_path());
    assert(prefix@ =~= post_prefix());
    if span_is(&v, 0, n, &home) {
        Some(Route::Home)
    } else if span_is(&v, 0, n, &blog) {
        Some(Route::BlogIndex)
    } else if span_is(&v, 0, n, &projects) {
        Some(Route::Projects)
    } else if n > prefix_len && span_is(&v, 0, prefix_len, &prefix) && !span_has_slash(
        &v,
        prefix_len,
        n,
    ) {
        assert(q.subrange(0, 6) =~= v@.subrange(0, 6));
        assert(q.subrange(6, q.len() as int) =~= v@.subrange(6, n as int));
        let slug = path.substring_char(prefix_len, n).to_owned();
        Some(Route::BlogPost { slug })
    } else {
        assert(n > prefix_len ==> q.subrange(0, 6) =~= v@.subrange(0, 6));
        assert(n > prefix_len ==> q.subrange(6, q.len() as int) =~= v@.subrange(6, n as int));
        None
    }
}

/// Removing a trailing separator from a route's path, or from that path
/// followed by one separator, gives the route's path.
proof fn lemma_trim_route_path(r: RouteView)
    requires
        route_wf(r),
    ensures
        trim_trailing_slash(route_path(r)) == route_path(r),
        trim_trailing_slash(route_path(r).push('/')) == route_path(r),
{
    let p = route_path(r);
    assert(p.push('/').drop_last() =~= p);
    if let RouteView::BlogPost { slug } = r {
        assert(p.last() == slug.last());
        assert(slug.contains(slug.last()));
    }
}

/// The route table is unambiguous: a route's path names that route.
proof fn lemma_route_path_classifies(r: RouteView)
    requires
        route_wf(r),
    ensures
        classify(route_path(r)) == Some(r),
{
    lemma_trim_route_path(r);
    let p = route_path(r);
    if let RouteView::BlogPost { slug } = r {
        assert(p.subrange(0, 6) =~= post_prefix());
        assert(p.subrange(6, p.len() as int) =~= slug);
        assert(p[1] == 'b');
        assert(p != home_path());
        assert(p != projects_path()) by {
            assert(projects_path()[1] == 'p');
        }
        assert(p != blog_path()) by {
            assert(p.len() != blog_path().len());
        }
    }
}

/// A path names a route exactly when it is the route's path, with or without
/// one trailing separator.
pub proof fn lemma_classify_exact(p: Seq<char>, r: RouteView)
    ensures
        classify(p) == Some(r) <==> route_wf(r) && (p == route_path(r) || p == route_path(
            r,
        ).push('/')),
{
    if route_wf(r) && (p == route_path(r) || p == route_path(r).push('/')) {
        lemma_trim_route_path(r);
        lemma_route_path_classifies(r);
    }
    if classify(p) == Some(r) {
        let q = trim_trailing_slash(p);
        if let RouteView::BlogPost { slug } = r {
            assert(q =~= post_prefix() + slug);
        }
        assert(q == route_path(r));
        if p.len() > 1 && p.last() == '/' {
            assert(p =~= q.push('/'));
        }
    }
}

} // verus!
