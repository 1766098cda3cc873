//! The readiness-gated dispatcher: one entry point over two inner request
//! handlers, each with its own readiness state.
use vstd::prelude::*;

use crate::routes::{
    classify, home_path, blog_path, lemma_classify_exact, post_prefix, projects_path, recognize,
    route_path, route_wf, is_segment, RouteView,
};

verus! {

/// One of the two inner handlers.
#[derive(Clone, Copy, Debug, PartialEq, Eq, Structural)]
pub enum Handler {
    /// Renders the known pages.
    Primary,
    /// Serves everything else.
    Fallback,
}

/// What a readiness check does next.
#[derive(Clone, Copy, Debug, PartialEq, Eq, Structural)]
pub enum ReadyStep {
    /// Both handlers are ready: the dispatcher reports ready.
    Ready,
    /// Ask this handler whether it is ready.
    Poll(Handler),
}

/// The readiness flags of a dispatcher.
pub struct ReadyFlags {
    pub primary: bool,
    pub fallback: bool,
}

/// The handler that serves a request for path `p`.
pub open spec fn handler_for(p: Seq<char>) -> Handler {
    if classify(p) is Some {
        Handler::Primary
    } else {
        Handler::Fallback
    }
}

pub open spec fn reports_ready(m: ReadyFlags) -> bool {
    m.primary && m.fallback
}

/// The next step of a readiness check: the primary handler is asked first.
pub open spec fn next_step(m: ReadyFlags) -> ReadyStep {
    if !m.primary {
        ReadyStep::Poll(Handler::Primary)
    } else if !m.fallback {
        ReadyStep::Poll(Handler::Fallback)
    } else {
        ReadyStep::Ready
    }
}

/// The flags after handler `h` has reported ready.
pub open spec fn confirm(m: ReadyFlags, h: Handler) -> ReadyFlags {
    match h {
        Handler::Primary => ReadyFlags { primary: true, ..m },
        Handler::Fallback => ReadyFlags { fallback: true, ..m },
    }
}

/// The flags after a request has been handed to `h`.
pub open spec fn consume(m: ReadyFlags, h: Handler) -> ReadyFlags {
    match h {
        Handler::Primary => ReadyFlags { primary: false, ..m },
        Handler::Fallback => ReadyFlags { fallback: false, ..m },
    }
}

/// The flags after the handlers in `reports` have reported ready, in order.
pub open spec fn confirm_all(m: ReadyFlags, reports: Seq<Handler>) -> ReadyFlags
    decreases reports.len(),
{
    if reports.len() == 0 {
        m
    } else {
        confirm_all(confirm(m, reports[0]), reports.drop_first())
    }
}

/// A dispatcher over a primary handler `s` and a fallback handler `f`. A
/// request goes to a handler only after that handler has reported ready, and
/// each request uses up the readiness of the handler that takes it.
#[derive(Clone)]
pub struct RoutableService<S, F> {
    s_ready: bool,
    pub s: S,
    f_ready: bool,
    pub f: F,
}

impl<S, F> View for RoutableService<S, F> {
    type V = ReadyFlags;

    closed spec fn view(&self) -> ReadyFlags {
        ReadyFlags { primary: self.s_ready, fallback: self.f_ready }
    }
}

impl<S, F> RoutableService<S, F> {
    /// The primary handler.
    pub closed spec fn primary(&self) -> S {
        self.s
    }

    /// The fallback handler.
    pub closed spec fn fallback(&self) -> F {
        self.f
    }

    /// A dispatcher whose handlers have not reported ready yet.
    pub fn new(s: S, f: F) -> (r: Self)
        ensures
            r.primary() == s,
            r.fallback() == f,
            r@ == (ReadyFlags { primary: false, fallback: false }),
    {
        RoutableService { s, f, s_ready: false, f_ready: false }
    }

    /// What the readiness check does next.
    pub fn next_step(&self) -> (r: ReadyStep)
        ensures
            r == next_step(self@),
            r == ReadyStep::Ready <==> reports_ready(self@),
    {
        if !self.s_ready {
            ReadyStep::Poll(Handler::Primary)
        } else if !self.f_ready {
            ReadyStep::Poll(Handler::Fallback)
        } else {
            ReadyStep::Ready
        }
    }

    /// Whether both handlers have reported ready since each last took a
    /// request.
    pub fn is_ready(&self) -> (r: bool)
        ensures
            r == reports_ready(self@),
    {
        self.s_ready && self.f_ready
    }

    /// Records that handler `h` has reported ready.
    pub fn mark_ready(&mut self, h: Handler)
        ensures
            final(self)@ == confirm(old(self)@, h),
            final(self).primary() == old(self).primary(),
            final(self).fallback() == old(self).fallback(),
    {
        match h {
            Handler::Primary => {
                self.s_ready = true;
            },
            Handler::Fallback => {
                self.f_ready = true;
            },
        }
    }

    /// Chooses the handler for a request to `path` and uses up its readiness;
    /// the other handler's readiness is left as it was.
    pub fn dispatch(&mut self, path: &str) -> (r: Handler)
        requires
            reports_ready(old(self)@),
        ensures
            r == handler_for(path@),
            final(self)@ == consume(old(self)@, r),
            final(self).primary() == old(self).primary(),
            final(self).fallback() == old(self).fallback(),
    {
        match recognize(path) {
            Some(_) => {
                self.s_ready = false;
                Handler::Primary
            },
            None => {
                self.f_ready = false;
                Handler::Fallback
            },
        }
    }

    /// As [`RoutableService::dispatch`], but refuses, with `None` and no
    /// change, a request that no readiness check has cleared.
    pub fn try_dispatch(&mut self, path: &str) -> (r: Option<Handler>)
        ensures
            reports_ready(old(self)@) ==> r == Some(handler_for(path@)) && final(self)@ == consume(
                old(self)@,
                handler_for(path@),
            ),
            !reports_ready(old(self)@) ==> r is None && final(self)@ == old(self)@,
            final(self).primary() == old(self).primary(),
            final(self).fallback() == old(self).fallback(),
    {
        if self.is_ready() {
            Some(self.dispatch(path))
        } else {
            None
        }
    }
}

/// The fixed pages (the root, the blog listing and the projects page) are
/// recognized, with or without a trailing separator, and go to the primary
/// handler.
pub proof fn lemma_fixed_paths_go_to_primary(p: Seq<char>)
    requires
        p == home_path() || p == blog_path() || p == projects_path() || p == blog_path().push('/')
            || p == projects_path().push('/'),
    ensures
        p == home_path() ==> classify(p) == Some(RouteView::Home),
        p == blog_path() || p == blog_path().push('/') ==> classify(p) == Some(
            RouteView::BlogIndex,
        ),
        p == projects_path() || p == projects_path().push('/') ==> classify(p) == Some(
            RouteView::Projects,
        ),
        handler_for(p) == Handler::Primary,
{
    lemma_classify_exact(p, RouteView::Home);
    lemma_classify_exact(p, RouteView::BlogIndex);
    lemma_classify_exact(p, RouteView::Projects);
}

/// A blog path followed by exactly one segment is recognized as that post,
/// with the segment as its slug, and goes to the primary handler.
pub proof fn lemma_post_paths_go_to_primary(segment: Seq<char>)
    requires
        is_segment(segment),
    ensures
        classify(post_prefix() + segment) == Some(RouteView::BlogPost { slug: segment }),
        handler_for(post_prefix() + segment) == Handler::Primary,
{
    lemma_classify_exact(post_prefix() + segment, RouteView::BlogPost { slug: segment });
}

/// A path that is no route's path, with or without a trailing separator, is
/// not recognized and goes to the fallback handler.
pub proof fn lemma_unmatched_paths_go_to_fallback(p: Seq<char>)
    requires
        forall|r: RouteView|
            route_wf(r) ==> p != route_path(r) && p != #[trigger] route_path(r).push('/'),
    ensures
        classify(p) is None,
        handler_for(p) == Handler::Fallback,
{
    if let Some(r) = classify(p) {
        lemma_classify_exact(p, r);
    }
}

/// A readiness check reports ready exactly when each handler was ready
/// already or has reported ready during the check.
pub proof fn lemma_ready_iff_both_reported(m: ReadyFlags, reports: Seq<Handler>)
    ensures
        reports_ready(confirm_all(m, reports)) <==> (m.primary || reports.contains(
            Handler::Primary,
        )) && (m.fallback || reports.contains(Handler::Fallback)),
        next_step(confirm_all(m, reports)) == ReadyStep::Ready <==> reports_ready(
            confirm_all(m, reports),
        ),
    decreases reports.len(),
{
    if reports.len() > 0 {
        let rest = reports.drop_first();
        lemma_ready_iff_both_reported(confirm(m, reports[0]), rest);
        assert forall|h: Handler| reports.contains(h) <==> reports[0] == h || rest.contains(h) by {
            if reports.contains(h) {
                let i = choose|i: int| 0 <= i < reports.len() && reports[i] == h;
                if i > 0 {
                    assert(rest[i - 1] == h);
                }
            }
            if rest.contains(h) {
                let i = choose|i: int| 0 <= i < rest.len() && rest[i] == h;
                assert(reports[i + 1] == h);
            }
            if reports[0] == h {
                assert(reports.contains(h));
            }
        }
    }
}

/// A dispatch uses up the readiness of the handler that takes the request
/// and leaves the other handler's readiness as it was.
pub proof fn lemma_dispatch_consumes_chosen(m: ReadyFlags, p: Seq<char>)
    requires
        reports_ready(m),
    ensures
        handler_for(p) == Handler::Primary ==> !consume(m, handler_for(p)).primary && consume(
            m,
            handler_for(p),
        ).fallback,
        handler_for(p) == Handler::Fallback ==> consume(m, handler_for(p)).primary && !consume(
            m,
            handler_for(p),
        ).fallback,
{
}

/// After a dispatch the dispatcher is not ready: the next dispatch needs a
/// readiness check of its own, in which the handler that took the request
/// reports ready again.
pub proof fn lemma_each_dispatch_needs_a_check(m: ReadyFlags, h: Handler, reports: Seq<Handler>)
    requires
        reports_ready(m),
    ensures
        !reports_ready(consume(m, h)),
        reports_ready(confirm_all(consume(m, h), reports)) <==> reports.contains(h),
{
    lemma_ready_iff_both_reported(consume(m, h), reports);
}

} // verus!
