use ssr_router::dispatch::{Handler, ReadyStep, RoutableService};

fn ready_service() -> RoutableService<&'static str, &'static str> {
    let mut svc = RoutableService::new("render", "files");
    svc.mark_ready(Handler::Primary);
    svc.mark_ready(Handler::Fallback);
    svc
}

#[test]
fn new_service_is_not_ready() {
    let svc = RoutableService::new(1u8, 2u8);
    assert!(!svc.is_ready());
    assert_eq!(svc.next_step(), ReadyStep::Poll(Handler::Primary));
    assert_eq!(svc.s, 1);
    assert_eq!(svc.f, 2);
}

#[test]
fn readiness_check_polls_primary_then_fallback() {
    let mut svc = RoutableService::new((), ());
    assert_eq!(svc.next_step(), ReadyStep::Poll(Handler::Primary));
    svc.mark_ready(Handler::Primary);
    assert!(!svc.is_ready());
    assert_eq!(svc.next_step(), ReadyStep::Poll(Handler::Fallback));
    svc.mark_ready(Handler::Fallback);
    assert!(svc.is_ready());
    assert_eq!(svc.next_step(), ReadyStep::Ready);
}

#[test]
fn fallback_alone_ready_is_not_ready() {
    let mut svc = RoutableService::new((), ());
    svc.mark_ready(Handler::Fallback);
    assert!(!svc.is_ready());
    assert_eq!(svc.next_step(), ReadyStep::Poll(Handler::Primary));
}

#[test]
fn root_goes_to_primary() {
    let mut svc = ready_service();
    assert_eq!(svc.dispatch("/"), Handler::Primary);
}

#[test]
fn fixed_pages_go_to_primary() {
    for path in ["/", "/blog", "/projects", "/blog/", "/projects/"] {
        let mut svc = ready_service();
        assert_eq!(svc.dispatch(path), Handler::Primary, "{}", path);
    }
}

#[test]
fn blog_post_goes_to_primary() {
    let mut svc = ready_service();
    assert_eq!(svc.dispatch("/blog/building-a-blog-like-its-2022"), Handler::Primary);
}

#[test]
fn unknown_paths_go_to_fallback() {
    for path in ["/nonexistent/path", "/blog/a/b", "/img/bevy.svg", "/app_wasm_bg.wasm"] {
        let mut svc = ready_service();
        assert_eq!(svc.dispatch(path), Handler::Fallback, "{}", path);
    }
}

#[test]
fn primary_dispatch_consumes_only_primary() {
    let mut svc = ready_service();
    svc.dispatch("/projects");
    assert!(!svc.is_ready());
    assert_eq!(svc.next_step(), ReadyStep::Poll(Handler::Primary));
    svc.mark_ready(Handler::Primary);
    assert_eq!(svc.next_step(), ReadyStep::Ready);
}

#[test]
fn fallback_dispatch_consumes_only_fallback() {
    let mut svc = ready_service();
    svc.dispatch("/img/bevy.svg");
    assert!(!svc.is_ready());
    assert_eq!(svc.next_step(), ReadyStep::Poll(Handler::Fallback));
    svc.mark_ready(Handler::Fallback);
    assert_eq!(svc.next_step(), ReadyStep::Ready);
}

#[test]
fn second_dispatch_needs_its_own_check() {
    let mut svc = ready_service();
    assert_eq!(svc.try_dispatch("/"), Some(Handler::Primary));
    assert_eq!(svc.try_dispatch("/img/bevy.svg"), None);
    assert_eq!(svc.try_dispatch("/"), None);
    svc.mark_ready(Handler::Primary);
    assert_eq!(svc.try_dispatch("/img/bevy.svg"), Some(Handler::Fallback));
    assert_eq!(svc.try_dispatch("/"), None);
    svc.mark_ready(Handler::Fallback);
    assert_eq!(svc.try_dispatch("/blog"), Some(Handler::Primary));
}

#[test]
fn try_dispatch_before_any_check_is_refused() {
    let mut svc = RoutableService::new((), ());
    assert_eq!(svc.try_dispatch("/"), None);
    assert_eq!(svc.next_step(), ReadyStep::Poll(Handler::Primary));
}

#[test]
fn clone_keeps_handlers() {
    let svc = ready_service();
    let copy = svc.clone();
    assert_eq!(copy.s, "render");
    assert_eq!(copy.f, "files");
}
