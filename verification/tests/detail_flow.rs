use promise_core::bridge::FetchAction;
use promise_core::bridge::FetchEvent;
use promise_core::bridge::step;
use promise_core::data::AppState;
use promise_core::data::CommonCtx;
use promise_core::data::Episode;
use promise_core::data::FetchError;
use promise_core::data::Library;
use promise_core::data::Show;
use promise_core::data::ShowDetail;
use promise_core::data::ShowLink;
use promise_core::promise::Promise;
use promise_core::render::Render;
use promise_core::show::complete_episodes;
use promise_core::show::complete_show;
use promise_core::show::episodes_view;
use promise_core::show::info_view;
use promise_core::show::trigger_load_detail;

fn link(s: &str) -> ShowLink {
    ShowLink { id: String::from(s) }
}

fn show(id: &str, name: &str) -> Show {
    Show {
        id: String::from(id),
        name: String::from(name),
        publisher: String::from("pub"),
        images: Vec::new(),
    }
}

fn fresh_app() -> AppState {
    AppState {
        common_ctx: CommonCtx { library: Library { shows: Vec::new() } },
        show_detail: ShowDetail::empty(),
    }
}

fn episode(id: &str, name: &str) -> Episode {
    Episode {
        id: String::from(id),
        name: String::from(name),
        description: String::from("desc"),
        images: Vec::new(),
    }
}

#[test]
fn staleness_scenario_last_defer_wins() {
    let mut app = fresh_app();

    // Trigger for show-A: the renderer shows pending right away.
    let (a0, a1) = trigger_load_detail(&mut app, link("show-A"));
    assert_eq!(a0, FetchAction::Start(link("show-A")));
    assert_eq!(a1, FetchAction::Start(link("show-A")));
    assert!(matches!(info_view(&app), Render::Pending));

    // Before the completion, a trigger for show-B supersedes it.
    trigger_load_detail(&mut app, link("show-B"));
    assert_eq!(app.show_detail.show, Promise::Deferred(link("show-B")));
    assert!(matches!(info_view(&app), Render::Pending));

    // The stale completion for show-A arrives and is dropped.
    let applied = complete_show(&mut app, link("show-A"), Ok(show("show-A", "Show A")));
    assert!(!applied);
    assert_eq!(app.show_detail.show, Promise::Deferred(link("show-B")));
    assert!(matches!(info_view(&app), Render::Pending));

    // The completion for show-B arrives and is shown.
    let applied = complete_show(&mut app, link("show-B"), Ok(show("show-B", "Show B")));
    assert!(applied);
    match info_view(&app) {
        Render::Content(wrapped) => {
            assert_eq!(wrapped.data.name, "Show B");
            assert_eq!(*wrapped.ctx, app.common_ctx);
        }
        _ => panic!("expected the content view"),
    }
}

#[test]
fn error_scenario_error_view_until_retrigger() {
    let mut app = fresh_app();

    trigger_load_detail(&mut app, link("show-C"));
    let applied = complete_show(&mut app, link("show-C"), Err(FetchError::NotFound));
    assert!(applied);
    assert_eq!(
        app.show_detail.show,
        Promise::Resolved(link("show-C"), Err(FetchError::NotFound))
    );
    match info_view(&app) {
        Render::Error(e) => assert_eq!(*e, FetchError::NotFound),
        _ => panic!("expected the error view"),
    }

    // Re-triggering the same key is the only recovery path: back to pending.
    trigger_load_detail(&mut app, link("show-C"));
    assert_eq!(app.show_detail.show, Promise::Deferred(link("show-C")));
    assert!(matches!(info_view(&app), Render::Pending));
}

#[test]
fn episodes_completion_is_paired_with_its_show() {
    let mut app = fresh_app();
    trigger_load_detail(&mut app, link("show-A"));
    assert!(matches!(episodes_view(&app), Render::Pending));

    let eps = vec![episode("e1", "One"), episode("e2", "Two")];
    let applied = complete_episodes(&mut app, link("show-A"), Ok(eps));
    assert!(applied);
    match episodes_view(&app) {
        Render::Content(wrapped) => {
            assert_eq!(wrapped.data.show, link("show-A"));
            assert_eq!(wrapped.data.episodes.len(), 2);
            assert_eq!(wrapped.data.episodes[0].name, "One");
            assert_eq!(wrapped.data.episodes[1].name, "Two");
        }
        _ => panic!("expected the content view"),
    }
    // The show promise is untouched by an episode completion.
    assert_eq!(app.show_detail.show, Promise::Deferred(link("show-A")));
}

#[test]
fn stale_episode_completion_is_dropped() {
    let mut app = fresh_app();
    trigger_load_detail(&mut app, link("show-A"));
    trigger_load_detail(&mut app, link("show-B"));
    let applied = complete_episodes(&mut app, link("show-A"), Ok(vec![episode("e", "E")]));
    assert!(!applied);
    assert_eq!(app.show_detail.episodes, Promise::Deferred(link("show-B")));
}

#[test]
fn bridge_step_routes_triggers_and_completions() {
    let mut p: Promise<ShowLink, Show, FetchError> = Promise::Empty;

    let a = step(&mut p, FetchEvent::Trigger(link("show-A")));
    assert_eq!(a, FetchAction::Start(link("show-A")));
    assert_eq!(p, Promise::Deferred(link("show-A")));

    let a = step(&mut p, FetchEvent::Completion(link("show-A"), Ok(show("show-A", "A"))));
    assert_eq!(a, FetchAction::Stay);
    assert_eq!(p, Promise::Resolved(link("show-A"), Ok(show("show-A", "A"))));

    // A completion never starts new outside work, applied or not.
    let a = step(&mut p, FetchEvent::Completion(link("show-Z"), Err(FetchError::Network)));
    assert_eq!(a, FetchAction::Stay);
    assert_eq!(p, Promise::Resolved(link("show-A"), Ok(show("show-A", "A"))));
}
