//! The show detail screen's state logic: mounting the two promises of the
//! detail record through projections, selecting their sub-views, and the
//! trigger/completion handlers the dispatch loop calls for the load-detail
//! command.

use vstd::prelude::*;
use crate::bridge::FetchAction;
use crate::bridge::on_complete;
use crate::bridge::on_trigger;
use crate::ctx::Ctx;
use crate::ctx::CtxMake;
use crate::data::AppCommonCtx;
use crate::data::AppState;
use crate::data::CommonCtx;
use crate::data::Episode;
use crate::data::FetchError;
use crate::data::Show;
use crate::data::ShowEpisodes;
use crate::data::ShowLink;
use crate::data::episodes_promise_lens;
use crate::data::show_promise_lens;
use crate::promise::Promise;
use crate::promise::RequestKey;
use crate::promise::accepts;
use crate::promise::after_update;
use crate::render::Render;
use crate::render::select_view_with_ctx;
use crate::render::selection;

verus! {

/// The sub-view of the show-metadata area: pending, the show wrapped with
/// the shared context, or the fetch error.
pub fn info_view<'a>(app: &'a AppState) -> (v: Render<Ctx<&'a CommonCtx, &'a Show>, &'a FetchError>)
    ensures
        match selection(app.show_detail.show) {
            Render::Pending => v is Pending,
            Render::Content(payload) => (v matches Render::Content(w) && *w.ctx == app.common_ctx
                && *w.data == payload),
            Render::Error(e) => (v matches Render::Error(err) && *err == e),
        },
{
    let mount = CtxMake { ctx_part: AppCommonCtx, data_part: show_promise_lens() };
    let wrapped = mount.read_parts(app);
    select_view_with_ctx(wrapped.ctx, wrapped.data)
}

/// The sub-view of the episode-list area: pending, the fetched episode list
/// wrapped with the shared context, or the fetch error.
pub fn episodes_view<'a>(app: &'a AppState) -> (v: Render<
    Ctx<&'a CommonCtx, &'a ShowEpisodes>,
    &'a FetchError,
>)
    ensures
        match selection(app.show_detail.episodes) {
            Render::Pending => v is Pending,
            Render::Content(payload) => (v matches Render::Content(w) && *w.ctx == app.common_ctx
                && *w.data == payload),
            Render::Error(e) => (v matches Render::Error(err) && *err == e),
        },
{
    let mount = CtxMake { ctx_part: AppCommonCtx, data_part: episodes_promise_lens() };
    let wrapped = mount.read_parts(app);
    select_view_with_ctx(wrapped.ctx, wrapped.data)
}

/// Handle the load-detail trigger: both promises of the detail record are
/// marked deferred for the key synchronously, and the caller is told to
/// start one metadata fetch and one episode-list fetch for the same key.
pub fn trigger_load_detail(app: &mut AppState, link: ShowLink) -> (actions: (
    FetchAction<ShowLink>,
    FetchAction<ShowLink>,
))
    ensures
        final(app).common_ctx == old(app).common_ctx,
        final(app).show_detail.show == Promise::<ShowLink, Show, FetchError>::Deferred(link),
        final(app).show_detail.episodes == Promise::<
            ShowLink,
            ShowEpisodes,
            FetchError,
        >::Deferred(link),
        actions.0 == FetchAction::Start(link),
        actions.1 == FetchAction::Start(link),
{
    let episodes_key = link.dup();
    let a0 = on_trigger(&mut app.show_detail.show, link);
    let a1 = on_trigger(&mut app.show_detail.episodes, episodes_key);
    (a0, a1)
}

/// Reconcile a show-metadata completion into the detail record. The rest of
/// the application state is untouched, and a stale completion changes
/// nothing at all.
pub fn complete_show(
    app: &mut AppState,
    key: ShowLink,
    result: Result<Show, FetchError>,
) -> (applied: bool)
    ensures
        applied == accepts(old(app).show_detail.show, key),
        final(app).show_detail.show == after_update(old(app).show_detail.show, key, result),
        final(app).show_detail.episodes == old(app).show_detail.episodes,
        final(app).common_ctx == old(app).common_ctx,
{
    on_complete(&mut app.show_detail.show, key, result)
}

/// What an episode-list completion stores on success: the episodes together
/// with the key of the show they belong to.
pub open spec fn episodes_payload(key: ShowLink, result: Result<Vec<Episode>, FetchError>) -> Result<
    ShowEpisodes,
    FetchError,
> {
    match result {
        Ok(episodes) => Ok(ShowEpisodes { show: key, episodes }),
        Err(e) => Err(e),
    }
}

/// Reconcile an episode-list completion into the detail record: a successful
/// result is first paired with the show it was fetched for, then reconciled
/// under the same staleness rule as any completion.
pub fn complete_episodes(
    app: &mut AppState,
    key: ShowLink,
    result: Result<Vec<Episode>, FetchError>,
) -> (applied: bool)
    ensures
        applied == accepts(old(app).show_detail.episodes, key),
        final(app).show_detail.episodes == after_update(
            old(app).show_detail.episodes,
            key,
            episodes_payload(key, result),
        ),
        final(app).show_detail.show == old(app).show_detail.show,
        final(app).common_ctx == old(app).common_ctx,
{
    let mapped: Result<ShowEpisodes, FetchError> = match result {
        Ok(episodes) => Ok(ShowEpisodes { show: key.dup(), episodes }),
        Err(e) => Err(e),
    };
    on_complete(&mut app.show_detail.episodes, key, mapped)
}

} // verus!
