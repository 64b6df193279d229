//! Domain entities consumed by the core — shows, episodes, their detail
//! record — together with the concrete projections that mount the promise
//! container inside the surrounding application state.

use vstd::prelude::*;
use crate::lens::Projection;
use crate::lens::ReadProjection;
use crate::lens::Chain;
use crate::lens::independent;
use crate::ctx::CtxMap;
use core::marker::PhantomData;
use crate::promise::Promise;
use crate::promise::RequestKey;

verus! {

/// One cover image variant offered by the remote catalogue.
#[derive(Debug, Clone, PartialEq, Eq)]
pub struct Image {
    pub url: String,
    pub width: u32,
    pub height: u32,
}

/// A reference to a show: the request key used to fetch its detail.
#[derive(Debug, Clone, PartialEq, Eq)]
pub struct ShowLink {
    pub id: String,
}

impl View for ShowLink {
    type V = Seq<char>;

    open spec fn view(&self) -> Seq<char> {
        self.id@
    }
}

impl RequestKey for ShowLink {
    fn same(&self, other: &Self) -> (r: bool) {
        self.id.eq(&other.id)
    }

    fn dup(&self) -> (r: Self) {
        ShowLink { id: self.id.clone() }
    }
}

/// Whether an image variant is at least as large as the wanted size.
pub open spec fn adequate(img: Image, width: u32, height: u32) -> bool {
    img.width >= width && img.height >= height
}

/// The deep value of a borrowed optional image.
pub open spec fn deref_cover(r: Option<&Image>) -> Option<Image> {
    match r {
        Some(img) => Some(*img),
        None => None,
    }
}

/// The cover image to display at a wanted size, chosen from the variants of
/// one entity. The catalogue lists variants largest first, so the choice is
/// the last variant still at least as large as wanted; when none is large
/// enough, the first (largest) variant; nothing only when there are no
/// variants at all.
pub open spec fn cover_choice(images: Seq<Image>, width: u32, height: u32, r: Option<Image>) -> bool {
    &&& (r is None) <==> images.len() == 0
    &&& (r matches Some(img) ==> exists|i: int| 0 <= i < images.len() && img == images[i])
    &&& ((exists|i: int| 0 <= i < images.len() && adequate(images[i], width, height)) ==> (
    r matches Some(img) && exists|i: int|
        0 <= i < images.len() && img == images[i] && adequate(images[i], width, height) && (
        forall|j: int| i < j < images.len() ==> !adequate(images[j], width, height))))
    &&& ((images.len() > 0 && forall|i: int|
        0 <= i < images.len() ==> !adequate(images[i], width, height)) ==> r == Some(images[0]))
}

/// Pick the cover image for a wanted size, searching the variant list from
/// its end so the smallest adequate variant wins.
fn pick_cover(images: &Vec<Image>, width: u32, height: u32) -> (r: Option<&Image>)
    ensures
        cover_choice(images@, width, height, deref_cover(r)),
{
    let n = images.len();
    let mut i: usize = n;
    while i > 0
        invariant
            n == images@.len(),
            0 <= i <= n,
            forall|j: int| i <= j < n ==> !adequate(images@[j], width, height),
        decreases i,
    {
        i = i - 1;
        let img = &images[i];
        if img.width >= width && img.height >= height {
            return Some(img);
        }
    }
    if n > 0 {
        Some(&images[0])
    } else {
        None
    }
}

/// A show's metadata.
#[derive(Debug, Clone, PartialEq, Eq)]
pub struct Show {
    pub id: String,
    pub name: String,
    pub publisher: String,
    pub images: Vec<Image>,
}

impl Show {
    /// The request key identifying this show.
    pub fn link(&self) -> (r: ShowLink)
        ensures
            r.id == self.id,
    {
        ShowLink { id: self.id.clone() }
    }

    /// The cover image to display for this show at the wanted size.
    pub fn cover_image(&self, width: u32, height: u32) -> (r: Option<&Image>)
        ensures
            cover_choice(self.images@, width, height, deref_cover(r)),
    {
        pick_cover(&self.images, width, height)
    }

    /// The navigation destination an activated show row submits.
    pub fn nav_target(&self) -> (n: Nav)
        ensures
            n == (Nav::ShowDetail(ShowLink { id: self.id })),
    {
        Nav::ShowDetail(self.link())
    }
}

/// One episode of a show.
#[derive(Debug, Clone, PartialEq, Eq)]
pub struct Episode {
    pub id: String,
    pub name: String,
    pub description: String,
    pub images: Vec<Image>,
}

impl Episode {
    /// The cover image to display for this episode at the wanted size.
    pub fn cover_image(&self, width: u32, height: u32) -> (r: Option<&Image>)
        ensures
            cover_choice(self.images@, width, height, deref_cover(r)),
    {
        pick_cover(&self.images, width, height)
    }
}

/// A navigation destination submitted when a show row is activated.
#[derive(Debug, Clone, PartialEq, Eq)]
pub enum Nav {
    ShowDetail(ShowLink),
}

/// A fetched episode list, remembering which show it belongs to.
#[derive(Debug, Clone, PartialEq, Eq)]
pub struct ShowEpisodes {
    pub show: ShowLink,
    pub episodes: Vec<Episode>,
}

/// Terminal failure of a fetch. The core never inspects these beyond
/// routing them to the error view.
#[derive(Debug, Clone, PartialEq, Eq)]
pub enum FetchError {
    /// The network request itself failed.
    Network,
    /// The response could not be decoded.
    Decode,
    /// The requested resource does not exist.
    NotFound,
}

/// The set of shows the user follows.
#[derive(Debug, Clone, PartialEq, Eq)]
pub struct Library {
    pub shows: Vec<ShowLink>,
}

/// Whether a library holds a show with the given identity.
pub open spec fn library_contains(shows: Seq<ShowLink>, id: Seq<char>) -> bool {
    exists|i: int| 0 <= i < shows.len() && shows[i].id@ == id
}

impl Library {
    /// Membership test driving the follow/unfollow choice.
    pub fn contains_show(&self, show: &Show) -> (r: bool)
        ensures
            r == library_contains(self.shows@, show.id@),
    {
        let n = self.shows.len();
        let mut i: usize = 0;
        while i < n
            invariant
                n == self.shows@.len(),
                0 <= i <= n,
                forall|j: int| 0 <= j < i ==> self.shows@[j].id@ != show.id@,
            decreases n - i,
        {
            if self.shows[i].id.eq(&show.id) {
                return true;
            }
            i = i + 1;
        }
        false
    }
}

/// Shared, read-mostly context handed to leaf renderers.
#[derive(Debug, Clone, PartialEq, Eq)]
pub struct CommonCtx {
    pub library: Library,
}

/// The detail record of the show currently on screen: one promise for the
/// show's metadata, one for its episode list.
#[derive(Debug, PartialEq, Eq)]
pub struct ShowDetail {
    pub show: Promise<ShowLink, Show, FetchError>,
    pub episodes: Promise<ShowLink, ShowEpisodes, FetchError>,
}

impl ShowDetail {
    /// A fresh detail record: nothing fetched yet. Navigating away from a
    /// show replaces the on-screen record with this, discarding both
    /// promises.
    pub fn empty() -> (r: Self)
        ensures
            r.show is Empty,
            r.episodes is Empty,
    {
        ShowDetail { show: Promise::Empty, episodes: Promise::Empty }
    }
}

/// The surrounding application state that detail views are mounted into.
#[derive(Debug, PartialEq, Eq)]
pub struct AppState {
    pub common_ctx: CommonCtx,
    pub show_detail: ShowDetail,
}

/// Field projection: the shared context of the application state.
pub struct AppCommonCtx;

impl Projection for AppCommonCtx {
    type Root = AppState;

    type Part = CommonCtx;

    open spec fn wf(&self) -> bool {
        true
    }

    open spec fn pget(&self, a: AppState) -> CommonCtx {
        a.common_ctx
    }

    open spec fn pput(&self, a: AppState, b: CommonCtx) -> AppState {
        AppState { common_ctx: b, show_detail: a.show_detail }
    }

    proof fn law_put_get(&self, a: AppState, b: CommonCtx) {
    }

    proof fn law_get_put(&self, a: AppState) {
    }

    fn set(&self, a: &mut AppState, b: CommonCtx) {
        a.common_ctx = b;
    }
}

impl ReadProjection for AppCommonCtx {
    fn read<'a>(&self, a: &'a AppState) -> (r: &'a CommonCtx) {
        &a.common_ctx
    }

    fn read_mut<'a>(&self, a: &'a mut AppState) -> (r: &'a mut CommonCtx) {
        &mut a.common_ctx
    }
}

/// Field projection: the detail record of the application state.
pub struct AppShowDetail;

impl Projection for AppShowDetail {
    type Root = AppState;

    type Part = ShowDetail;

    open spec fn wf(&self) -> bool {
        true
    }

    open spec fn pget(&self, a: AppState) -> ShowDetail {
        a.show_detail
    }

    open spec fn pput(&self, a: AppState, b: ShowDetail) -> AppState {
        AppState { common_ctx: a.common_ctx, show_detail: b }
    }

    proof fn law_put_get(&self, a: AppState, b: ShowDetail) {
    }

    proof fn law_get_put(&self, a: AppState) {
    }

    fn set(&self, a: &mut AppState, b: ShowDetail) {
        a.show_detail = b;
    }
}

impl ReadProjection for AppShowDetail {
    fn read<'a>(&self, a: &'a AppState) -> (r: &'a ShowDetail) {
        &a.show_detail
    }

    fn read_mut<'a>(&self, a: &'a mut AppState) -> (r: &'a mut ShowDetail) {
        &mut a.show_detail
    }
}

/// Field projection: the show-metadata promise of a detail record.
pub struct DetailShow;

impl Projection for DetailShow {
    type Root = ShowDetail;

    type Part = Promise<ShowLink, Show, FetchError>;

    open spec fn wf(&self) -> bool {
        true
    }

    open spec fn pget(&self, a: ShowDetail) -> Promise<ShowLink, Show, FetchError> {
        a.show
    }

    open spec fn pput(&self, a: ShowDetail, b: Promise<ShowLink, Show, FetchError>) -> ShowDetail {
        ShowDetail { show: b, episodes: a.episodes }
    }

    proof fn law_put_get(&self, a: ShowDetail, b: Promise<ShowLink, Show, FetchError>) {
    }

    proof fn law_get_put(&self, a: ShowDetail) {
    }

    fn set(&self, a: &mut ShowDetail, b: Promise<ShowLink, Show, FetchError>) {
        a.show = b;
    }
}

impl ReadProjection for DetailShow {
    fn read<'a>(&self, a: &'a ShowDetail) -> (r: &'a Promise<ShowLink, Show, FetchError>) {
        &a.show
    }

    fn read_mut<'a>(&self, a: &'a mut ShowDetail) -> (r: &'a mut Promise<ShowLink, Show, FetchError>) {
        &mut a.show
    }
}

/// Field projection: the episode-list promise of a detail record.
pub struct DetailEpisodes;

impl Projection for DetailEpisodes {
    type Root = ShowDetail;

    type Part = Promise<ShowLink, ShowEpisodes, FetchError>;

    open spec fn wf(&self) -> bool {
        true
    }

    open spec fn pget(&self, a: ShowDetail) -> Promise<ShowLink, ShowEpisodes, FetchError> {
        a.episodes
    }

    open spec fn pput(&self, a: ShowDetail, b: Promise<ShowLink, ShowEpisodes, FetchError>) -> ShowDetail {
        ShowDetail { show: a.show, episodes: b }
    }

    proof fn law_put_get(&self, a: ShowDetail, b: Promise<ShowLink, ShowEpisodes, FetchError>) {
    }

    proof fn law_get_put(&self, a: ShowDetail) {
    }

    fn set(&self, a: &mut ShowDetail, b: Promise<ShowLink, ShowEpisodes, FetchError>) {
        a.episodes = b;
    }
}

impl ReadProjection for DetailEpisodes {
    fn read<'a>(&self, a: &'a ShowDetail) -> (r: &'a Promise<ShowLink, ShowEpisodes, FetchError>) {
        &a.episodes
    }

    fn read_mut<'a>(&self, a: &'a mut ShowDetail) -> (r: &'a mut Promise<ShowLink, ShowEpisodes, FetchError>) {
        &mut a.episodes
    }
}

/// Field projection: the episode list of a fetched episode record.
pub struct EpisodesOfShow;

impl Projection for EpisodesOfShow {
    type Root = ShowEpisodes;

    type Part = Vec<Episode>;

    open spec fn wf(&self) -> bool {
        true
    }

    open spec fn pget(&self, a: ShowEpisodes) -> Vec<Episode> {
        a.episodes
    }

    open spec fn pput(&self, a: ShowEpisodes, b: Vec<Episode>) -> ShowEpisodes {
        ShowEpisodes { show: a.show, episodes: b }
    }

    proof fn law_put_get(&self, a: ShowEpisodes, b: Vec<Episode>) {
    }

    proof fn law_get_put(&self, a: ShowEpisodes) {
    }

    fn set(&self, a: &mut ShowEpisodes, b: Vec<Episode>) {
        a.episodes = b;
    }
}

impl ReadProjection for EpisodesOfShow {
    fn read<'a>(&self, a: &'a ShowEpisodes) -> (r: &'a Vec<Episode>) {
        &a.episodes
    }

    fn read_mut<'a>(&self, a: &'a mut ShowEpisodes) -> (r: &'a mut Vec<Episode>) {
        &mut a.episodes
    }
}

/// The projection that narrows a context-wrapped episode record to the
/// context-wrapped episode list, for the list view to iterate over.
pub fn episode_list_lens() -> (r: CtxMap<CommonCtx, EpisodesOfShow>)
    ensures
        r.inner == EpisodesOfShow,
        r.wf(),
{
    CtxMap { inner: EpisodesOfShow, marker: PhantomData }
}

/// The chained projection from the application state to the show-metadata
/// promise.
pub fn show_promise_lens() -> (r: Chain<AppShowDetail, DetailShow>)
    ensures
        r == (Chain { first: AppShowDetail, second: DetailShow }),
        r.wf(),
{
    Chain { first: AppShowDetail, second: DetailShow }
}

/// The chained projection from the application state to the episode-list
/// promise.
pub fn episodes_promise_lens() -> (r: Chain<AppShowDetail, DetailEpisodes>)
    ensures
        r == (Chain { first: AppShowDetail, second: DetailEpisodes }),
        r.wf(),
{
    Chain { first: AppShowDetail, second: DetailEpisodes }
}

/// The shared context and either promise are independent: writing the
/// promise never disturbs the context, and writing the context never
/// disturbs the promise. This is what makes pairing them into a context
/// wrapper lawful.
pub proof fn lemma_ctx_independent_of_show_promise()
    ensures
        independent(AppCommonCtx, Chain { first: AppShowDetail, second: DetailShow }),
        independent(AppCommonCtx, Chain { first: AppShowDetail, second: DetailEpisodes }),
{
}

} // verus!
