//! Walking one feed to its end.
//!
//! A [`FeedPager`] is the state of a walk. [`FeedPager::request`] says what to
//! ask the service next, and [`FeedPager::advance`] takes the reply and either
//! gives the state from which to go on or ends the walk with the records
//! collected or a failure. The caller sends the requests.

use crate::json::{json_text_tree, parse};
use crate::notify::{DeleteProtocol, FetchError, Notify};
use crate::page::{page_of, read_page, FeedKind, PageItem, PageModel, PageRead, PageReadModel};
use crate::wire::{
    number, pair_models, push_number, push_text, text, Method, Pair, PairModel, Reply, Request,
    RequestModel,
};
use std::collections::HashMap;
use vstd::prelude::*;

verus! {

/// Where a walk stands.
#[derive(Clone, Copy, Debug, PartialEq, Eq, Structural)]
pub enum Stage {
    /// The first page is still to be read.
    Seed,
    /// The primary system endpoint had no list; the first page is to be read
    /// from the secondary one.
    Fallback,
    /// The first page was read; later pages follow the cursor.
    Paging,
}

/// The state of a walk over one feed.
#[derive(Clone, Debug, PartialEq, Eq)]
pub struct FeedPager {
    pub kind: FeedKind,
    pub stage: Stage,
    /// The tag that the records of this walk get.
    pub protocol: DeleteProtocol,
    /// The session credential; only the system feed sends it.
    pub csrf: String,
    /// The continuation id of the last page read (generic feeds).
    pub cursor_id: u64,
    /// The value of the last item read that the next request echoes.
    pub last: u64,
    /// The records collected so far, by id.
    pub records: HashMap<u64, Notify>,
}

/// The model of a [`FeedPager`].
pub struct PagerModel {
    pub kind: FeedKind,
    pub stage: Stage,
    pub protocol: DeleteProtocol,
    pub csrf: Seq<char>,
    pub cursor_id: u64,
    pub last: u64,
    pub records: Map<u64, Notify>,
}

impl View for FeedPager {
    type V = PagerModel;

    open spec fn view(&self) -> PagerModel {
        PagerModel {
            kind: self.kind,
            stage: self.stage,
            protocol: self.protocol,
            csrf: self.csrf@,
            cursor_id: self.cursor_id,
            last: self.last,
            records: self.records@,
        }
    }
}

/// What a reply does to a walk.
#[derive(Debug, PartialEq, Eq)]
pub enum FeedStep {
    /// The walk goes on from this state.
    Next(FeedPager),
    /// The walk is over.
    Done(Result<HashMap<u64, Notify>, FetchError>),
}

/// The model of a [`FeedStep`].
pub enum StepModel {
    Next(PagerModel),
    Done(Result<Map<u64, Notify>, FetchError>),
}

impl View for FeedStep {
    type V = StepModel;

    open spec fn view(&self) -> StepModel {
        match *self {
            FeedStep::Next(pager) => StepModel::Next(pager@),
            FeedStep::Done(Ok(records)) => StepModel::Done(Ok(records@)),
            FeedStep::Done(Err(failure)) => StepModel::Done(Err(failure)),
        }
    }
}

/// The state in which a walk over feed `kind` starts.
pub open spec fn start(kind: FeedKind, csrf: Seq<char>) -> PagerModel {
    PagerModel {
        kind,
        stage: Stage::Seed,
        protocol: if kind == FeedKind::System {
            DeleteProtocol::SystemPrimary
        } else {
            DeleteProtocol::Generic
        },
        csrf,
        cursor_id: 0,
        last: 0,
        records: Map::empty(),
    }
}

/// The address that a walk asks next.
pub open spec fn endpoint(kind: FeedKind, stage: Stage) -> Seq<char> {
    match kind {
        FeedKind::Liked => "https://api.bilibili.com/x/msgfeed/like"@,
        FeedKind::Replied => "https://api.bilibili.com/x/msgfeed/reply"@,
        FeedKind::Mentioned => "https://api.bilibili.com/x/msgfeed/at"@,
        FeedKind::System => match stage {
            Stage::Seed => "https://message.bilibili.com/x/sys-msg/query_user_notify"@,
            Stage::Fallback => "https://message.bilibili.com/x/sys-msg/query_unified_notify"@,
            Stage::Paging => "https://message.bilibili.com/x/sys-msg/query_notify_list"@,
        },
    }
}

/// The query string of a generic feed's first request.
pub open spec fn generic_query(kind: FeedKind) -> Seq<PairModel> {
    if kind == FeedKind::Mentioned {
        seq![number("build"@, 0), text("mobi_app"@, "web"@)]
    } else {
        seq![text("platform"@, "web"@), number("build"@, 0), text("mobi_app"@, "web"@)]
    }
}

/// The query string that a walk asks next. A generic feed's later requests add
/// the cursor's id and the echoed value to those of the first. The system
/// feed's first request goes out with the credential and a page size, a later
/// one with the credential and the cursor value of the last item.
pub open spec fn query_of(pager: PagerModel) -> Seq<PairModel> {
    match pager.kind {
        FeedKind::System => match pager.stage {
            Stage::Seed => seq![
                text("csrf"@, pager.csrf),
                text("csrf"@, pager.csrf),
                number("page_size"@, 20),
                number("build"@, 0),
                text("mobi_app"@, "web"@),
            ],
            Stage::Fallback => seq![
                text("csrf"@, pager.csrf),
                text("csrf"@, pager.csrf),
                number("page_size"@, 10),
                number("build"@, 0),
                text("mobi_app"@, "web"@),
            ],
            Stage::Paging => seq![
                text("csrf"@, pager.csrf),
                number("data_type"@, 1),
                number("cursor"@, pager.last),
                number("build"@, 0),
                text("mobi_app"@, "web"@),
            ],
        },
        _ => if pager.stage == Stage::Paging {
            generic_query(pager.kind).push(number("id"@, pager.cursor_id)).push(
                number(pager.kind.spec_last_field(), pager.last),
            )
        } else {
            generic_query(pager.kind)
        },
    }
}

/// The request that a walk asks next.
pub open spec fn request_of(pager: PagerModel) -> RequestModel {
    RequestModel {
        method: Method::Get,
        url: endpoint(pager.kind, pager.stage),
        query: query_of(pager),
        body: seq![],
    }
}

/// The record that an item becomes.
pub open spec fn record_of(item: PageItem, protocol: DeleteProtocol) -> Notify {
    Notify { tp: item.tp, is_selected: false, protocol }
}

/// The collection after the items were put in one by one: an item takes the
/// place of whatever was held under its id.
pub open spec fn with_items(
    records: Map<u64, Notify>,
    items: Seq<PageItem>,
    protocol: DeleteProtocol,
) -> Map<u64, Notify>
    decreases items.len(),
{
    if items.len() == 0 {
        records
    } else {
        with_items(records, items.drop_last(), protocol).insert(
            items.last().id,
            record_of(items.last(), protocol),
        )
    }
}

/// What a page that holds items does to a walk, the items already put in.
pub open spec fn after_items(
    pager: PagerModel,
    page: PageModel,
    records: Map<u64, Notify>,
) -> StepModel {
    if pager.kind == FeedKind::System {
        match page.last {
            Some(last) => StepModel::Next(
                PagerModel { stage: Stage::Paging, last, records, ..pager },
            ),
            None => StepModel::Done(Err(FetchError::ParseError)),
        }
    } else {
        match page.is_end {
            None => StepModel::Done(Err(FetchError::ParseError)),
            Some(true) => StepModel::Done(Ok(records)),
            Some(false) => match (page.cursor_id, page.last) {
                (Some(cursor_id), Some(last)) => StepModel::Next(
                    PagerModel { stage: Stage::Paging, cursor_id, last, records, ..pager },
                ),
                _ => StepModel::Done(Err(FetchError::ParseError)),
            },
        }
    }
}

/// What a response, read as a page, does to a walk.
///
/// - A malformed response ends the walk with [`FetchError::ParseError`].
/// - A first system page without a list sends the walk to the secondary
///   endpoint, once, and tags its records for it; without a list there too the
///   walk ends with [`FetchError::EmptyFeed`].
/// - A first page without items ends the walk with [`FetchError::EmptyFeed`].
/// - A later page without items ends the walk with the records collected.
/// - A page with items adds them. A generic feed then ends where the cursor
///   says so and else goes on from the cursor; the system feed goes on from
///   the last item. A cursor that lacks what is needed ends the walk with
///   [`FetchError::ParseError`].
pub open spec fn step(pager: PagerModel, read: PageReadModel) -> StepModel {
    match read {
        PageReadModel::Malformed => StepModel::Done(Err(FetchError::ParseError)),
        PageReadModel::Absent => if pager.kind == FeedKind::System && pager.stage == Stage::Seed {
            StepModel::Next(
                PagerModel {
                    stage: Stage::Fallback,
                    protocol: DeleteProtocol::SystemSecondary,
                    ..pager
                },
            )
        } else if pager.stage == Stage::Fallback {
            StepModel::Done(Err(FetchError::EmptyFeed))
        } else {
            StepModel::Done(Err(FetchError::ParseError))
        },
        PageReadModel::Page(page) => if page.items.len() == 0 {
            if pager.stage == Stage::Paging {
                StepModel::Done(Ok(pager.records))
            } else {
                StepModel::Done(Err(FetchError::EmptyFeed))
            }
        } else {
            after_items(pager, page, with_items(pager.records, page.items, pager.protocol))
        },
    }
}

/// What a reply does to a walk: a failed call ends it with
/// [`FetchError::TransportError`], a body that is no JSON document with
/// [`FetchError::ParseError`]; any other body is read as a page.
pub open spec fn reply_step(pager: PagerModel, reply: Reply) -> StepModel {
    match reply {
        Reply::Failed(_) => StepModel::Done(Err(FetchError::TransportError)),
        Reply::Body(body) => match json_text_tree(body@) {
            None => StepModel::Done(Err(FetchError::ParseError)),
            Some(root) => step(pager, page_of(pager.kind, pager.stage != Stage::Paging, root)),
        },
    }
}

/// A walk whose first page holds no items ends with [`FetchError::EmptyFeed`],
/// whichever feed it walks and whatever else the page says.
pub proof fn lemma_empty_first_page_fails(pager: PagerModel, page: PageModel)
    requires
        pager.stage != Stage::Paging,
        page.items.len() == 0,
    ensures
        step(pager, PageReadModel::Page(page)) == StepModel::Done(
            Err::<Map<u64, Notify>, FetchError>(FetchError::EmptyFeed),
        ),
{
}

/// The first reply never ends a walk well with nothing in hand: where the walk
/// ends with records after one reply, the last item of the page is among them.
pub proof fn lemma_first_page_success_holds_records(
    kind: FeedKind,
    csrf: Seq<char>,
    read: PageReadModel,
)
    ensures
        step(start(kind, csrf), read) matches StepModel::Done(Ok(records)) ==> read
            matches PageReadModel::Page(page) && page.items.len() > 0 && records.contains_key(
            page.items.last().id,
        ),
{
}

/// The last item of a run that carries `id`, if one does.
pub open spec fn last_with(items: Seq<PageItem>, id: u64) -> Option<PageItem>
    decreases items.len(),
{
    if items.len() == 0 {
        None
    } else if items.last().id == id {
        Some(items.last())
    } else {
        last_with(items.drop_last(), id)
    }
}

/// [`last_with`] finds an item of the run that carries the id, and finds none
/// only where no item carries it.
pub proof fn lemma_last_with(items: Seq<PageItem>, id: u64)
    ensures
        last_with(items, id) matches Some(item) ==> item.id == id && items.contains(item),
        last_with(items, id) is None ==> forall|i: int|
            0 <= i < items.len() ==> (#[trigger] items[i]).id != id,
    decreases items.len(),
{
    if items.len() > 0 {
        let rest = items.drop_last();
        lemma_last_with(rest, id);
        if items.last().id == id {
            assert(items[items.len() - 1] == items.last());
        } else {
            if last_with(rest, id) is Some {
                let item = last_with(rest, id)->Some_0;
                let i = choose|i: int| 0 <= i < rest.len() && rest[i] == item;
                assert(items[i] == item);
            } else {
                assert forall|i: int| 0 <= i < items.len() implies (#[trigger] items[i]).id
                    != id by {
                    if i < rest.len() {
                        assert(rest[i] == items[i]);
                    }
                }
            }
        }
    }
}

/// What the collection holds after a run of items was put in: an id is held
/// exactly when it was held before or an item carries it; under an id that
/// items carry stands the record of the last of them, under any other id the
/// record that stood there before.
pub proof fn lemma_with_items_exact(
    records: Map<u64, Notify>,
    items: Seq<PageItem>,
    protocol: DeleteProtocol,
    id: u64,
)
    ensures
        with_items(records, items, protocol).contains_key(id) <==> records.contains_key(id)
            || last_with(items, id) is Some,
        with_items(records, items, protocol)[id] == match last_with(items, id) {
            Some(item) => record_of(item, protocol),
            None => records[id],
        },
    decreases items.len(),
{
    if items.len() > 0 {
        lemma_with_items_exact(records, items.drop_last(), protocol, id);
    }
}

/// Items with ids that differ from one another give as many records as there
/// are items.
pub proof fn lemma_distinct_items_count(items: Seq<PageItem>, protocol: DeleteProtocol)
    requires
        forall|i: int, j: int|
            0 <= i < j < items.len() ==> (#[trigger] items[i]).id != (#[trigger] items[j]).id,
    ensures
        with_items(Map::empty(), items, protocol).dom().finite(),
        with_items(Map::empty(), items, protocol).len() == items.len(),
    decreases items.len(),
{
    if items.len() > 0 {
        let rest = items.drop_last();
        let last = items.last();
        assert forall|i: int, j: int| 0 <= i < j < rest.len() implies (#[trigger] rest[i]).id != (
        #[trigger] rest[j]).id by {
            assert(rest[i] == items[i]);
            assert(rest[j] == items[j]);
        }
        lemma_distinct_items_count(rest, protocol);
        lemma_with_items_exact(Map::empty(), rest, protocol, last.id);
        lemma_last_with(rest, last.id);
        if last_with(rest, last.id) is Some {
            let item = last_with(rest, last.id)->Some_0;
            let i = choose|i: int| 0 <= i < rest.len() && rest[i] == item;
            assert(items[i].id == items[items.len() - 1].id);
        }
        assert(!with_items(Map::empty(), rest, protocol).contains_key(last.id));
    }
}

/// Putting in one run of items and then another is putting in the two runs
/// joined.
pub proof fn lemma_with_items_joined(
    records: Map<u64, Notify>,
    first: Seq<PageItem>,
    second: Seq<PageItem>,
    protocol: DeleteProtocol,
)
    ensures
        with_items(with_items(records, first, protocol), second, protocol) == with_items(
            records,
            first + second,
            protocol,
        ),
    decreases second.len(),
{
    if second.len() == 0 {
        assert(first + second =~= first);
    } else {
        lemma_with_items_joined(records, first, second.drop_last(), protocol);
        assert((first + second).drop_last() =~= first + second.drop_last());
    }
}

/// What a walk has come to after the responses `reads`, taken in one after the
/// other: the state from which it goes on, or its end, which later responses
/// do not change.
pub open spec fn walk(pager: PagerModel, reads: Seq<PageReadModel>) -> StepModel
    decreases reads.len(),
{
    if reads.len() == 0 {
        StepModel::Next(pager)
    } else {
        match walk(pager, reads.drop_last()) {
            StepModel::Next(before) => step(before, reads.last()),
            StepModel::Done(end) => StepModel::Done(end),
        }
    }
}

/// The items of a run of pages, in order.
pub open spec fn all_items(pages: Seq<PageModel>) -> Seq<PageItem>
    decreases pages.len(),
{
    if pages.len() == 0 {
        Seq::empty()
    } else {
        all_items(pages.drop_last()) + pages.last().items
    }
}

/// The responses that are these pages.
pub open spec fn as_reads(pages: Seq<PageModel>) -> Seq<PageReadModel> {
    Seq::new(pages.len(), |i: int| PageReadModel::Page(pages[i]))
}

/// Whether a page holds items and says where the next page starts.
pub open spec fn asks_for_more(kind: FeedKind, page: PageModel) -> bool {
    &&& page.items.len() > 0
    &&& page.last is Some
    &&& kind != FeedKind::System ==> page.is_end == Some(false) && page.cursor_id is Some
}

/// Whether a page is the last of its feed: a page of a generic feed whose
/// cursor says so, or a page without items that is not the first.
pub open spec fn closes(kind: FeedKind, page: PageModel, first: bool) -> bool {
    if page.items.len() == 0 {
        !first
    } else {
        kind != FeedKind::System && page.is_end == Some(true)
    }
}

/// Where a walk stands after the first `k` of a run of pages that all ask for
/// more: it goes on, from the cursor of the page before, with the items of all
/// `k` pages in hand.
pub proof fn lemma_walk_goes_on(pager: PagerModel, pages: Seq<PageModel>, k: int)
    requires
        pager.stage != Stage::Paging,
        0 <= k <= pages.len(),
        forall|i: int| 0 <= i < k ==> asks_for_more(pager.kind, #[trigger] pages[i]),
    ensures
        walk(pager, as_reads(pages).take(k)) matches StepModel::Next(now) && {
            &&& now.kind == pager.kind
            &&& now.protocol == pager.protocol
            &&& now.csrf == pager.csrf
            &&& now.records == with_items(pager.records, all_items(pages.take(k)), pager.protocol)
            &&& k == 0 ==> now == pager
            &&& k > 0 ==> now.stage == Stage::Paging && now.last == pages[k - 1].last->Some_0
            &&& k > 0 && pager.kind != FeedKind::System ==> now.cursor_id == pages[k
                - 1].cursor_id->Some_0
        },
    decreases k,
{
    let reads = as_reads(pages);
    if k == 0 {
        assert(reads.take(0).len() == 0);
        assert(pages.take(0).len() == 0);
    } else {
        lemma_walk_goes_on(pager, pages, k - 1);
        assert(reads.take(k).drop_last() =~= reads.take(k - 1));
        assert(reads.take(k).last() == PageReadModel::Page(pages[k - 1]));
        assert(pages.take(k).drop_last() =~= pages.take(k - 1));
        assert(pages.take(k).last() == pages[k - 1]);
        lemma_with_items_joined(
            pager.records,
            all_items(pages.take(k - 1)),
            pages[k - 1].items,
            pager.protocol,
        );
    }
}

/// A walk collects every page. Over a run of pages of which each but the last
/// asks for more and the last closes the feed, a walk makes one request for
/// each page, neither fewer nor more, and ends with what it held at its start
/// and the items of all the pages, put in in order.
pub proof fn lemma_walk_collects_every_page(pager: PagerModel, pages: Seq<PageModel>)
    requires
        pager.stage != Stage::Paging,
        pages.len() > 0,
        forall|i: int| 0 <= i < pages.len() - 1 ==> asks_for_more(pager.kind, #[trigger] pages[i]),
        closes(pager.kind, pages.last(), pages.len() == 1),
    ensures
        forall|k: int|
            0 <= k < pages.len() ==> (#[trigger] walk(pager, as_reads(pages).take(k))) is Next,
        walk(pager, as_reads(pages)) == StepModel::Done(
            Ok::<Map<u64, Notify>, FetchError>(
                with_items(pager.records, all_items(pages), pager.protocol),
            ),
        ),
{
    let reads = as_reads(pages);
    let n = pages.len() as int;
    assert forall|k: int| 0 <= k < n implies (#[trigger] walk(pager, reads.take(k))) is Next by {
        lemma_walk_goes_on(pager, pages, k);
    }
    lemma_walk_goes_on(pager, pages, n - 1);
    assert(reads.drop_last() =~= reads.take(n - 1));
    assert(reads.last() == PageReadModel::Page(pages[n - 1]));
    assert(pages.drop_last() =~= pages.take(n - 1));
    lemma_with_items_joined(
        pager.records,
        all_items(pages.take(n - 1)),
        pages[n - 1].items,
        pager.protocol,
    );
    if pages[n - 1].items.len() == 0 {
        assert(all_items(pages.take(n - 1)) + pages[n - 1].items =~= all_items(pages.take(n - 1)));
    }
}

/// The system feed falls back once, and only from its first request. When the
/// primary endpoint has no list, the walk turns to the secondary endpoint and
/// tags its records for it. Whatever the secondary endpoint answers, the walk
/// then either ends or goes on to the continuation endpoint; it ends with
/// [`FetchError::EmptyFeed`] where that answer has no list either.
pub proof fn lemma_system_fallback(pager: PagerModel, read: PageReadModel)
    requires
        pager.kind == FeedKind::System,
        pager.stage == Stage::Seed,
    ensures
        request_of(pager).url == endpoint(FeedKind::System, Stage::Seed),
        step(pager, PageReadModel::Absent) matches StepModel::Next(second) && {
            &&& second.stage == Stage::Fallback
            &&& second.protocol == DeleteProtocol::SystemSecondary
            &&& second.records == pager.records
            &&& request_of(second).url == endpoint(FeedKind::System, Stage::Fallback)
            &&& step(second, PageReadModel::Absent) == StepModel::Done(
                Err::<Map<u64, Notify>, FetchError>(FetchError::EmptyFeed),
            )
            &&& step(second, read) matches StepModel::Next(third) ==> third.stage == Stage::Paging
                && third.protocol == DeleteProtocol::SystemSecondary && request_of(third).url
                == endpoint(FeedKind::System, Stage::Paging)
        },
{
}

/// No walk asks for a first page twice: a reply leads to the continuation
/// stage, or ends the walk, or is the one fallback of the system feed.
pub proof fn lemma_first_request_is_not_repeated(pager: PagerModel, read: PageReadModel)
    ensures
        step(pager, read) matches StepModel::Next(next) ==> {
            &&& next.kind == pager.kind
            &&& next.csrf == pager.csrf
            &&& next.stage != Stage::Seed
            &&& next.stage == Stage::Fallback ==> pager.kind == FeedKind::System && pager.stage
                == Stage::Seed && read is Absent
        },
{
}

/// Puts the items of a page into the collection.
fn put_items(records: &mut HashMap<u64, Notify>, items: &Vec<PageItem>, protocol: DeleteProtocol)
    ensures
        final(records)@ == with_items(old(records)@, items@, protocol),
{
    broadcast use vstd::std_specs::hash::group_hash_axioms;

    let mut i: usize = 0;
    while i < items.len()
        invariant
            i <= items.len(),
            records@ == with_items(old(records)@, items@.take(i as int), protocol),
        decreases items.len() - i,
    {
        let item = items[i];
        records.insert(item.id, Notify { tp: item.tp, is_selected: false, protocol });
        proof {
            assert(items@.take(i + 1).drop_last() =~= items@.take(i as int));
        }
        i += 1;
    }
    assert(items@.take(i as int) =~= items@);
}

impl FeedPager {
    /// The state in which a walk over feed `kind` starts. `csrf` is the
    /// session credential, which only the system feed sends.
    pub fn new(kind: FeedKind, csrf: &str) -> (r: FeedPager)
        ensures
            r@ == start(kind, csrf@),
    {
        let protocol = if kind == FeedKind::System {
            DeleteProtocol::SystemPrimary
        } else {
            DeleteProtocol::Generic
        };
        FeedPager {
            kind,
            stage: Stage::Seed,
            protocol,
            csrf: csrf.to_owned(),
            cursor_id: 0,
            last: 0,
            records: HashMap::new(),
        }
    }

    /// The address to ask next.
    fn url(&self) -> (r: &'static str)
        ensures
            r@ == endpoint(self.kind, self.stage),
    {
        match self.kind {
            FeedKind::Liked => "https://api.bilibili.com/x/msgfeed/like",
            FeedKind::Replied => "https://api.bilibili.com/x/msgfeed/reply",
            FeedKind::Mentioned => "https://api.bilibili.com/x/msgfeed/at",
            FeedKind::System => match self.stage {
                Stage::Seed => "https://message.bilibili.com/x/sys-msg/query_user_notify",
                Stage::Fallback => "https://message.bilibili.com/x/sys-msg/query_unified_notify",
                Stage::Paging => "https://message.bilibili.com/x/sys-msg/query_notify_list",
            },
        }
    }

    /// The request to send next.
    pub fn request(&self) -> (r: Request)
        ensures
            r@ == request_of(self@),
    {
        let mut query: Vec<Pair> = Vec::new();
        match self.kind {
            FeedKind::System => {
                push_text(&mut query, "csrf", self.csrf.as_str());
                match self.stage {
                    Stage::Seed => {
                        push_text(&mut query, "csrf", self.csrf.as_str());
                        push_number(&mut query, "page_size", 20);
                    },
                    Stage::Fallback => {
                        push_text(&mut query, "csrf", self.csrf.as_str());
                        push_number(&mut query, "page_size", 10);
                    },
                    Stage::Paging => {
                        push_number(&mut query, "data_type", 1);
                        push_number(&mut query, "cursor", self.last);
                    },
                }
                push_number(&mut query, "build", 0);
                push_text(&mut query, "mobi_app", "web");
            },
            _ => {
                if self.kind != FeedKind::Mentioned {
                    push_text(&mut query, "platform", "web");
                }
                push_number(&mut query, "build", 0);
                push_text(&mut query, "mobi_app", "web");
                assert(pair_models(query@) =~= generic_query(self.kind));
                if self.stage == Stage::Paging {
                    push_number(&mut query, "id", self.cursor_id);
                    push_number(&mut query, self.kind.last_field(), self.last);
                }
            },
        }
        assert(pair_models(query@) =~= query_of(self@));
        let r = Request { method: Method::Get, url: self.url(), query, body: Vec::new() };
        assert(r@.body =~= request_of(self@).body);
        r
    }

    /// Takes in a response that was read as a page.
    pub fn apply(self, read: PageRead) -> (r: FeedStep)
        ensures
            r@ == step(self@, read@),
    {
        let page = match read {
            PageRead::Malformed => return FeedStep::Done(Err(FetchError::ParseError)),
            PageRead::Absent => {
                if self.kind == FeedKind::System && self.stage == Stage::Seed {
                    return FeedStep::Next(
                        FeedPager {
                            kind: self.kind,
                            stage: Stage::Fallback,
                            protocol: DeleteProtocol::SystemSecondary,
                            csrf: self.csrf,
                            cursor_id: self.cursor_id,
                            last: self.last,
                            records: self.records,
                        },
                    );
                } else if self.stage == Stage::Fallback {
                    return FeedStep::Done(Err(FetchError::EmptyFeed));
                } else {
                    return FeedStep::Done(Err(FetchError::ParseError));
                }
            },
            PageRead::Page(page) => page,
        };
        if page.items.len() == 0 {
            if self.stage == Stage::Paging {
                return FeedStep::Done(Ok(self.records));
            } else {
                return FeedStep::Done(Err(FetchError::EmptyFeed));
            }
        }
        let mut records = self.records;
        put_items(&mut records, &page.items, self.protocol);
        if self.kind == FeedKind::System {
            match page.last {
                Some(last) => FeedStep::Next(
                    FeedPager {
                        kind: self.kind,
                        stage: Stage::Paging,
                        protocol: self.protocol,
                        csrf: self.csrf,
                        cursor_id: self.cursor_id,
                        last,
                        records,
                    },
                ),
                None => FeedStep::Done(Err(FetchError::ParseError)),
            }
        } else {
            match page.is_end {
                None => FeedStep::Done(Err(FetchError::ParseError)),
                Some(true) => FeedStep::Done(Ok(records)),
                Some(false) => match (page.cursor_id, page.last) {
                    (Some(cursor_id), Some(last)) => FeedStep::Next(
                        FeedPager {
                            kind: self.kind,
                            stage: Stage::Paging,
                            protocol: self.protocol,
                            csrf: self.csrf,
                            cursor_id,
                            last,
                            records,
                        },
                    ),
                    _ => FeedStep::Done(Err(FetchError::ParseError)),
                },
            }
        }
    }

    /// Takes in the reply to [`FeedPager::request`].
    pub fn advance(self, reply: &Reply) -> (r: FeedStep)
        ensures
            r@ == reply_step(self@, *reply),
    {
        match reply {
            Reply::Failed(_) => FeedStep::Done(Err(FetchError::TransportError)),
            Reply::Body(body) => match parse(body.as_str()) {
                Err(_) => FeedStep::Done(Err(FetchError::ParseError)),
                Ok(root) => {
                    let read = read_page(self.kind, self.stage != Stage::Paging, &root);
                    self.apply(read)
                },
            },
        }
    }
}

impl Notify {
    /// The walk that fetches the notifications of likes.
    pub fn fetch_liked_notify() -> (r: FeedPager)
        ensures
            r@ == start(FeedKind::Liked, Seq::empty()),
    {
        proof {
            reveal_strlit("");
        }
        assert(""@ =~= Seq::<char>::empty());
        FeedPager::new(FeedKind::Liked, "")
    }

    /// The walk that fetches the notifications of replies.
    pub fn fetch_replyed_notify() -> (r: FeedPager)
        ensures
            r@ == start(FeedKind::Replied, Seq::empty()),
    {
        proof {
            reveal_strlit("");
        }
        assert(""@ =~= Seq::<char>::empty());
        FeedPager::new(FeedKind::Replied, "")
    }

    /// The walk that fetches the notifications of mentions.
    pub fn fetch_ated_notify() -> (r: FeedPager)
        ensures
            r@ == start(FeedKind::Mentioned, Seq::empty()),
    {
        proof {
            reveal_strlit("");
        }
        assert(""@ =~= Seq::<char>::empty());
        FeedPager::new(FeedKind::Mentioned, "")
    }

    /// The walk that fetches the system notifications of the session that
    /// `csrf` belongs to.
    pub fn fetch_system_notify(csrf: &str) -> (r: FeedPager)
        ensures
            r@ == start(FeedKind::System, csrf@),
    {
        FeedPager::new(FeedKind::System, csrf)
    }
}

} // verus!
