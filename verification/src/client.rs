//! The paginated query engine: a cursor-pagination drain over the remote
//! collection API.
//!
//! One `list` call is a strictly sequential loop — each request depends on
//! the previous response's continuation token — so the engine is a small
//! state machine: `ListQuery` holds the cursor, the accumulator and the
//! termination flag, `next_request` shapes the next page fetch, and
//! `apply_page` advances the state from one decoded response. The caller
//! performs the fetch itself and owns the loop; everything the loop decides
//! is decided here.
use vstd::prelude::*;

use crate::item::PageModel;
use crate::item::QueryItem;
use crate::item::QueryResponseData;
use crate::request::QueryRequestData;
use crate::request::initial_token;
use crate::request::now_unix;
use crate::request::utc_token;

verus! {

/// Which of the two fixed collections is queried. No other resource kinds
/// exist on the remote service.
#[derive(Debug, Clone, Copy, PartialEq, Eq, Structural)]
pub enum ResourceKind {
    Collection,
    Wishlist,
}

/// The fixed endpoint for one resource kind. The two kinds differ only in
/// the path suffix, on the same host.
pub open spec fn spec_endpoint_url(kind: ResourceKind) -> Seq<char> {
    match kind {
        ResourceKind::Collection => "https://bandcamp.com/api/fancollection/1/collection_items"@,
        ResourceKind::Wishlist => "https://bandcamp.com/api/fancollection/1/wishlist_items"@,
    }
}

/// The mathematical state of one `list` call.
#[verifier::ext_equal]
pub struct ListModel {
    pub kind: ResourceKind,
    pub fan_id: u32,
    pub identity: Seq<char>,
    pub token: Seq<char>,
    pub items: Seq<QueryItem>,
    pub done: bool,
}

/// The state after one page response is consumed: the items extend the
/// accumulator in server order, the response's token becomes the cursor, and
/// the call is over exactly when the server said no more pages remain.
pub open spec fn page_applied(s: ListModel, p: PageModel) -> ListModel {
    ListModel { token: p.last_token, items: s.items + p.items, done: !p.more_available, ..s }
}

/// The state after a whole sequence of page responses is consumed in order.
pub open spec fn pages_applied(s: ListModel, pages: Seq<PageModel>) -> ListModel
    decreases pages.len(),
{
    if pages.len() == 0 {
        s
    } else {
        pages_applied(page_applied(s, pages[0]), pages.drop_first())
    }
}

/// The concatenation of the pages' items, in page order.
pub open spec fn flat_items(pages: Seq<PageModel>) -> Seq<QueryItem>
    decreases pages.len(),
{
    if pages.len() == 0 {
        Seq::empty()
    } else {
        pages[0].items + flat_items(pages.drop_first())
    }
}

/// One in-flight `list` call: the target, the session credential passed
/// through untouched, the current cursor, the accumulated items and whether
/// the server has signalled the end.
#[derive(Debug)]
pub struct ListQuery {
    pub kind: ResourceKind,
    pub fan_id: u32,
    pub identity: String,
    pub token: String,
    pub items: Vec<QueryItem>,
    pub done: bool,
}

impl View for ListQuery {
    type V = ListModel;

    open spec fn view(&self) -> ListModel {
        ListModel {
            kind: self.kind,
            fan_id: self.fan_id,
            identity: self.identity@,
            token: self.token@,
            items: self.items@,
            done: self.done,
        }
    }
}

impl ListQuery {
    /// A fresh call against one resource kind and account. The first cursor
    /// is synthetic, derived from the given wall-clock time; `identity` is
    /// an opaque session credential, kept but never inspected.
    pub fn new(kind: ResourceKind, fan_id: u32, identity: &str, now_secs: i64) -> (r: Self)
        ensures
            r@.kind == kind,
            r@.fan_id == fan_id,
            r@.identity == identity@,
            r@.token == initial_token(now_secs as int),
            r@.items == Seq::<QueryItem>::empty(),
            !r@.done,
    {
        Self {
            kind,
            fan_id,
            identity: identity.to_owned(),
            token: utc_token(now_secs),
            items: Vec::new(),
            done: false,
        }
    }

    /// A fresh call seeded from the present wall-clock time.
    pub fn begin(kind: ResourceKind, fan_id: u32, identity: &str) -> (r: Self)
        ensures
            r@.kind == kind,
            r@.fan_id == fan_id,
            r@.identity == identity@,
            exists|t: i64| 0 <= t && r@.token == initial_token(t as int),
            r@.items == Seq::<QueryItem>::empty(),
            !r@.done,
    {
        let now_secs = now_unix();
        let r = Self::new(kind, fan_id, identity, now_secs);
        assert(r@.token == initial_token(now_secs as int));
        r
    }

    /// Where every request of this call is sent.
    pub fn endpoint_url(&self) -> (r: String)
        ensures
            r@ == spec_endpoint_url(self@.kind),
    {
        match self.kind {
            ResourceKind::Collection => "https://bandcamp.com/api/fancollection/1/collection_items".to_owned(),
            ResourceKind::Wishlist => "https://bandcamp.com/api/fancollection/1/wishlist_items".to_owned(),
        }
    }

    /// The next outbound request: always the current cursor, always the
    /// fixed page size.
    pub fn next_request(&self) -> (r: QueryRequestData)
        ensures
            r.fan_id == self@.fan_id,
            r.token@ == self@.token,
            r.count == crate::DEFAULT_COUNT,
    {
        QueryRequestData::new(self.fan_id, self.token.clone())
    }

    /// Consumes one page response: appends its items in order, advances the
    /// cursor to the response's token, and stops exactly when the server
    /// said no more pages are available.
    pub fn apply_page(&mut self, page: QueryResponseData)
        ensures
            final(self)@ == page_applied(old(self)@, page@),
    {
        let ghost incoming = page@;
        let mut page = page;
        self.items.append(&mut page.items);
        self.token = page.last_token;
        self.done = !page.more_available;
        assert(self@ =~= page_applied(old(self)@, incoming));
    }

    /// Whether the server has signalled that no further request should be
    /// issued.
    pub fn is_done(&self) -> (r: bool)
        ensures
            r == self@.done,
    {
        self.done
    }

    /// The drained, order-preserving result of the whole call.
    pub fn into_items(self) -> (r: Vec<QueryItem>)
        ensures
            r@ == self@.items,
    {
        self.items
    }
}

/// Consuming pages one after another is the same as consuming all but the
/// last and then the last.
pub proof fn lemma_pages_applied_snoc(s: ListModel, pages: Seq<PageModel>, p: PageModel)
    ensures
        pages_applied(s, pages.push(p)) == page_applied(pages_applied(s, pages), p),
    decreases pages.len(),
{
    if pages.len() == 0 {
        assert(pages.push(p)[0] == p);
        assert(pages.push(p).drop_first() =~= Seq::<PageModel>::empty());
        assert(pages_applied(s, pages.push(p)) == pages_applied(
            page_applied(s, p),
            Seq::<PageModel>::empty(),
        ));
        assert(pages_applied(page_applied(s, p), Seq::<PageModel>::empty()) == page_applied(s, p));
        assert(pages_applied(s, pages) == s);
    } else {
        assert(pages.push(p)[0] == pages[0]);
        assert(pages.push(p).drop_first() =~= pages.drop_first().push(p));
        lemma_pages_applied_snoc(page_applied(s, pages[0]), pages.drop_first(), p);
    }
}

/// Adding a final page to a sequence appends exactly that page's items to
/// the concatenation.
pub proof fn lemma_flat_items_snoc(pages: Seq<PageModel>, p: PageModel)
    ensures
        flat_items(pages.push(p)) == flat_items(pages) + p.items,
    decreases pages.len(),
{
    if pages.len() == 0 {
        assert(pages.push(p)[0] == p);
        assert(pages.push(p).drop_first() =~= Seq::<PageModel>::empty());
        assert(flat_items(pages.push(p)) == p.items + flat_items(Seq::<PageModel>::empty()));
        assert(flat_items(Seq::<PageModel>::empty()) =~= Seq::<QueryItem>::empty());
        assert(flat_items(pages.push(p)) =~= flat_items(pages) + p.items);
    } else {
        assert(pages.push(p)[0] == pages[0]);
        assert(pages.push(p).drop_first() =~= pages.drop_first().push(p));
        lemma_flat_items_snoc(pages.drop_first(), p);
        assert(flat_items(pages.push(p)) =~= flat_items(pages) + p.items);
    }
}

/// What a `list` call targets never moves: no sequence of page responses
/// changes the resource kind, the account, or the pass-through credential.
pub proof fn lemma_target_constant(s: ListModel, pages: Seq<PageModel>)
    ensures
        pages_applied(s, pages).kind == s.kind,
        pages_applied(s, pages).fan_id == s.fan_id,
        pages_applied(s, pages).identity == s.identity,
    decreases pages.len(),
{
    if pages.len() > 0 {
        lemma_target_constant(page_applied(s, pages[0]), pages.drop_first());
    }
}

/// Non-termination guard: the loop follows the server's flag and nothing
/// else. While every page says more is available the call never finishes —
/// it keeps requesting — and the accumulator grows by exactly the pages'
/// items, in page order.
pub proof fn lemma_follows_flag(s: ListModel, pages: Seq<PageModel>)
    requires
        !s.done,
        forall|i: int| 0 <= i < pages.len() ==> pages[i].more_available,
    ensures
        !pages_applied(s, pages).done,
        pages_applied(s, pages).items == s.items + flat_items(pages),
    decreases pages.len(),
{
    if pages.len() == 0 {
        assert(s.items + flat_items(pages) =~= s.items);
    } else {
        lemma_follows_flag(page_applied(s, pages[0]), pages.drop_first());
        assert((s.items + pages[0].items) + flat_items(pages.drop_first()) =~= s.items
            + flat_items(pages));
    }
}

/// Termination: for any finite sequence of pages whose last page says no
/// more are available (and every earlier one says more are), the call
/// requests each page exactly once — it is still running before every page
/// and finished after the last — and returns exactly the concatenation of
/// all pages' items in page order, its cursor resting on the last page's
/// token.
pub proof fn lemma_drain_terminates(s: ListModel, pages: Seq<PageModel>)
    requires
        !s.done,
        pages.len() > 0,
        forall|i: int| 0 <= i < pages.len() - 1 ==> pages[i].more_available,
        !pages[pages.len() - 1].more_available,
    ensures
        pages_applied(s, pages).done,
        pages_applied(s, pages).items == s.items + flat_items(pages),
        pages_applied(s, pages).token == pages[pages.len() - 1].last_token,
        forall|n: int| 0 <= n < pages.len() ==> !pages_applied(s, pages.take(n)).done,
{
    let prefix = pages.take(pages.len() - 1);
    let last = pages[pages.len() - 1];
    assert(pages =~= prefix.push(last));
    lemma_pages_applied_snoc(s, prefix, last);
    lemma_flat_items_snoc(prefix, last);
    lemma_follows_flag(s, prefix);
    assert(pages_applied(s, pages).items =~= s.items + flat_items(pages));
    assert forall|n: int| 0 <= n < pages.len() implies !pages_applied(s, pages.take(n)).done by {
        assert(forall|i: int| 0 <= i < n ==> pages.take(n)[i] == pages[i]);
        lemma_follows_flag(s, pages.take(n));
    }
}

/// Resource-kind routing: the two kinds never share an endpoint.
pub proof fn lemma_endpoints_distinct()
    ensures
        spec_endpoint_url(ResourceKind::Collection) != spec_endpoint_url(ResourceKind::Wishlist),
{
    reveal_strlit("https://bandcamp.com/api/fancollection/1/collection_items");
    reveal_strlit("https://bandcamp.com/api/fancollection/1/wishlist_items");
    assert(spec_endpoint_url(ResourceKind::Collection).len() != spec_endpoint_url(
        ResourceKind::Wishlist,
    ).len());
}

/// Cursor propagation: after the engine consumes its first `n` responses,
/// the cursor it will put in request `n + 1` is exactly response `n`'s
/// token.
pub proof fn lemma_cursor_propagation(s: ListModel, pages: Seq<PageModel>, n: int)
    requires
        0 < n <= pages.len(),
    ensures
        pages_applied(s, pages.take(n)).token == pages[n - 1].last_token,
{
    let prefix = pages.take(n - 1);
    assert(pages.take(n) =~= prefix.push(pages[n - 1]));
    lemma_pages_applied_snoc(s, prefix, pages[n - 1]);
}

/// The purchase collection.
pub struct Collection;

impl Collection {
    /// Starts listing the account's purchase collection.
    pub fn begin_list(fan_id: u32, identity: &str) -> (r: ListQuery)
        ensures
            r@.kind == ResourceKind::Collection,
            r@.fan_id == fan_id,
            r@.identity == identity@,
            exists|t: i64| 0 <= t && r@.token == initial_token(t as int),
            r@.items == Seq::<QueryItem>::empty(),
            !r@.done,
    {
        ListQuery::begin(ResourceKind::Collection, fan_id, identity)
    }
}

/// The wishlist.
pub struct Wishlist;

impl Wishlist {
    /// Starts listing the account's wishlist.
    pub fn begin_list(fan_id: u32, identity: &str) -> (r: ListQuery)
        ensures
            r@.kind == ResourceKind::Wishlist,
            r@.fan_id == fan_id,
            r@.identity == identity@,
            exists|t: i64| 0 <= t && r@.token == initial_token(t as int),
            r@.items == Seq::<QueryItem>::empty(),
            !r@.done,
    {
        ListQuery::begin(ResourceKind::Wishlist, fan_id, identity)
    }
}

} // verus!
