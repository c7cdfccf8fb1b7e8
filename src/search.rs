//! Paginated search: a state machine that asks for one page after another,
//! following the service's continuation tokens, and gathers their items.
//! The caller performs each request it asks for and hands back the page.
use vstd::prelude::*;
use crate::auth::{Credentials, Request};
use crate::client::{NexusClient, or_empty, query_string, query_string_spec, str_opt_view};
use crate::error::NexusError;
use crate::model::{SearchItem, SearchReturnBody};

verus! {

/// The view of an optional owned text value.
pub open spec fn string_opt_view(o: Option<String>) -> Option<Seq<char>> {
    match o {
        Some(s) => Some(s@),
        None => None,
    }
}

/// What a page holds: its items, and the token for the next page.
pub struct PageView {
    pub items: Seq<SearchItem>,
    pub token: Option<Seq<char>>,
}

impl View for SearchReturnBody {
    type V = PageView;

    open spec fn view(&self) -> PageView {
        PageView { items: self.items@, token: string_opt_view(self.continuation_token) }
    }
}

/// How far a search has come: the items gathered, the token to send next,
/// the pages taken, and whether the last page said that none remain.
pub struct SearchProgress {
    pub items: Seq<SearchItem>,
    pub token: Option<Seq<char>>,
    pub pages: nat,
    pub finished: bool,
}

/// A search before its first request.
pub open spec fn initial_progress() -> SearchProgress {
    SearchProgress { items: Seq::empty(), token: None, pages: 0, finished: false }
}

/// A search after one more page: its items are appended in order, its token
/// is the one to send next, and its lack of a token ends the search.
pub open spec fn after_page(p: SearchProgress, page: PageView) -> SearchProgress {
    SearchProgress {
        items: p.items + page.items,
        token: page.token,
        pages: p.pages + 1,
        finished: page.token is None,
    }
}

/// A search after the given pages, taken in order.
pub open spec fn progress_after(pages: Seq<PageView>) -> SearchProgress
    decreases pages.len(),
{
    if pages.len() == 0 {
        initial_progress()
    } else {
        after_page(progress_after(pages.drop_last()), pages.last())
    }
}

/// The items of the given pages, first page first.
pub open spec fn all_items(pages: Seq<PageView>) -> Seq<SearchItem>
    decreases pages.len(),
{
    if pages.len() == 0 {
        Seq::empty()
    } else {
        all_items(pages.drop_last()) + pages.last().items
    }
}

/// A well-formed answer to a whole search: every page but the last carries
/// a token, and the last carries none.
pub open spec fn is_token_chain(pages: Seq<PageView>) -> bool {
    &&& pages.len() > 0
    &&& forall|i: int| 0 <= i < pages.len() - 1 ==> (#[trigger] pages[i]).token is Some
    &&& pages.last().token is None
}

/// The token sent with the request for page `i`: none for the first page,
/// else the one the page before carried.
pub open spec fn request_token(pages: Seq<PageView>, i: int) -> Option<Seq<char>> {
    if i == 0 {
        None
    } else {
        pages[i - 1].token
    }
}

/// The most pages a search takes before it stops asking.
pub open spec fn page_limit(max_pages: Option<usize>) -> nat {
    match max_pages {
        Some(k) => k as nat,
        None => usize::MAX as nat,
    }
}

/// Whether a search is waiting for its next page.
pub open spec fn awaits_page(p: SearchProgress, limit: nat) -> bool {
    !p.finished && p.pages < limit
}

/// What a search asks its caller to do next.
#[derive(Debug, Clone)]
pub enum SearchStep {
    /// Perform this request and hand its page to `accept_page`.
    Fetch(Request),
    /// The last page said that no more remain.
    Finished,
    /// The page cap was reached while the service still offered more.
    PageLimitReached,
}

/// One search in progress: its filters, its optional page cap, and what it
/// has gathered so far.
#[derive(Debug, Clone)]
pub struct SearchSession {
    pub repository: String,
    pub package_name: Option<String>,
    pub version: Option<String>,
    pub max_pages: Option<usize>,
    pub token: Option<String>,
    pub items: Vec<SearchItem>,
    pub pages: usize,
    pub finished: bool,
}

impl View for SearchSession {
    type V = SearchProgress;

    open spec fn view(&self) -> SearchProgress {
        SearchProgress {
            items: self.items@,
            token: string_opt_view(self.token),
            pages: self.pages as nat,
            finished: self.finished,
        }
    }
}

fn as_opt_str(o: &Option<String>) -> (r: Option<&str>)
    ensures
        str_opt_view(r) == string_opt_view(*o),
{
    match o {
        Some(s) => Some(s.as_str()),
        None => None,
    }
}

impl SearchSession {
    /// The limit that applies to this search.
    pub open spec fn limit(&self) -> nat {
        page_limit(self.max_pages)
    }

    /// The query string of this search, without a token.
    pub open spec fn query_spec(&self) -> Seq<char> {
        query_string_spec(
            self.repository@,
            or_empty(string_opt_view(self.package_name)),
            or_empty(string_opt_view(self.version)),
        )
    }

    /// A search for the given filters, before its first request. With no cap
    /// it follows tokens for up to `usize::MAX` pages, and past that fails
    /// with `PageLimitExceeded`.
    pub fn new(
        repository: &str,
        package_name: Option<&str>,
        version: Option<&str>,
        max_pages: Option<usize>,
    ) -> (r: SearchSession)
        ensures
            r@ == initial_progress(),
            r.repository@ == repository@,
            string_opt_view(r.package_name) == str_opt_view(package_name),
            string_opt_view(r.version) == str_opt_view(version),
            r.max_pages == max_pages,
    {
        let package_name = match package_name {
            Some(n) => Some(n.to_string()),
            None => None,
        };
        let version = match version {
            Some(v) => Some(v.to_string()),
            None => None,
        };
        let r = SearchSession {
            repository: repository.to_string(),
            package_name,
            version,
            max_pages,
            token: None,
            items: Vec::new(),
            pages: 0,
            finished: false,
        };
        assert(r.items@ == Seq::<SearchItem>::empty());
        r
    }

    /// Whether the cap has been reached.
    fn at_limit(&self) -> (r: bool)
        ensures
            r == (self.pages >= self.limit()),
    {
        match self.max_pages {
            Some(k) => self.pages >= k,
            None => self.pages == usize::MAX,
        }
    }

    /// What to do next. A request is asked for exactly when the search awaits
    /// a page; it carries the token of the page before, if any, and the
    /// credentials resolved for it.
    pub fn next_step(&self, client: &NexusClient, credentials: &Credentials) -> (r: SearchStep)
        ensures
            r is Fetch <==> awaits_page(self@, self.limit()),
            r is Finished <==> self.finished,
            r is PageLimitReached <==> !self.finished && self.pages >= self.limit(),
            r is Fetch ==> {
                &&& r->Fetch_0.url@ == client.search_url_spec(
                    self.repository@,
                    or_empty(string_opt_view(self.package_name)),
                    or_empty(string_opt_view(self.version)),
                    self@.token,
                )
                &&& r->Fetch_0.identity@ == credentials.identity@
                &&& r->Fetch_0.secret@ == credentials.secret@
            },
    {
        if self.finished {
            SearchStep::Finished
        } else if self.at_limit() {
            SearchStep::PageLimitReached
        } else {
            let url = client.search_url(
                self.repository.as_str(),
                as_opt_str(&self.package_name),
                as_opt_str(&self.version),
                as_opt_str(&self.token),
            );
            SearchStep::Fetch(Request::get(url, credentials))
        }
    }

    /// Takes the page that answered the last request: its items are appended
    /// in order, and its token is the one to send next.
    pub fn accept_page(&mut self, page: SearchReturnBody)
        requires
            awaits_page(old(self)@, old(self).limit()),
        ensures
            final(self)@ == after_page(old(self)@, page@),
            final(self).repository == old(self).repository,
            final(self).package_name == old(self).package_name,
            final(self).version == old(self).version,
            final(self).max_pages == old(self).max_pages,
    {
        let mut page = page;
        self.items.append(&mut page.items);
        self.finished = page.continuation_token.is_none();
        self.token = page.continuation_token;
        self.pages = self.pages + 1;
    }

    /// The outcome of a search that asks for nothing more: every item
    /// gathered, first page first, or the cap's failure if pages remained.
    pub fn finish(self) -> (r: Result<Vec<SearchItem>, NexusError>)
        requires
            !awaits_page(self@, self.limit()),
        ensures
            self.finished <==> r is Ok,
            r is Ok ==> r->Ok_0@ == self.items@,
            r is Err ==> (r->Err_0 matches NexusError::PageLimitExceeded { context, pages } && context@
                == self.query_spec() && pages == self.pages),
    {
        if self.finished {
            Ok(self.items)
        } else {
            let context = query_string(
                self.repository.as_str(),
                as_opt_str(&self.package_name),
                as_opt_str(&self.version),
            );
            Err(NexusError::PageLimitExceeded { context, pages: self.pages })
        }
    }
}

/// After the first `i` pages of a well-formed chain, a search has taken `i`
/// pages, holds their items in order, and sends next the token of page `i - 1`.
proof fn lemma_prefix_progress(pages: Seq<PageView>, i: int)
    requires
        is_token_chain(pages),
        0 <= i <= pages.len(),
    ensures
        progress_after(pages.take(i)).pages == i,
        progress_after(pages.take(i)).token == request_token(pages, i),
        progress_after(pages.take(i)).items == all_items(pages.take(i)),
        progress_after(pages.take(i)).finished == (i == pages.len()),
    decreases i,
{
    if i > 0 {
        lemma_prefix_progress(pages, i - 1);
        assert(pages.take(i).drop_last() == pages.take(i - 1));
        assert(pages.take(i).last() == pages[i - 1]);
    }
}

/// A search that follows a well-formed chain of pages to its end has finished,
/// after exactly as many pages, holding the items of all pages concatenated,
/// first page first, each page's items in the order the page gave them.
pub proof fn lemma_search_concatenates_pages(pages: Seq<PageView>)
    requires
        is_token_chain(pages),
    ensures
        progress_after(pages).finished,
        progress_after(pages).pages == pages.len(),
        progress_after(pages).items == all_items(pages),
{
    lemma_prefix_progress(pages, pages.len() as int);
    assert(pages.take(pages.len() as int) == pages);
}

/// A search answered by a well-formed chain of `n` pages, under a cap of at
/// least `n`, asks for exactly `n` pages: before page `i` it awaits a page and
/// sends the token that page `i - 1` carried (none before the first page), and
/// after the last page it asks for nothing more.
pub proof fn lemma_search_requests_follow_tokens(pages: Seq<PageView>, limit: nat)
    requires
        is_token_chain(pages),
        pages.len() <= limit,
    ensures
        forall|i: int|
            0 <= i < pages.len() ==> {
                &&& awaits_page(#[trigger] progress_after(pages.take(i)), limit)
                &&& progress_after(pages.take(i)).token == request_token(pages, i)
            },
        !awaits_page(progress_after(pages), limit),
{
    assert forall|i: int| 0 <= i < pages.len() implies {
        &&& awaits_page(#[trigger] progress_after(pages.take(i)), limit)
        &&& progress_after(pages.take(i)).token == request_token(pages, i)
    } by {
        lemma_prefix_progress(pages, i);
    }
    lemma_search_concatenates_pages(pages);
}

/// The names of the given items, in order, duplicates included.
pub fn package_names(items: &Vec<SearchItem>) -> (r: Vec<String>)
    ensures
        r@.len() == items@.len(),
        forall|i: int| 0 <= i < items@.len() ==> (#[trigger] r@[i])@ == items@[i].name@,
{
    let mut names: Vec<String> = Vec::new();
    let mut i: usize = 0;
    while i < items.len()
        invariant
            i <= items@.len(),
            names@.len() == i,
            forall|k: int| 0 <= k < i ==> (#[trigger] names@[k])@ == items@[k].name@,
        decreases items@.len() - i,
    {
        names.push(items[i].name.clone());
        i = i + 1;
    }
    names
}

} // verus!
