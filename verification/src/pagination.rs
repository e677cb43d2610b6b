//! The pagination driver: following continuation links until the server has
//! no more pages.
//!
//! The driver decides; its caller fetches. The caller sends the
//! replication request, reads the reply with
//! [`read_replication`](crate::adapter::read_replication) and hands the page
//! to [`PaginationDriver::accept`], which keeps the page's records and says
//! what to do next: fetch the link that the page carries, or stop. A link
//! that repeats the one followed last is never fetched again: it ends the
//! run with [`ResoError::PaginationStalled`].

use vstd::prelude::*;
use vstd::string::*;
use crate::error::ResoError;
use crate::json::{documents, Document};
use crate::replication::{PageView, ReplicationResponse};
use crate::text::{opt_text, same_text};

verus! {

/// What the driver asks of its caller after a page.
#[derive(Clone, Debug, PartialEq, Eq)]
pub enum Step {
    /// Fetch the page at this link and hand it to the driver.
    Fetch(String),
    /// The stream is exhausted: there is nothing more to fetch.
    Done,
}

/// A [`Step`], as mathematical values.
pub enum StepView {
    /// Fetch the page at this link.
    Fetch(Seq<char>),
    /// There is nothing more to fetch.
    Done,
}

impl View for Step {
    type V = StepView;

    open spec fn view(&self) -> StepView {
        match self {
            Step::Fetch(link) => StepView::Fetch(link@),
            Step::Done => StepView::Done,
        }
    }
}

/// What a [`PaginationDriver`] holds, as mathematical values.
pub struct DriverView {
    /// The texts of the records of all pages accepted so far, in order.
    pub records: Seq<Seq<char>>,
    /// The link that the driver last asked its caller to fetch.
    pub last_link: Option<Seq<char>>,
}

impl DriverView {
    /// The driver before the first page.
    pub open spec fn start() -> DriverView {
        DriverView { records: seq![], last_link: None }
    }

    /// The driver of a run that starts at a link rather than at a query.
    pub open spec fn resumed(link: Seq<char>) -> DriverView {
        DriverView { records: seq![], last_link: Some(link) }
    }

    /// Whether `page` carries the very link that was followed last.
    pub open spec fn stalls_on(self, page: PageView) -> bool {
        page.next_link is Some && page.next_link == self.last_link
    }

    /// The driver after `page`: the page's records are kept, and its link,
    /// if it is a new one, becomes the link followed last.
    pub open spec fn after(self, page: PageView) -> DriverView {
        DriverView {
            records: self.records + page.records,
            last_link: if page.next_link is Some {
                page.next_link
            } else {
                self.last_link
            },
        }
    }

    /// What the driver decides on `page`.
    pub open spec fn decide(self, page: PageView) -> Result<StepView, ResoError> {
        match page.next_link {
            None => Ok(StepView::Done),
            Some(link) => if self.stalls_on(page) {
                Err(ResoError::PaginationStalled)
            } else {
                Ok(StepView::Fetch(link))
            },
        }
    }
}

/// The view of a decision that the driver returned.
pub open spec fn decided(r: Result<Step, ResoError>) -> Result<StepView, ResoError> {
    match r {
        Ok(step) => Ok(step@),
        Err(e) => Err(e),
    }
}

/// The state of one run through a replication stream.
#[derive(Debug)]
pub struct PaginationDriver {
    records: Vec<Document>,
    last_link: Option<String>,
}

impl View for PaginationDriver {
    type V = DriverView;

    closed spec fn view(&self) -> DriverView {
        DriverView { records: documents(self.records@), last_link: opt_text(self.last_link) }
    }
}

impl PaginationDriver {
    /// A driver that has seen no page yet.
    pub fn new() -> (r: PaginationDriver)
        ensures
            r@ == DriverView::start(),
    {
        let r = PaginationDriver { records: Vec::new(), last_link: None };
        assert(documents(r.records@) =~= Seq::<Seq<char>>::empty());
        r
    }

    /// A driver for a run that starts by fetching `link`, a continuation
    /// link kept from an earlier run, rather than by sending a query.
    pub fn from_link(link: &str) -> (r: PaginationDriver)
        ensures
            r@ == DriverView::resumed(link@),
    {
        let r = PaginationDriver { records: Vec::new(), last_link: Some(String::from_str(link)) };
        assert(documents(r.records@) =~= Seq::<Seq<char>>::empty());
        r
    }

    /// Takes the next page of the stream, keeps its records, and decides
    /// what to do next: `Done` if the page carries no link, `Fetch` if it
    /// carries a new one, `PaginationStalled` if it carries the link that was
    /// followed last.
    pub fn accept(&mut self, page: ReplicationResponse) -> (r: Result<Step, ResoError>)
        ensures
            final(self)@ == old(self)@.after(page@),
            decided(r) == old(self)@.decide(page@),
    {
        let mut page = page;
        let ghost kept = documents(self.records@);
        let ghost added = documents(page.records@);
        self.records.append(&mut page.records);
        assert(documents(self.records@) =~= kept + added);
        match page.next_link {
            None => Ok(Step::Done),
            Some(link) => {
                let repeated = match &self.last_link {
                    Some(last) => same_text(last.as_str(), link.as_str()),
                    None => false,
                };
                if repeated {
                    Err(ResoError::PaginationStalled)
                } else {
                    self.last_link = Some(String::from_str(link.as_str()));
                    Ok(Step::Fetch(link))
                }
            },
        }
    }

    /// The number of records kept so far.
    pub fn record_count(&self) -> (r: usize)
        ensures
            r == self@.records.len(),
    {
        self.records.len()
    }

    /// The link that the driver last asked its caller to fetch.
    pub fn last_link(&self) -> (r: Option<&str>)
        ensures
            crate::text::opt_slice(r) == self@.last_link,
    {
        match &self.last_link {
            Some(link) => Some(link.as_str()),
            None => None,
        }
    }

    /// Ends the run and hands out the records of all pages accepted, in
    /// the order in which they came.
    pub fn into_records(self) -> (r: Vec<Document>)
        ensures
            documents(r@) == self@.records,
    {
        self.records
    }
}

/// What a replay of pages came to, as mathematical values.
pub struct CollectedView {
    /// The texts of the records of the pages read, in order.
    pub records: Seq<Seq<char>>,
    /// How many pages were read.
    pub pages_read: nat,
    /// Whether the last page read ended the stream.
    pub complete: bool,
}

/// What the driver makes of `pages[from..]`, starting in `state`: it reads
/// page after page until one carries no link, which completes the stream,
/// or repeats the link followed last, which stalls it, or until the pages
/// run out.
pub open spec fn replay_from(state: DriverView, pages: Seq<PageView>, from: nat) -> Result<
    CollectedView,
    ResoError,
>
    decreases pages.len() - from,
{
    if from >= pages.len() {
        Ok(CollectedView { records: state.records, pages_read: from, complete: false })
    } else {
        match state.decide(pages[from as int]) {
            Err(e) => Err(e),
            Ok(StepView::Done) => Ok(
                CollectedView {
                    records: state.after(pages[from as int]).records,
                    pages_read: from + 1,
                    complete: true,
                },
            ),
            Ok(StepView::Fetch(_)) => replay_from(state.after(pages[from as int]), pages, from + 1),
        }
    }
}

/// What the driver makes of `pages`, the first of which answers the
/// replication request and each other the link of the page before it.
pub open spec fn replay(pages: Seq<PageView>) -> Result<CollectedView, ResoError> {
    replay_from(DriverView::start(), pages, 0)
}

/// The views of a sequence of pages.
pub open spec fn page_views(pages: Seq<ReplicationResponse>) -> Seq<PageView> {
    pages.map_values(|p: ReplicationResponse| p@)
}

/// The records of a run over pages that were fetched beforehand.
#[derive(Debug)]
pub struct Collected {
    /// The records of the pages read, in order.
    pub records: Vec<Document>,
    /// How many pages the driver read.
    pub pages_read: usize,
    /// Whether the last page read ended the stream. If not, the pages ran
    /// out while the server had more to send.
    pub complete: bool,
}

impl View for Collected {
    type V = CollectedView;

    open spec fn view(&self) -> CollectedView {
        CollectedView {
            records: documents(self.records@),
            pages_read: self.pages_read as nat,
            complete: self.complete,
        }
    }
}

/// The view of what a replay returned.
pub open spec fn collected(r: Result<Collected, ResoError>) -> Result<CollectedView, ResoError> {
    match r {
        Ok(c) => Ok(c@),
        Err(e) => Err(e),
    }
}

/// Runs the driver over pages that were fetched beforehand, the first of
/// which answers the replication request and each other the link of the page
/// before it. The driver reads until a page ends the stream, and reads no
/// page after that one.
pub fn collect_pages(pages: Vec<ReplicationResponse>) -> (r: Result<Collected, ResoError>)
    ensures
        collected(r) == replay(page_views(pages@)),
{
    let ghost all = page_views(pages@);
    let mut driver = PaginationDriver::new();
    let total: usize = pages.len();
    let mut read: usize = 0;
    for page in it: pages
        invariant
            it.seq() == pages@,
            total == pages@.len(),
            all == page_views(pages@),
            read == it.index(),
            replay(all) == replay_from(driver@, all, read as nat),
    {
        proof {
            assert(read < pages@.len());
            assert(all[read as int] == page@);
        }
        match driver.accept(page) {
            Err(e) => {
                return Err(e);
            },
            Ok(Step::Done) => {
                return Ok(
                    Collected { records: driver.into_records(), pages_read: read + 1, complete: true },
                );
            },
            Ok(Step::Fetch(_)) => {},
        }
        read = read + 1;
    }
    Ok(Collected { records: driver.into_records(), pages_read: read, complete: false })
}

/// The records of the first `n` pages, in order.
pub open spec fn gathered(pages: Seq<PageView>, n: nat) -> Seq<Seq<char>>
    decreases n,
{
    if n == 0 {
        seq![]
    } else {
        gathered(pages, (n - 1) as nat) + pages[n - 1].records
    }
}

/// The link that the driver has followed last when it comes to page
/// `from` of a stream in which every page before it carried a link.
pub open spec fn link_before(pages: Seq<PageView>, from: nat) -> Option<Seq<char>> {
    if from == 0 {
        None
    } else {
        pages[from - 1].next_link
    }
}

proof fn lemma_replay_from_reads_a_prefix(state: DriverView, pages: Seq<PageView>, from: nat)
    requires
        from <= pages.len(),
        state.records == gathered(pages, from),
    ensures
        replay_from(state, pages, from) matches Ok(c) ==> {
            &&& from <= c.pages_read <= pages.len()
            &&& c.records == gathered(pages, c.pages_read)
            &&& c.complete ==> c.pages_read > from && pages[c.pages_read - 1].next_link is None
            &&& !c.complete ==> c.pages_read == pages.len()
        },
    decreases pages.len() - from,
{
    if from < pages.len() {
        let page = pages[from as int];
        assert(gathered(pages, from + 1) == gathered(pages, from) + page.records);
        if state.decide(page) matches Ok(StepView::Fetch(_)) {
            lemma_replay_from_reads_a_prefix(state.after(page), pages, from + 1);
        }
    }
}

proof fn lemma_replay_from_reaches_the_end(state: DriverView, pages: Seq<PageView>, from: nat)
    requires
        from < pages.len(),
        state.records == gathered(pages, from),
        state.last_link == link_before(pages, from),
        forall|i: int| from <= i < pages.len() - 1 ==> (#[trigger] pages[i]).next_link is Some,
        forall|i: int|
            0 <= i && from <= i + 1 < pages.len() - 1 ==> (#[trigger] pages[i]).next_link
                != pages[i + 1].next_link,
        pages.last().next_link is None,
    ensures
        replay_from(state, pages, from) == Ok::<CollectedView, ResoError>(
            CollectedView {
                records: gathered(pages, pages.len()),
                pages_read: pages.len(),
                complete: true,
            },
        ),
    decreases pages.len() - from,
{
    let page = pages[from as int];
    assert(gathered(pages, from + 1) == gathered(pages, from) + page.records);
    if from + 1 < pages.len() {
        assert(page.next_link is Some);
        if from > 0 {
            assert(pages[from - 1].next_link != pages[from - 1 + 1].next_link);
        }
        assert(!state.stalls_on(page));
        lemma_replay_from_reaches_the_end(state.after(page), pages, from + 1);
    }
}

proof fn lemma_replay_from_stalls(state: DriverView, pages: Seq<PageView>, from: nat, k: nat)
    requires
        from <= k + 1 < pages.len(),
        state.last_link == link_before(pages, from),
        forall|i: int| from <= i <= k + 1 ==> (#[trigger] pages[i]).next_link is Some,
        pages[k as int].next_link == pages[k as int + 1].next_link,
    ensures
        replay_from(state, pages, from) == Err::<CollectedView, ResoError>(
            ResoError::PaginationStalled,
        ),
    decreases k + 1 - from,
{
    let page = pages[from as int];
    assert(page.next_link is Some);
    if from == k + 1 {
        assert(state.stalls_on(page));
    } else if !state.stalls_on(page) {
        lemma_replay_from_stalls(state.after(page), pages, from + 1, k);
    }
}

/// The driver reads the pages in order and stops for good: whatever the
/// pages hold, a run that does not stall has read a prefix of them, kept
/// exactly the records of that prefix, and is complete exactly when the
/// last page that it read carries no link.
pub proof fn lemma_replay_reads_a_prefix(pages: Seq<PageView>)
    ensures
        replay(pages) matches Ok(c) ==> {
            &&& c.pages_read <= pages.len()
            &&& c.records == gathered(pages, c.pages_read)
            &&& c.complete ==> c.pages_read > 0 && pages[c.pages_read - 1].next_link is None
            &&& !c.complete ==> c.pages_read == pages.len()
        },
{
    lemma_replay_from_reads_a_prefix(DriverView::start(), pages, 0);
}

/// Given a finite stream in which each page but the last carries a link
/// that differs from the link of the page before it, and the last page
/// carries none, the driver reads every page, keeps the records of them all
/// in order, and stops.
pub proof fn lemma_all_pages_are_collected(pages: Seq<PageView>)
    requires
        pages.len() >= 1,
        forall|i: int| 0 <= i < pages.len() - 1 ==> (#[trigger] pages[i]).next_link is Some,
        forall|i: int|
            0 <= i && i + 1 < pages.len() - 1 ==> (#[trigger] pages[i]).next_link != pages[i
                + 1].next_link,
        pages.last().next_link is None,
    ensures
        replay(pages) == Ok::<CollectedView, ResoError>(
            CollectedView {
                records: gathered(pages, pages.len()),
                pages_read: pages.len(),
                complete: true,
            },
        ),
{
    lemma_replay_from_reaches_the_end(DriverView::start(), pages, 0);
}

/// Given a stream in which page `k + 1` carries the same link as page `k`,
/// and every page up to there carries some link, the run fails with
/// `PaginationStalled`: the driver does not ask for the repeated link again.
pub proof fn lemma_repeated_link_stalls(pages: Seq<PageView>, k: nat)
    requires
        k + 1 < pages.len(),
        forall|i: int| 0 <= i <= k + 1 ==> (#[trigger] pages[i]).next_link is Some,
        pages[k as int].next_link == pages[k as int + 1].next_link,
    ensures
        replay(pages) == Err::<CollectedView, ResoError>(ResoError::PaginationStalled),
{
    lemma_replay_from_stalls(DriverView::start(), pages, 0, k);
}

/// The driver never asks for the link that it followed last: a decision to
/// fetch names a link that differs from it.
pub proof fn lemma_fetched_link_is_new(state: DriverView, page: PageView)
    ensures
        state.decide(page) matches Ok(StepView::Fetch(link)) ==> state.last_link != Some(link)
            && state.after(page).last_link == Some(link),
        state.decide(page) == Err::<StepView, ResoError>(ResoError::PaginationStalled)
            <==> state.stalls_on(page),
{
}

} // verus!
