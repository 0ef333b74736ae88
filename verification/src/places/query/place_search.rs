//! Walking through the pages of a search.
//!
//! A search is answered page by page. `PageCursor` holds what is left of the
//! current page and the address of the next one, and `advance` says what is
//! to happen next: hand out a result, fetch a page, or stop. The caller does
//! the fetching and hands the page back through `resume`.

use std::collections::VecDeque;
use vstd::prelude::*;
use crate::places::query::responses::{ErrorResponse, ExpectedResponse, PointResponse};

verus! {

/// What a search does next.
#[derive(Debug, PartialEq)]
pub enum Step<R> {
    /// The next result of the current page.
    Yield(R),
    /// The current page is used up; the next one is at this address.
    Fetch(String),
    /// The current page is used up and no page follows.
    Done,
}

/// The state of a search between two steps.
#[derive(Debug)]
pub struct PageCursor<R> {
    /// The results of the current page that were not handed out yet, the
    /// next one first.
    pub results: VecDeque<R>,
    /// The address of the page after the current one.
    pub next_page: Option<String>,
}

/// Moves the items of a list into a queue, keeping their order.
fn queue_of<R>(items: Vec<R>) -> (q: VecDeque<R>)
    ensures
        q@ == items@,
{
    let mut items = items;
    let ghost all = items@;
    let mut q: VecDeque<R> = VecDeque::new();
    while items.len() > 0
        invariant
            items@ + q@ == all,
        decreases items.len(),
    {
        let ghost before = items@;
        let ghost queued = q@;
        match items.pop() {
            Some(item) => {
                q.push_front(item);
                assert(items@ + q@ =~= before + queued);
            },
            None => {},
        }
    }
    assert(q@ =~= all);
    q
}

impl<R> PageCursor<R> {
    /// Starts a search from the answer to its first request: at the first
    /// result of the page that came, or with the error that came instead.
    pub fn open(response: ExpectedResponse<R>) -> (r: Result<Self, ErrorResponse>)
        ensures
            match response {
                ExpectedResponse::Point(page) => r matches Ok(cursor) && cursor.results@
                    == page.results@ && cursor.next_page == page.next_url(),
                ExpectedResponse::Error(e) => r matches Err(got) && got == e,
            },
    {
        match response {
            ExpectedResponse::Point(page) => {
                let next_page = match page.pagination {
                    Some(p) => p.next_url,
                    None => None,
                };
                Ok(PageCursor { results: queue_of(page.results), next_page })
            },
            ExpectedResponse::Error(e) => Err(e),
        }
    }

    /// Says what is to happen next. A result that is handed out leaves the
    /// cursor; asking for a page, or stopping, changes nothing.
    pub fn advance(&mut self) -> (step: Step<R>)
        ensures
            final(self).next_page == old(self).next_page,
            old(self).results@.len() > 0 ==> step == Step::Yield(old(self).results@[0])
                && final(self).results@ == old(self).results@.skip(1),
            old(self).results@.len() == 0 ==> final(self).results@ == old(self).results@ && step
                == match old(self).next_page {
                Some(url) => Step::<R>::Fetch(url),
                None => Step::<R>::Done,
            },
    {
        match self.results.pop_front() {
            Some(item) => {
                assert(self.results@ =~= old(self).results@.skip(1));
                Step::Yield(item)
            },
            None => match &self.next_page {
                Some(url) => Step::Fetch(url.clone()),
                None => Step::Done,
            },
        }
    }

    /// Takes the page that `advance` asked for and hands out its first
    /// result. An empty page hands out nothing, even where it names a page
    /// to follow.
    pub fn resume(&mut self, page: PointResponse<R>) -> (first: Option<R>)
        ensures
            final(self).next_page == page.next_url(),
            page.results@.len() > 0 ==> first == Some(page.results@[0]) && final(self).results@
                == page.results@.skip(1),
            page.results@.len() == 0 ==> first is None && final(self).results@.len() == 0,
    {
        let next_page = match page.pagination {
            Some(p) => p.next_url,
            None => None,
        };
        self.results = queue_of(page.results);
        self.next_page = next_page;
        let first = self.results.pop_front();
        assert(first is Some ==> self.results@ =~= page.results@.skip(1));
        first
    }
}

/// Turns the outcome of one step of a search into the item of an iteration:
/// a result or an error is an item, and the end of the results ends the
/// iteration.
pub fn iteration_item<R, E>(outcome: Result<Option<R>, E>) -> (item: Option<Result<R, E>>)
    ensures
        item == match outcome {
            Ok(Some(found)) => Some(Ok::<R, E>(found)),
            Ok(None) => None,
            Err(e) => Some(Err::<R, E>(e)),
        },
{
    match outcome {
        Ok(Some(found)) => Some(Ok(found)),
        Ok(None) => None,
        Err(e) => Some(Err(e)),
    }
}

} // verus!
