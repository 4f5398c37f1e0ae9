//! The feed poller's decisions: which step follows which event, how the
//! cursor moves, and in which order a fetched page is shown. The caller
//! performs each step (fetching, writing, sleeping) and reports back what
//! happened.

use crate::post::Post;
use vstd::prelude::*;

verus! {

/// The newest post already shown; empty until a fetch has returned
/// something.
#[derive(Clone, Copy, Debug, PartialEq, Eq, Structural)]
pub struct Cursor {
    pub newest: Option<u64>,
}

/// Why a fetch failed.
#[derive(Clone, Copy, Debug, PartialEq, Eq, Structural)]
pub enum FetchFault {
    /// The feed rejected the credentials.
    Unauthorized,
    /// The feed or the account does not exist.
    NotFound,
    /// Anything else, network trouble and rate limits included.
    Transient,
}

/// Where the loop stands.
#[derive(Clone, Copy, Debug, PartialEq, Eq, Structural)]
pub enum Phase {
    /// Waiting for the first page.
    Start,
    /// Waiting for the pause between two fetches to end.
    Sleeping,
    /// Waiting for a page of posts newer than the cursor.
    Fetching,
    /// Ended, by cancellation or by a failed fetch.
    Stopped,
}

/// What the caller reports.
#[derive(Debug)]
pub enum PollEvent {
    /// A fetch returned this page, newest post first.
    Page(Vec<Post>),
    /// A fetch failed.
    Fault(FetchFault),
    /// The pause is over.
    Woke,
    /// The loop was told to end.
    Cancelled,
}

/// What the caller is to do next.
#[derive(Debug)]
pub enum PollAction {
    /// Fetch up to `page_size` posts, all newer than `newer_than` where
    /// that is set, and report the page or the fault.
    Fetch { newer_than: Option<u64>, page_size: u32 },
    /// Render and write these posts in this order, then pause for
    /// `sleep_ms` milliseconds and report the end of the pause.
    Emit { posts: Vec<Post>, sleep_ms: u64 },
    /// Pause for `sleep_ms` milliseconds and report the end of the pause.
    Sleep { sleep_ms: u64 },
    /// End the loop, handing `fault` to the caller where a fetch failed.
    Stop { fault: Option<FetchFault> },
}

/// A step as a mathematical value.
pub enum Directive {
    Fetch { newer_than: Option<u64>, page_size: u32 },
    Emit { posts: Seq<Post>, sleep_ms: u64 },
    Sleep { sleep_ms: u64 },
    Stop { fault: Option<FetchFault> },
}

impl View for PollAction {
    type V = Directive;

    open spec fn view(&self) -> Directive {
        match *self {
            PollAction::Fetch { newer_than, page_size } => Directive::Fetch {
                newer_than,
                page_size,
            },
            PollAction::Emit { posts, sleep_ms } => Directive::Emit { posts: posts@, sleep_ms },
            PollAction::Sleep { sleep_ms } => Directive::Sleep { sleep_ms },
            PollAction::Stop { fault } => Directive::Stop { fault },
        }
    }
}

/// The cursor after a page arrived: the page's first post, which is its
/// newest, or the old cursor where the page is empty.
pub open spec fn cursor_after_page(cursor: Cursor, page: Seq<Post>) -> Cursor {
    if page.len() > 0 {
        Cursor { newest: Some(page[0].id) }
    } else {
        cursor
    }
}

/// The cursor after several pages arrived one after the other.
pub open spec fn cursor_after_pages(cursor: Cursor, pages: Seq<Seq<Post>>) -> Cursor
    decreases pages.len(),
{
    if pages.len() == 0 {
        cursor
    } else {
        cursor_after_page(cursor_after_pages(cursor, pages.drop_last()), pages.last())
    }
}

/// The polling loop's state.
#[derive(Debug)]
pub struct Poller {
    pub phase: Phase,
    pub cursor: Cursor,
    pub page_size: u32,
    pub interval_ms: u64,
}

impl Poller {
    /// Tells whether a page is awaited.
    pub open spec fn awaits_page(&self) -> bool {
        self.phase == Phase::Start || self.phase == Phase::Fetching
    }

    /// The phase after `event`. Cancellation and a failed fetch end the
    /// loop; a page leads to the pause; the end of the pause leads to the
    /// next fetch. An event that does not fit the phase changes nothing.
    pub open spec fn next_phase(&self, event: PollEvent) -> Phase {
        if self.phase == Phase::Stopped {
            Phase::Stopped
        } else {
            match event {
                PollEvent::Cancelled => Phase::Stopped,
                PollEvent::Page(_) => if self.awaits_page() {
                    Phase::Sleeping
                } else {
                    self.phase
                },
                PollEvent::Fault(_) => if self.awaits_page() {
                    Phase::Stopped
                } else {
                    self.phase
                },
                PollEvent::Woke => if self.phase == Phase::Sleeping {
                    Phase::Fetching
                } else {
                    self.phase
                },
            }
        }
    }

    /// The cursor after `event`: moved by an awaited page, else unchanged.
    pub open spec fn next_cursor(&self, event: PollEvent) -> Cursor {
        match event {
            PollEvent::Page(page) => if self.awaits_page() {
                cursor_after_page(self.cursor, page@)
            } else {
                self.cursor
            },
            _ => self.cursor,
        }
    }

    /// The step that the current phase asks for when nothing new happened.
    pub open spec fn pending_step(&self) -> Directive {
        match self.phase {
            Phase::Start | Phase::Fetching => Directive::Fetch {
                newer_than: self.cursor.newest,
                page_size: self.page_size,
            },
            Phase::Sleeping => Directive::Sleep { sleep_ms: self.interval_ms },
            Phase::Stopped => Directive::Stop { fault: None },
        }
    }

    /// The step that answers `event`. An awaited page is shown oldest post
    /// first and followed by the pause; an empty one leads straight to the
    /// pause. An event that does not fit the phase repeats the pending
    /// step.
    pub open spec fn step_for(&self, event: PollEvent) -> Directive {
        if self.phase == Phase::Stopped {
            Directive::Stop { fault: None }
        } else {
            match event {
                PollEvent::Cancelled => Directive::Stop { fault: None },
                PollEvent::Page(page) => if self.awaits_page() && page@.len() > 0 {
                    Directive::Emit { posts: page@.reverse(), sleep_ms: self.interval_ms }
                } else {
                    Directive::Sleep { sleep_ms: self.interval_ms }
                },
                PollEvent::Fault(fault) => if self.awaits_page() {
                    Directive::Stop { fault: Some(fault) }
                } else {
                    self.pending_step()
                },
                PollEvent::Woke => Directive::Fetch {
                    newer_than: self.cursor.newest,
                    page_size: self.page_size,
                },
            }
        }
    }

    /// The loop's state after `event`.
    pub open spec fn advanced(self, event: PollEvent) -> Poller {
        Poller {
            phase: self.next_phase(event),
            cursor: self.next_cursor(event),
            page_size: self.page_size,
            interval_ms: self.interval_ms,
        }
    }

    /// The loop's state after one round: a page arrives, then the pause
    /// ends.
    pub open spec fn after_round(self, page: Vec<Post>) -> Poller {
        self.advanced(PollEvent::Page(page)).advanced(PollEvent::Woke)
    }

    /// The loop's state after several rounds, one for each page.
    pub open spec fn after_rounds(self, pages: Seq<Vec<Post>>) -> Poller
        decreases pages.len(),
    {
        if pages.len() == 0 {
            self
        } else {
            self.after_rounds(pages.drop_last()).after_round(pages.last())
        }
    }

    /// A loop that has not fetched anything yet.
    pub fn new(page_size: u32, interval_ms: u64) -> (p: Poller)
        ensures
            p.phase == Phase::Start,
            p.cursor.newest is None,
            p.page_size == page_size,
            p.interval_ms == interval_ms,
    {
        Poller { phase: Phase::Start, cursor: Cursor { newest: None }, page_size, interval_ms }
    }

    /// The step to perform in the current phase; for a new loop, the fetch
    /// of the first page.
    pub fn pending(&self) -> (act: PollAction)
        ensures
            act@ == self.pending_step(),
    {
        match self.phase {
            Phase::Start | Phase::Fetching => PollAction::Fetch {
                newer_than: self.cursor.newest,
                page_size: self.page_size,
            },
            Phase::Sleeping => PollAction::Sleep { sleep_ms: self.interval_ms },
            Phase::Stopped => PollAction::Stop { fault: None },
        }
    }

    /// Takes in what happened and says what to do next.
    pub fn step(&mut self, event: PollEvent) -> (act: PollAction)
        ensures
            act@ == old(self).step_for(event),
            *final(self) == old(self).advanced(event),
    {
        if self.phase == Phase::Stopped {
            return PollAction::Stop { fault: None };
        }
        let awaits_page = self.phase == Phase::Start || self.phase == Phase::Fetching;
        match event {
            PollEvent::Cancelled => {
                self.phase = Phase::Stopped;
                PollAction::Stop { fault: None }
            },
            PollEvent::Page(page) => {
                if !awaits_page {
                    return PollAction::Sleep { sleep_ms: self.interval_ms };
                }
                self.phase = Phase::Sleeping;
                if page.len() == 0 {
                    return PollAction::Sleep { sleep_ms: self.interval_ms };
                }
                self.cursor = Cursor { newest: Some(page[0].id) };
                PollAction::Emit { posts: chronological(page), sleep_ms: self.interval_ms }
            },
            PollEvent::Fault(fault) => {
                if awaits_page {
                    self.phase = Phase::Stopped;
                    PollAction::Stop { fault: Some(fault) }
                } else {
                    self.pending()
                }
            },
            PollEvent::Woke => {
                if self.phase == Phase::Sleeping {
                    self.phase = Phase::Fetching;
                }
                PollAction::Fetch { newer_than: self.cursor.newest, page_size: self.page_size }
            },
        }
    }
}

/// Turns a page that came newest post first into the order in which it is
/// shown: oldest post first.
pub fn chronological(page: Vec<Post>) -> (out: Vec<Post>)
    ensures
        out@ == page@.reverse(),
{
    let ghost whole = page@;
    let mut rest = page;
    let mut out: Vec<Post> = Vec::new();
    while rest.len() > 0
        invariant
            rest@ == whole.take(rest@.len() as int),
            rest@.len() <= whole.len(),
            out@.len() + rest@.len() == whole.len(),
            forall|j: int| 0 <= j < out@.len() ==> out@[j] == whole[whole.len() - 1 - j],
        decreases rest@.len(),
    {
        let ghost before = rest@;
        match rest.pop() {
            Some(post) => {
                assert(post == whole[before.len() - 1]);
                out.push(post);
            },
            None => {},
        }
    }
    assert(out@ =~= whole.reverse());
    out
}

/// Tells whether `id` is newer than what the cursor marks.
pub open spec fn newer_than(cursor: Cursor, id: u64) -> bool {
    match cursor.newest {
        Some(seen) => id > seen,
        None => true,
    }
}

/// A page as the feed promises it: not empty, every post newer than the
/// cursor it was asked with, the first post the newest.
pub open spec fn orderly_page(cursor: Cursor, page: Seq<Post>) -> bool {
    &&& page.len() > 0
    &&& forall|i: int|
        0 <= i < page.len() ==> newer_than(cursor, #[trigger] page[i].id) && page[i].id
            <= page[0].id
}

/// A run of pages, each as the feed promises it for the cursor that the
/// pages before it left.
pub open spec fn orderly_run(cursor: Cursor, pages: Seq<Seq<Post>>) -> bool
    decreases pages.len(),
{
    pages.len() == 0 || (orderly_run(cursor, pages.drop_last()) && orderly_page(
        cursor_after_pages(cursor, pages.drop_last()),
        pages.last(),
    ))
}

/// After a run of one or more fetches that each returned posts as the feed
/// promises them, the cursor marks a post of the run, and no post of the
/// run is newer than it.
pub proof fn lemma_cursor_marks_newest(cursor: Cursor, pages: Seq<Seq<Post>>)
    requires
        pages.len() > 0,
        orderly_run(cursor, pages),
    ensures
        cursor_after_pages(cursor, pages).newest matches Some(newest) && pages.last().len() > 0
            && pages.last()[0].id == newest && forall|k: int, i: int|
            0 <= k < pages.len() && 0 <= i < pages[k].len() ==> (#[trigger] pages[k][i]).id
                <= newest,
    decreases pages.len(),
{
    let earlier = pages.drop_last();
    if earlier.len() > 0 {
        lemma_cursor_marks_newest(cursor, earlier);
        let before = cursor_after_pages(cursor, earlier);
        let newest = pages.last()[0].id;
        assert(newer_than(before, pages.last()[0].id));
        assert forall|k: int, i: int| 0 <= k < pages.len() && 0 <= i < pages[k].len() implies (
        #[trigger] pages[k][i]).id <= newest by {
            if k < earlier.len() {
                assert(pages[k] == earlier[k]);
                assert(earlier[k][i].id <= before.newest.unwrap());
            }
        }
    } else {
        assert forall|k: int, i: int| 0 <= k < pages.len() && 0 <= i < pages[k].len() implies (
        #[trigger] pages[k][i]).id <= pages.last()[0].id by {
            assert(pages[k] == pages.last());
        }
    }
}

/// The pages of several fetches as mathematical values.
pub open spec fn page_views(pages: Seq<Vec<Post>>) -> Seq<Seq<Post>> {
    Seq::new(pages.len(), |k: int| pages[k]@)
}

/// A loop that awaits a page awaits one again after every round, and its
/// cursor has moved as the pages of the rounds say.
pub proof fn lemma_rounds_move_cursor(poller: Poller, pages: Seq<Vec<Post>>)
    requires
        poller.awaits_page(),
    ensures
        poller.after_rounds(pages).awaits_page(),
        poller.after_rounds(pages).cursor == cursor_after_pages(poller.cursor, page_views(pages)),
        poller.after_rounds(pages).page_size == poller.page_size,
        poller.after_rounds(pages).interval_ms == poller.interval_ms,
    decreases pages.len(),
{
    if pages.len() > 0 {
        lemma_rounds_move_cursor(poller, pages.drop_last());
        assert(page_views(pages).drop_last() == page_views(pages.drop_last()));
        assert(page_views(pages).last() == pages.last()@);
    }
}

/// After one or more rounds whose fetches each returned posts as the feed
/// promises them, the loop's cursor marks the first post of the last page,
/// and no post of any of the pages is newer than it.
pub proof fn lemma_cursor_follows_newest(poller: Poller, pages: Seq<Vec<Post>>)
    requires
        poller.awaits_page(),
        pages.len() > 0,
        orderly_run(poller.cursor, page_views(pages)),
    ensures
        poller.after_rounds(pages).cursor.newest matches Some(newest) && pages.last()@.len() > 0
            && pages.last()@[0].id == newest && forall|k: int, i: int|
            0 <= k < pages.len() && 0 <= i < pages[k]@.len() ==> (#[trigger] pages[k]@[i]).id
                <= newest,
{
    lemma_rounds_move_cursor(poller, pages);
    lemma_cursor_marks_newest(poller.cursor, page_views(pages));
    let newest = poller.after_rounds(pages).cursor.newest.unwrap();
    assert(page_views(pages).last() == pages.last()@);
    assert forall|k: int, i: int| 0 <= k < pages.len() && 0 <= i < pages[k]@.len() implies (
    #[trigger] pages[k]@[i]).id <= newest by {
        assert(page_views(pages)[k] == pages[k]@);
        assert(page_views(pages)[k][i].id <= newest);
    }
}

/// A round whose fetch returned no post leaves the cursor where it was.
pub proof fn lemma_empty_round_keeps_cursor(poller: Poller, page: Vec<Post>)
    requires
        page@.len() == 0,
    ensures
        poller.after_round(page).cursor == poller.cursor,
{
}

/// A fetch that returns no post leaves the cursor where it was, and so
/// does any run of such fetches.
pub proof fn lemma_empty_pages_keep_cursor(cursor: Cursor, pages: Seq<Seq<Post>>)
    requires
        forall|k: int| 0 <= k < pages.len() ==> (#[trigger] pages[k]).len() == 0,
    ensures
        cursor_after_pages(cursor, pages) == cursor,
    decreases pages.len(),
{
    if pages.len() > 0 {
        lemma_empty_pages_keep_cursor(cursor, pages.drop_last());
    }
}

} // verus!
