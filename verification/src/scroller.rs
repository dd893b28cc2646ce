use vstd::prelude::*;

use crate::errors::SlackClientError;
use crate::models::SlackCursorId;

verus! {

/// One page of a cursor-driven listing: its items and the cursor under which
/// the next page can be asked for. An absent or empty cursor ends the walk.
#[derive(Debug, Clone, PartialEq)]
pub struct SlackApiScrollablePage<T> {
    pub items: Vec<T>,
    pub next_cursor: Option<SlackCursorId>,
}

/// Whether a page's cursor asks for another page.
pub open spec fn cursor_continues(c: Option<SlackCursorId>) -> bool {
    match c {
        Some(c) => c.0@.len() > 0,
        None => false,
    }
}

/// What walking a run of page outcomes yields: the items of every page up to
/// and including the first whose cursor ends the walk, in order; an error
/// ends the walk too and is surfaced after the items already gathered. A run
/// that is exhausted while a cursor still asks for more simply ends.
pub open spec fn scroll_collect<T>(
    pages: Seq<Result<SlackApiScrollablePage<T>, SlackClientError>>,
) -> (Seq<T>, Option<SlackClientError>)
    decreases pages.len(),
{
    if pages.len() == 0 {
        (Seq::empty(), None)
    } else {
        match pages[0] {
            Err(e) => (Seq::empty(), Some(e)),
            Ok(page) => if !cursor_continues(page.next_cursor) {
                (page.items@, None)
            } else {
                let rest = scroll_collect(pages.skip(1));
                (page.items@ + rest.0, rest.1)
            },
        }
    }
}

/// Walks a run of page outcomes and gathers the items, stopping at the first
/// ending cursor or error, exactly as `scroll_collect` says.
#[verifier::loop_isolation(false)]
pub fn collect_scrollable_pages<T>(
    pages: Vec<Result<SlackApiScrollablePage<T>, SlackClientError>>,
) -> (r: (Vec<T>, Option<SlackClientError>))
    ensures
        r.0@ == scroll_collect(pages@).0,
        r.1 == scroll_collect(pages@).1,
{
    let ghost orig = pages@;
    let mut pages = pages;
    let mut out: Vec<T> = Vec::new();
    loop
        invariant
            scroll_collect(orig).0 == out@ + scroll_collect(pages@).0,
            scroll_collect(orig).1 == scroll_collect(pages@).1,
        decreases pages.len(),
    {
        if pages.len() == 0 {
            proof {
                assert(out@ + scroll_collect(pages@).0 =~= out@);
            }
            return (out, None);
        }
        let ghost before = pages@;
        let next = pages.remove(0);
        proof {
            assert(pages@ =~= before.skip(1));
        }
        match next {
            Err(e) => {
                proof {
                    assert(out@ + scroll_collect(before).0 =~= out@);
                }
                return (out, Some(e));
            },
            Ok(page) => {
                let continues = match &page.next_cursor {
                    Some(c) => !c.value().as_str().is_empty(),
                    None => false,
                };
                proof {
                    assert(continues == cursor_continues(page.next_cursor));
                }
                let ghost out_before = out@;
                let mut items = page.items;
                out.append(&mut items);
                if !continues {
                    proof {
                        assert(scroll_collect(orig).0 =~= out@);
                    }
                    return (out, None);
                }
                proof {
                    assert(out_before + scroll_collect(before).0 =~= out@ + scroll_collect(
                        pages@,
                    ).0);
                }
            },
        }
    }
}

/// The items of a run of successful pages, in order.
pub open spec fn pages_items<T>(
    pages: Seq<Result<SlackApiScrollablePage<T>, SlackClientError>>,
) -> Seq<T>
    decreases pages.len(),
{
    if pages.len() == 0 {
        Seq::empty()
    } else {
        (match pages[0] {
            Ok(page) => page.items@,
            Err(_) => Seq::empty(),
        }) + pages_items(pages.skip(1))
    }
}

/// Law: when every page but the last carries a continuing cursor and the
/// last carries an ending one, the walk yields exactly the concatenation of
/// all the pages' items, and then ends without an error.
pub proof fn lemma_scroll_all_pages<T>(
    pages: Seq<Result<SlackApiScrollablePage<T>, SlackClientError>>,
)
    requires
        pages.len() > 0,
        forall|i: int| 0 <= i < pages.len() ==> (#[trigger] pages[i]) is Ok,
        forall|i: int|
            0 <= i < pages.len() - 1 ==> cursor_continues((#[trigger] pages[i])->Ok_0.next_cursor),
        !cursor_continues(pages[pages.len() - 1]->Ok_0.next_cursor),
    ensures
        scroll_collect(pages).0 == pages_items(pages),
        scroll_collect(pages).1 is None,
    decreases pages.len(),
{
    if pages.len() == 1 {
        assert(pages[0] is Ok);
        assert(pages.skip(1).len() == 0);
        assert(pages_items(pages.skip(1)) =~= Seq::<T>::empty());
        assert(pages_items(pages) =~= pages[0]->Ok_0.items@);
        assert(scroll_collect(pages).0 =~= pages_items(pages));
    } else {
        let rest = pages.skip(1);
        assert(forall|i: int| 0 <= i < rest.len() ==> rest[i] == pages[i + 1]);
        lemma_scroll_all_pages(rest);
        assert(scroll_collect(pages).0 =~= pages_items(pages));
    }
}

/// Law: an error at one page of the walk, every earlier page successful with
/// a continuing cursor, yields exactly the items of the earlier pages and
/// then surfaces that error.
pub proof fn lemma_scroll_error_surfaces<T>(
    pages: Seq<Result<SlackApiScrollablePage<T>, SlackClientError>>,
    k: int,
)
    requires
        0 <= k < pages.len(),
        forall|i: int| 0 <= i < k ==> (#[trigger] pages[i]) is Ok,
        forall|i: int| 0 <= i < k ==> cursor_continues((#[trigger] pages[i])->Ok_0.next_cursor),
        pages[k] is Err,
    ensures
        scroll_collect(pages).0 == pages_items(pages.take(k)),
        scroll_collect(pages).1 == Some(pages[k]->Err_0),
    decreases k,
{
    if k == 0 {
        assert(pages_items(pages.take(0)) =~= Seq::<T>::empty());
        assert(scroll_collect(pages).0 =~= pages_items(pages.take(0)));
    } else {
        let rest = pages.skip(1);
        assert(forall|i: int| 0 <= i < rest.len() ==> rest[i] == pages[i + 1]);
        lemma_scroll_error_surfaces(rest, k - 1);
        assert(rest.take(k - 1) =~= pages.take(k).skip(1));
        assert(scroll_collect(pages).0 =~= pages_items(pages.take(k)));
    }
}

} // verus!
