//! What holds of the marketplace over any sequence of calls.

use vstd::prelude::*;
use crate::book::BookView;
use crate::error::Error;
use crate::market::{Call, Market};
use crate::tip::TipView;

verus! {

/// How many of `calls`, made one after the other from `start`, publish a book.
pub open spec fn published_in(start: Market, calls: Seq<Call>) -> nat
    decreases calls.len(),
{
    if calls.len() == 0 {
        0
    } else {
        let earlier = calls.drop_last();
        let one: nat = if calls.last() is Publish && start.run(earlier).accepts(calls.last()) {
            1
        } else {
            0
        };
        published_in(start, earlier) + one
    }
}

/// The tips on record for a book after `calls`, made one after the other from
/// `start`: those on record at the start, then the tip of each call that tips
/// the book successfully, in the order of the calls.
pub open spec fn tips_after(start: Market, calls: Seq<Call>, book_id: u32) -> Seq<TipView>
    decreases calls.len(),
{
    if calls.len() == 0 {
        start.tips_of(book_id)
    } else {
        let earlier = calls.drop_last();
        let last = calls.last();
        if last is Tip && last->Tip_book_id == book_id && start.run(earlier).accepts(last) {
            tips_after(start, earlier, book_id).push(last.tip())
        } else {
            tips_after(start, earlier, book_id)
        }
    }
}

/// The marketplace with nothing on record satisfies the invariant.
pub proof fn lemma_empty_inv()
    ensures
        Market::empty().inv(),
{
}

/// No call breaks the invariant: after it, as before, no book has more copies
/// left than it offered, and a book without a limit has all of its supply.
pub proof fn lemma_step_inv(m: Market, call: Call)
    requires
        m.inv(),
    ensures
        m.step(call).inv(),
{
    let next = m.step(call);
    if m.accepts(call) {
        match call {
            Call::Initialize { .. } => {},
            Call::Publish { .. } => {
                assert(call.book().wf());
                assert forall|id: u32| #[trigger]
                    next.books.contains_key(id) <==> 1 <= id <= next.counter by {}
            },
            Call::Buy { buyer, book_id, .. } => {
                assert(m.books.contains_key(book_id));
                assert(m.books[book_id].wf());
                assert(m.books[book_id].sold().wf());
                assert forall|b: Seq<char>, id: u32| #[trigger]
                    next.purchases.contains((b, id)) implies next.books.contains_key(id)
                    && next.books[id].author_address != b by {
                    if (b, id) != (buyer, book_id) {
                        assert(m.purchases.contains((b, id)));
                    }
                }
            },
            Call::Tip { book_id, .. } => {
                assert forall|id: u32, i: int|
                    next.tips.contains_key(id) && 0 <= i < next.tips[id].len() implies (#[trigger]
                    next.tips[id][i]).amount > 0 by {
                    if id == book_id {
                        if i < m.tips_of(book_id).len() {
                            assert(m.tips.contains_key(id));
                            assert(next.tips[id][i] == m.tips[id][i]);
                        }
                    } else {
                        assert(m.tips.contains_key(id));
                    }
                }
            },
        }
    }
}

/// The invariant holds after any sequence of calls.
pub proof fn lemma_run_inv(start: Market, calls: Seq<Call>)
    requires
        start.inv(),
    ensures
        start.run(calls).inv(),
    decreases calls.len(),
{
    if calls.len() > 0 {
        lemma_run_inv(start, calls.drop_last());
        lemma_step_inv(start.run(calls.drop_last()), calls.last());
    }
}

/// A call that publishes a book successfully returns the id after the
/// counter and moves the counter to it. No other call moves the counter.
pub proof fn lemma_counter_steps_by_one(m: Market, call: Call)
    requires
        m.inv(),
    ensures
        call is Publish && m.accepts(call) ==> {
            &&& m.next_id() == m.counter + 1
            &&& m.step(call).counter == m.next_id()
            &&& m.step(call).books.contains_key(m.next_id())
            &&& !m.books.contains_key(m.next_id())
        },
        !(call is Publish && m.accepts(call)) ==> m.step(call).counter == m.counter,
{
}

/// After any sequence of calls the counter has moved by the number of books
/// that the calls have published.
pub proof fn lemma_counter_counts_published(start: Market, calls: Seq<Call>)
    requires
        start.inv(),
    ensures
        start.run(calls).counter == start.counter + published_in(start, calls),
    decreases calls.len(),
{
    if calls.len() > 0 {
        let earlier = calls.drop_last();
        lemma_counter_counts_published(start, earlier);
        lemma_run_inv(start, earlier);
        lemma_counter_steps_by_one(start.run(earlier), calls.last());
    }
}

/// Ids are given out as 1, 2, 3 and so on: in any sequence of calls to a new
/// marketplace, a call that publishes a book successfully returns the number
/// of books published up to and including it.
pub proof fn lemma_ids_are_consecutive(calls: Seq<Call>, k: int)
    requires
        0 <= k < calls.len(),
        calls[k] is Publish,
        Market::empty().run(calls.take(k)).accepts(calls[k]),
    ensures
        Market::empty().run(calls.take(k)).next_id() == published_in(
            Market::empty(),
            calls.take(k),
        ) + 1,
        published_in(Market::empty(), calls.take(k + 1)) == published_in(
            Market::empty(),
            calls.take(k),
        ) + 1,
{
    let start = Market::empty();
    lemma_counter_counts_published(start, calls.take(k));
    assert(calls.take(k + 1).drop_last() =~= calls.take(k));
    assert(calls.take(k + 1).last() == calls[k]);
}

/// No call changes anything of a book on record but the copies that are left
/// of it, and those never become more.
pub proof fn lemma_books_stay(m: Market, call: Call, book_id: u32)
    requires
        m.inv(),
        m.books.contains_key(book_id),
    ensures
        m.step(call).books.contains_key(book_id),
        m.step(call).books[book_id].remaining_supply <= m.books[book_id].remaining_supply,
        m.step(call).books[book_id] == (BookView {
            remaining_supply: m.step(call).books[book_id].remaining_supply,
            ..m.books[book_id]
        }),
{
}

/// No call changes the supply of a book without a limit.
pub proof fn lemma_unlimited_supply_stays(m: Market, call: Call, book_id: u32)
    requires
        m.inv(),
        m.books.contains_key(book_id),
        !m.books[book_id].is_special,
    ensures
        m.step(call).books.contains_key(book_id),
        m.step(call).books[book_id] == m.books[book_id],
{
}

/// The supply of a book without a limit is the same after any sequence of
/// calls.
pub proof fn lemma_unlimited_supply_stays_over_run(start: Market, calls: Seq<Call>, book_id: u32)
    requires
        start.inv(),
        start.books.contains_key(book_id),
        !start.books[book_id].is_special,
    ensures
        start.run(calls).books.contains_key(book_id),
        start.run(calls).books[book_id] == start.books[book_id],
    decreases calls.len(),
{
    if calls.len() > 0 {
        let earlier = calls.drop_last();
        lemma_unlimited_supply_stays_over_run(start, earlier, book_id);
        lemma_run_inv(start, earlier);
        lemma_unlimited_supply_stays(start.run(earlier), calls.last(), book_id);
    }
}

/// A purchase that succeeds takes exactly one copy off a special book and
/// leaves every other book as it was.
pub proof fn lemma_purchase_takes_one_copy(m: Market, call: Call, book_id: u32)
    requires
        m.inv(),
        call is Buy,
        m.accepts(call),
        m.books.contains_key(book_id),
    ensures
        m.books[call->Buy_book_id].remaining_supply > 0,
        book_id == call->Buy_book_id && m.books[book_id].is_special ==> {
            m.step(call).books[book_id].remaining_supply == m.books[book_id].remaining_supply - 1
        },
        book_id != call->Buy_book_id ==> m.step(call).books[book_id] == m.books[book_id],
{
}

/// Nothing but a purchase of the book that succeeds changes a book's record:
/// a book with copies left keeps them, and a book that is sold out stays so.
pub proof fn lemma_only_purchases_take_copies(m: Market, call: Call, book_id: u32)
    requires
        m.inv(),
        m.books.contains_key(book_id),
        !(call is Buy && call->Buy_book_id == book_id && m.accepts(call)),
    ensures
        m.step(call).books.contains_key(book_id),
        m.step(call).books[book_id] == m.books[book_id],
{
}

/// Once the admin is set, no call sets another.
pub proof fn lemma_admin_stays(m: Market, call: Call)
    requires
        m.admin is Some,
    ensures
        m.step(call).admin == m.admin,
{
}

/// The admin that is set stays set over any sequence of calls.
pub proof fn lemma_admin_stays_over_run(start: Market, calls: Seq<Call>)
    requires
        start.admin is Some,
    ensures
        start.run(calls).admin == start.admin,
    decreases calls.len(),
{
    if calls.len() > 0 {
        lemma_admin_stays_over_run(start, calls.drop_last());
        lemma_admin_stays(start.run(calls.drop_last()), calls.last());
    }
}

/// A purchase that succeeds is on record afterwards.
pub proof fn lemma_purchase_is_recorded(m: Market, call: Call)
    requires
        call is Buy,
        m.accepts(call),
    ensures
        m.step(call).has_purchased(call->buyer, call->Buy_book_id),
{
}

/// No call takes a purchase off the record.
pub proof fn lemma_purchases_stay(m: Market, call: Call, buyer: Seq<char>, book_id: u32)
    requires
        m.has_purchased(buyer, book_id),
    ensures
        m.step(call).has_purchased(buyer, book_id),
{
}

/// No sequence of calls takes a purchase off the record.
pub proof fn lemma_purchases_stay_over_run(
    start: Market,
    calls: Seq<Call>,
    buyer: Seq<char>,
    book_id: u32,
)
    requires
        start.has_purchased(buyer, book_id),
    ensures
        start.run(calls).has_purchased(buyer, book_id),
    decreases calls.len(),
{
    if calls.len() > 0 {
        let earlier = calls.drop_last();
        lemma_purchases_stay_over_run(start, earlier, buyer, book_id);
        lemma_purchases_stay(start.run(earlier), calls.last(), buyer, book_id);
    }
}

/// Whoever has bought a book cannot buy it again. The attempt is rejected as
/// unauthorized where the buyer has not consented, as sold out where no copy
/// is left, and as already purchased in every other case.
pub proof fn lemma_no_second_purchase(m: Market, authorized: bool, buyer: Seq<char>, book_id: u32)
    requires
        m.inv(),
        m.has_purchased(buyer, book_id),
    ensures
        m.buy_error(authorized, buyer, book_id) == Some(
            if !authorized {
                Error::Unauthorized
            } else if m.books[book_id].remaining_supply == 0 {
                Error::SoldOut
            } else {
                Error::AlreadyPurchased
            },
        ),
{
}

/// A buyer succeeds in buying a book at most once: in any sequence of calls,
/// after a purchase that succeeds, every later attempt of the same buyer for
/// the same book is rejected.
pub proof fn lemma_buys_at_most_once(start: Market, calls: Seq<Call>, first: int, later: int)
    requires
        start.inv(),
        0 <= first < later < calls.len(),
        calls[first] is Buy,
        calls[later] is Buy,
        calls[later]->buyer == calls[first]->buyer,
        calls[later]->Buy_book_id == calls[first]->Buy_book_id,
        start.run(calls.take(first)).accepts(calls[first]),
    ensures
        !start.run(calls.take(later)).accepts(calls[later]),
        start.run(calls.take(later)).rejection(calls[later]) is Some,
{
    let buyer = calls[first]->buyer;
    let book_id = calls[first]->Buy_book_id;
    let bought = start.run(calls.take(first + 1));
    assert(calls.take(first + 1).drop_last() =~= calls.take(first));
    assert(calls.take(first + 1).last() == calls[first]);
    lemma_purchase_is_recorded(start.run(calls.take(first)), calls[first]);
    assert(bought.has_purchased(buyer, book_id));
    let between = calls.subrange(first + 1, later);
    lemma_run_splits(start, calls.take(first + 1), between);
    assert(calls.take(first + 1) + between =~= calls.take(later));
    lemma_purchases_stay_over_run(bought, between, buyer, book_id);
    lemma_run_inv(start, calls.take(later));
    lemma_no_second_purchase(
        start.run(calls.take(later)),
        calls[later]->Buy_authorized,
        buyer,
        book_id,
    );
}

/// Making `first` and then `second` is making the two in one sequence.
pub proof fn lemma_run_splits(start: Market, first: Seq<Call>, second: Seq<Call>)
    ensures
        start.run(first + second) == start.run(first).run(second),
    decreases second.len(),
{
    if second.len() == 0 {
        assert(first + second =~= first);
    } else {
        lemma_run_splits(start, first, second.drop_last());
        assert((first + second).drop_last() =~= first + second.drop_last());
        assert((first + second).last() == second.last());
    }
}

/// The tips of a book grow by one tip, at the end, with every call that tips
/// the book successfully, and change with no other call.
pub proof fn lemma_tips_grow_by_tipping(m: Market, call: Call, book_id: u32)
    ensures
        m.step(call).tips_of(book_id) == if call is Tip && call->Tip_book_id == book_id
            && m.accepts(call) {
            m.tips_of(book_id).push(call.tip())
        } else {
            m.tips_of(book_id)
        },
{
}

/// After any sequence of calls the tips of a book are those that the calls
/// have given it, in the order of the calls.
pub proof fn lemma_tips_follow_calls(start: Market, calls: Seq<Call>, book_id: u32)
    ensures
        start.run(calls).tips_of(book_id) == tips_after(start, calls, book_id),
    decreases calls.len(),
{
    if calls.len() > 0 {
        let earlier = calls.drop_last();
        lemma_tips_follow_calls(start, earlier, book_id);
        lemma_tips_grow_by_tipping(start.run(earlier), calls.last(), book_id);
    }
}


/// Whether the ledger time never runs backwards from one tipping call of
/// `calls` to a later one.
pub open spec fn time_moves_on(calls: Seq<Call>) -> bool {
    forall|i: int, j: int|
        0 <= i < j < calls.len() && calls[i] is Tip && calls[j] is Tip ==> calls[i]->timestamp
            <= calls[j]->timestamp
}

/// No tip that a sequence of calls has left on a new marketplace is stamped
/// later than the latest tipping call of the sequence.
proof fn lemma_tips_not_after(calls: Seq<Call>, book_id: u32, latest: u64, i: int)
    requires
        forall|k: int| 0 <= k < calls.len() && calls[k] is Tip ==> calls[k]->timestamp <= latest,
        0 <= i < tips_after(Market::empty(), calls, book_id).len(),
    ensures
        tips_after(Market::empty(), calls, book_id)[i].timestamp <= latest,
    decreases calls.len(),
{
    if calls.len() > 0 {
        let earlier = calls.drop_last();
        if i < tips_after(Market::empty(), earlier, book_id).len() {
            lemma_tips_not_after(earlier, book_id, latest, i);
        }
    }
}

/// Where the ledger time never runs backwards, the tips of every book are on
/// record in the order of their time stamps.
pub proof fn lemma_tips_in_time_order(calls: Seq<Call>, book_id: u32, a: int, b: int)
    requires
        time_moves_on(calls),
        0 <= a <= b < Market::empty().run(calls).tips_of(book_id).len(),
    ensures
        ({
            let tips = Market::empty().run(calls).tips_of(book_id);
            tips[a].timestamp <= tips[b].timestamp
        }),
    decreases calls.len(),
{
    let start = Market::empty();
    lemma_tips_follow_calls(start, calls, book_id);
    if calls.len() > 0 {
        let earlier = calls.drop_last();
        let last = calls.last();
        lemma_tips_follow_calls(start, earlier, book_id);
        let before = tips_after(start, earlier, book_id);
        assert(time_moves_on(earlier)) by {
            assert forall|i: int, j: int|
                0 <= i < j < earlier.len() && earlier[i] is Tip
                    && earlier[j] is Tip implies earlier[i]->timestamp
                <= earlier[j]->timestamp by {
                assert(earlier[i] == calls[i] && earlier[j] == calls[j]);
            }
        }
        if b < before.len() {
            lemma_tips_in_time_order(earlier, book_id, a, b);
        } else if a < before.len() {
            assert forall|k: int|
                0 <= k < earlier.len() && earlier[k] is Tip implies earlier[k]->timestamp
                <= last->timestamp by {
                assert(earlier[k] == calls[k]);
            }
            lemma_tips_not_after(earlier, book_id, last->timestamp, a);
        }
    }
}

} // verus!
