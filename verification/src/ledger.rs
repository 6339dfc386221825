//! A model of the token contract's books, and what a batch does to them.
//!
//! The token contract keeps the balances; this library never sees them. The
//! model says what a token that follows the usual rules does on each
//! transfer, so that the effect of a whole batch can be stated and proved.
//! What is proved here holds of a token contract as far as it keeps to the
//! model: it carries out a request exactly when `covers` holds, and then
//! changes its books as `moved` says.

use vstd::prelude::*;
use crate::batch::{
    all_positive, first_non_positive, least_non_positive, order_of, outcome, planned, total,
    total_grows, DistributeError, Mode, Notice, Order, Refusal,
};

verus! {

/// The books of one token, as far as one sender's batch is concerned.
#[verifier::reject_recursive_types(A)]
pub struct Ledger<A> {
    /// What each account holds; an account that is missing holds nothing.
    pub balances: Map<A, int>,
    /// What the sender has allowed itself to draw.
    pub allowance: int,
}

/// What `who` holds.
pub open spec fn balance<A>(ledger: Ledger<A>, who: A) -> int {
    if ledger.balances.contains_key(who) {
        ledger.balances[who]
    } else {
        0
    }
}

/// The token contract carries out the request: the amount is not negative,
/// the balance of the account that pays covers it, and where the request
/// draws on an allowance, the allowance covers it too.
pub open spec fn covers<A>(ledger: Ledger<A>, order: Order<A>) -> bool {
    &&& 0 <= order.amount
    &&& balance(ledger, order.from) >= order.amount
    &&& order.spender is Some ==> ledger.allowance >= order.amount
}

/// The books after the request was carried out.
pub open spec fn moved<A>(ledger: Ledger<A>, order: Order<A>) -> Ledger<A> {
    let debited = ledger.balances.insert(order.from, balance(ledger, order.from) - order.amount);
    let held = if debited.contains_key(order.to) { debited[order.to] } else { 0 };
    Ledger {
        balances: debited.insert(order.to, held + order.amount),
        allowance: if order.spender is Some { ledger.allowance - order.amount } else { ledger.allowance },
    }
}

/// The books after every transfer of the batch went through, in order.
pub open spec fn applied<A>(mode: Mode, ledger: Ledger<A>, sender: A, batch: Seq<(A, i128)>) -> Ledger<A>
    decreases batch.len(),
{
    if batch.len() == 0 {
        ledger
    } else {
        moved(applied(mode, ledger, sender, batch.drop_last()), order_of(mode, sender, batch.last()))
    }
}

/// What the batch sends to `who`, over all entries that name it.
pub open spec fn received<A>(batch: Seq<(A, i128)>, who: A) -> int
    decreases batch.len(),
{
    if batch.len() == 0 {
        0
    } else {
        received(batch.drop_last(), who) + if batch.last().0 == who { batch.last().1 as int } else { 0 }
    }
}

/// The token contract refuses the transfer at `k`, the ones before it having
/// gone through.
pub open spec fn refused_at<A>(mode: Mode, ledger: Ledger<A>, sender: A, batch: Seq<(A, i128)>, k: int) -> bool {
    &&& 0 <= k < batch.len()
    &&& !covers(applied(mode, ledger, sender, batch.take(k)), order_of(mode, sender, batch[k]))
}

/// `k` is the first transfer that the token contract refuses.
pub open spec fn is_first_refusal<A>(mode: Mode, ledger: Ledger<A>, sender: A, batch: Seq<(A, i128)>, k: int) -> bool {
    &&& refused_at(mode, ledger, sender, batch, k)
    &&& forall|j: int| 0 <= j < k ==> !refused_at(mode, ledger, sender, batch, j)
}

/// The first transfer that the token contract refuses, if it refuses one.
pub open spec fn first_refusal<A>(mode: Mode, ledger: Ledger<A>, sender: A, batch: Seq<(A, i128)>) -> Option<int> {
    if exists|k: int| refused_at(mode, ledger, sender, batch, k) {
        Some(choose|k: int| is_first_refusal(mode, ledger, sender, batch, k))
    } else {
        None
    }
}

/// The books once the invocation is over: those after the whole batch where
/// it succeeded, the books as they were where it was given up. The second
/// is the host's doing: it undoes every change of an invocation that aborts.
pub open spec fn committed<A>(mode: Mode, ledger: Ledger<A>, sender: A, batch: Seq<(A, i128)>) -> Ledger<A> {
    if planned(mode, batch) is Ok && first_refusal(mode, ledger, sender, batch) is None {
        applied(mode, ledger, sender, batch)
    } else {
        ledger
    }
}

/// After a batch went through, every account holds what it held, plus what
/// the batch sent to it, less the total if it is the sender; the allowance
/// is down by the total in `Mode::Allowance`.
pub proof fn applied_books<A>(mode: Mode, ledger: Ledger<A>, sender: A, batch: Seq<(A, i128)>)
    ensures
        forall|who: A| #[trigger] balance(applied(mode, ledger, sender, batch), who)
            == balance(ledger, who) + received(batch, who) - if who == sender { total(batch) } else { 0 },
        applied(mode, ledger, sender, batch).allowance
            == ledger.allowance - if mode is Allowance { total(batch) } else { 0 },
    decreases batch.len(),
{
    if batch.len() > 0 {
        let front = batch.drop_last();
        applied_books(mode, ledger, sender, front);
        let before = applied(mode, ledger, sender, front);
        let after = applied(mode, ledger, sender, batch);
        assert forall|who: A| #[trigger] balance(after, who)
            == balance(ledger, who) + received(batch, who) - if who == sender { total(batch) } else { 0 } by {
            assert(balance(before, who) == balance(ledger, who) + received(front, who) - if who == sender { total(front) } else { 0 });
            assert(balance(before, sender) == balance(ledger, sender) + received(front, sender) - total(front));
        }
    }
}

/// A batch of positive amounts sends nobody less than nothing.
pub proof fn received_is_non_negative<A>(batch: Seq<(A, i128)>, who: A)
    requires
        all_positive(batch),
    ensures
        0 <= received(batch, who),
    decreases batch.len(),
{
    if batch.len() > 0 {
        let front = batch.drop_last();
        assert forall|i: int| 0 <= i < front.len() implies (#[trigger] front[i]).1 > 0 by {
            assert(front[i] == batch[i]);
        }
        received_is_non_negative(front, who);
        assert(batch.last() == batch[batch.len() - 1]);
    }
}

/// An account that the batch names once, at `i`, is sent the amount at `i`.
pub proof fn received_once<A>(batch: Seq<(A, i128)>, who: A, i: int)
    requires
        0 <= i < batch.len(),
        batch[i].0 == who,
        forall|j: int| 0 <= j < batch.len() && j != i ==> (#[trigger] batch[j]).0 != who,
    ensures
        received(batch, who) == batch[i].1,
    decreases batch.len(),
{
    let front = batch.drop_last();
    let last = batch.len() - 1;
    assert(batch.last() == batch[last]);
    if i == last {
        assert forall|j: int| 0 <= j < front.len() implies (#[trigger] front[j]).0 != who by {
            assert(front[j] == batch[j]);
        }
        received_none(front, who);
    } else {
        assert(front[i] == batch[i]);
        assert forall|j: int| 0 <= j < front.len() && j != i implies (#[trigger] front[j]).0 != who by {
            assert(front[j] == batch[j]);
        }
        received_once(front, who, i);
    }
}

/// An account that the batch does not name is sent nothing.
pub proof fn received_none<A>(batch: Seq<(A, i128)>, who: A)
    requires
        forall|j: int| 0 <= j < batch.len() ==> (#[trigger] batch[j]).0 != who,
    ensures
        received(batch, who) == 0,
    decreases batch.len(),
{
    if batch.len() > 0 {
        let front = batch.drop_last();
        assert forall|j: int| 0 <= j < front.len() implies (#[trigger] front[j]).0 != who by {
            assert(front[j] == batch[j]);
        }
        received_none(front, who);
        assert(batch.last() == batch[batch.len() - 1]);
    }
}

/// A batch with an amount that is zero or negative is rejected, whatever the
/// token contract would have done, and the books stay as they were.
pub proof fn non_positive_amount_rejects_batch<A>(mode: Mode, ledger: Ledger<A>, sender: A, batch: Seq<(A, i128)>, i: int)
    requires
        0 <= i < batch.len(),
        batch[i].1 <= 0,
    ensures
        forall|failed: Option<(int, Refusal)>| #[trigger] outcome(mode, batch, failed)
            == Err::<Seq<Notice>, DistributeError>(DistributeError::NonPositiveAmount { index: first_non_positive(batch) as usize }),
        0 <= first_non_positive(batch) <= i,
        committed(mode, ledger, sender, batch) == ledger,
{
    assert(!all_positive(batch));
    least_non_positive(batch, i);
}

/// A batch of positive amounts whose total the sender's balance covers, and
/// in `Mode::Allowance` its allowance too, goes through: no transfer is
/// refused, and afterwards every account holds what it held, plus what the
/// batch sent to it, less the total if it is the sender.
pub proof fn covered_batch_goes_through<A>(mode: Mode, ledger: Ledger<A>, sender: A, batch: Seq<(A, i128)>)
    requires
        all_positive(batch),
        total(batch) <= balance(ledger, sender) <= i128::MAX,
        mode is Allowance ==> total(batch) <= ledger.allowance,
    ensures
        first_refusal(mode, ledger, sender, batch) is None,
        planned(mode, batch) is Ok,
        outcome(mode, batch, None) == planned(mode, batch),
        forall|who: A| #[trigger] balance(committed(mode, ledger, sender, batch), who)
            == balance(ledger, who) + received(batch, who) - if who == sender { total(batch) } else { 0 },
{
    assert forall|k: int| !refused_at(mode, ledger, sender, batch, k) by {
        if 0 <= k < batch.len() {
            let front = batch.take(k);
            applied_books(mode, ledger, sender, front);
            total_grows(batch, k);
            assert forall|i: int| 0 <= i < front.len() implies (#[trigger] front[i]).1 > 0 by {
                assert(front[i] == batch[i]);
            }
            received_is_non_negative(front, sender);
            let books = applied(mode, ledger, sender, front);
            assert(balance(books, sender) == balance(ledger, sender) + received(front, sender) - total(front));
        }
    }
    applied_books(mode, ledger, sender, batch);
}

/// In a batch that goes through, a recipient that is named once and is not
/// the sender ends up with the amount beside its name on top of what it
/// held; a sender that is not among the recipients ends up with the total
/// less.
pub proof fn covered_batch_credits_each_recipient<A>(mode: Mode, ledger: Ledger<A>, sender: A, batch: Seq<(A, i128)>, i: int)
    requires
        all_positive(batch),
        total(batch) <= balance(ledger, sender) <= i128::MAX,
        mode is Allowance ==> total(batch) <= ledger.allowance,
        0 <= i < batch.len(),
        forall|j: int| 0 <= j < batch.len() && j != i ==> (#[trigger] batch[j]).0 != batch[i].0,
        forall|j: int| 0 <= j < batch.len() ==> (#[trigger] batch[j]).0 != sender,
    ensures
        balance(committed(mode, ledger, sender, batch), batch[i].0) == balance(ledger, batch[i].0) + batch[i].1,
        balance(committed(mode, ledger, sender, batch), sender) == balance(ledger, sender) - total(batch),
{
    covered_batch_goes_through(mode, ledger, sender, batch);
    received_once(batch, batch[i].0, i);
    received_none(batch, sender);
    assert(batch[i].0 != sender);
}

/// Where the token contract refuses a transfer of a batch that was accepted,
/// the batch fails at that transfer, and the books stay as they were: what
/// went through before it is undone.
pub proof fn refused_transfer_undoes_batch<A>(mode: Mode, ledger: Ledger<A>, sender: A, batch: Seq<(A, i128)>, k: int)
    requires
        planned(mode, batch) is Ok,
        is_first_refusal(mode, ledger, sender, batch, k),
    ensures
        first_refusal(mode, ledger, sender, batch) == Some(k),
        forall|reason: Refusal| #[trigger] outcome(mode, batch, Some((k, reason)))
            == Err::<Seq<Notice>, DistributeError>(DistributeError::TransferFailed { index: k as usize, reason }),
        committed(mode, ledger, sender, batch) == ledger,
{
    let c = choose|c: int| is_first_refusal(mode, ledger, sender, batch, c);
    assert(is_first_refusal(mode, ledger, sender, batch, c));
    if c < k {
        assert(!refused_at(mode, ledger, sender, batch, c));
    }
    if k < c {
        assert(!refused_at(mode, ledger, sender, batch, k));
    }
}

} // verus!
