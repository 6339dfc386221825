//! Planning of a batch: which batches are accepted, what total they move and
//! which notices they publish. Nothing here touches the host; a batch is a
//! list of `(recipient, amount)` pairs over any account type `A`.

use vstd::prelude::*;

verus! {

/// How the tokens are moved and how the batch is reported.
#[derive(Clone, Copy, Debug, PartialEq, Eq, Structural)]
pub enum Mode {
    /// Each amount is moved straight out of the sender's balance; one notice
    /// with the cumulative total is published after the last transfer.
    Direct,
    /// Each amount is drawn on the allowance that the sender granted itself;
    /// one notice is published per transfer.
    Allowance,
}

/// Why a batch was given up. Every one of these is fatal to the invocation.
#[derive(Clone, Copy, Debug, PartialEq, Eq, Structural)]
pub enum DistributeError {
    /// The entry at `index` is not an `(address, amount)` pair.
    MalformedEntry { index: usize },
    /// The amount at `index` is zero or negative; no entry before it is.
    NonPositiveAmount { index: usize },
    /// The amounts add up to more than an `i128` holds.
    TotalOverflow,
    /// The transfer at `index` was not made, for `reason`; those before it
    /// went through.
    TransferFailed { index: usize, reason: Refusal },
}

/// Why the token contract did not make a transfer.
#[derive(Clone, Copy, Debug, PartialEq, Eq, Structural)]
pub enum Refusal {
    /// The token address is that of an account, so there is no contract to
    /// ask; nothing was asked.
    NoContract,
    /// It failed with an error of its own, numbered `code`.
    Contract { code: u32 },
    /// It panicked, or the host stopped it.
    Abort,
    /// It answered with a value where none was expected.
    Reply,
}

/// One request to the token contract: move `amount` from `from` to `to`,
/// on the allowance of `spender` where there is one.
#[derive(Debug, PartialEq, Eq)]
pub struct Order<A> {
    pub spender: Option<A>,
    pub from: A,
    pub to: A,
    pub amount: i128,
}

/// An event that a batch publishes.
#[derive(Clone, Copy, Debug, PartialEq, Eq, Structural)]
pub enum Notice {
    /// Topic `("distribute_batch", token)`, payload `total`.
    Batch { total: i128 },
    /// Topic `("distributed", recipient)`, payload `amount`; `index` is the
    /// position of the recipient in the batch.
    Transfer { index: usize, amount: i128 },
}

/// Topic of the notice that reports a whole batch.
pub const BATCH_TOPIC: &'static str = "distribute_batch";

/// Topic of the notice that reports a single transfer.
pub const TRANSFER_TOPIC: &'static str = "distributed";

/// Every entry of the list as read is a pair.
pub open spec fn well_formed<A>(list: Seq<Option<(A, i128)>>) -> bool {
    forall|i: int| 0 <= i < list.len() ==> (#[trigger] list[i]) is Some
}

/// `k` is the position of the first entry that is no pair.
pub open spec fn is_first_malformed<A>(list: Seq<Option<(A, i128)>>, k: int) -> bool {
    &&& 0 <= k < list.len()
    &&& list[k] is None
    &&& forall|j: int| 0 <= j < k ==> (#[trigger] list[j]) is Some
}

/// The position of the first entry that is no pair, in a list that has one.
pub open spec fn first_malformed<A>(list: Seq<Option<(A, i128)>>) -> int {
    choose|k: int| is_first_malformed(list, k)
}

/// The pairs of a list in which every entry is one.
pub open spec fn pairs<A>(list: Seq<Option<(A, i128)>>) -> Seq<(A, i128)> {
    Seq::new(list.len(), |i: int| list[i].unwrap())
}

/// The batch that a list as read holds, or the position of its first
/// malformed entry.
pub open spec fn decoded<A>(list: Seq<Option<(A, i128)>>) -> Result<Seq<(A, i128)>, DistributeError> {
    if well_formed(list) {
        Ok(pairs(list))
    } else {
        Err(DistributeError::MalformedEntry { index: first_malformed(list) as usize })
    }
}

/// Every amount of the batch is strictly positive.
pub open spec fn all_positive<A>(batch: Seq<(A, i128)>) -> bool {
    forall|i: int| 0 <= i < batch.len() ==> (#[trigger] batch[i]).1 > 0
}

/// `k` is the position of the first amount that is not strictly positive.
pub open spec fn is_first_non_positive<A>(batch: Seq<(A, i128)>, k: int) -> bool {
    &&& 0 <= k < batch.len()
    &&& batch[k].1 <= 0
    &&& forall|j: int| 0 <= j < k ==> (#[trigger] batch[j]).1 > 0
}

/// The position of the first amount that is not strictly positive, in a batch
/// that has one.
pub open spec fn first_non_positive<A>(batch: Seq<(A, i128)>) -> int {
    choose|k: int| is_first_non_positive(batch, k)
}

/// The sum of all amounts of the batch, as a mathematical integer.
pub open spec fn total<A>(batch: Seq<(A, i128)>) -> int
    decreases batch.len(),
{
    if batch.len() == 0 {
        0
    } else {
        total(batch.drop_last()) + batch.last().1
    }
}

/// The request that an entry of the batch gives rise to. In
/// `Mode::Allowance` the sender spends on its own allowance.
pub open spec fn order_of<A>(mode: Mode, sender: A, entry: (A, i128)) -> Order<A> {
    Order {
        spender: match mode {
            Mode::Direct => None,
            Mode::Allowance => Some(sender),
        },
        from: sender,
        to: entry.0,
        amount: entry.1,
    }
}

/// The requests of a whole batch, in its order.
pub open spec fn orders<A>(mode: Mode, sender: A, batch: Seq<(A, i128)>) -> Seq<Order<A>> {
    Seq::new(batch.len(), |i: int| order_of(mode, sender, batch[i]))
}

/// What is published for a notice: the topic, the address beside it and the
/// payload. The notice of a transfer names its recipient by position;
/// `None` where the batch has no such position.
pub open spec fn announced<A>(notice: Notice, token: A, batch: Seq<(A, i128)>) -> Option<(Seq<char>, A, i128)> {
    match notice {
        Notice::Batch { total } => Some((BATCH_TOPIC@, token, total)),
        Notice::Transfer { index, amount } => if index < batch.len() {
            Some((TRANSFER_TOPIC@, batch[index as int].0, amount))
        } else {
            None
        },
    }
}

/// One notice per entry, in the order of the batch.
pub open spec fn itemized<A>(batch: Seq<(A, i128)>) -> Seq<Notice> {
    Seq::new(batch.len(), |i: int| Notice::Transfer { index: i as usize, amount: batch[i].1 })
}

/// What a batch comes to when every transfer goes through: the notices it
/// publishes, or the reason for which it is rejected before any transfer.
pub open spec fn planned<A>(mode: Mode, batch: Seq<(A, i128)>) -> Result<Seq<Notice>, DistributeError> {
    if !all_positive(batch) {
        Err(DistributeError::NonPositiveAmount { index: first_non_positive(batch) as usize })
    } else {
        match mode {
            Mode::Direct => if total(batch) > i128::MAX {
                Err(DistributeError::TotalOverflow)
            } else {
                Ok(seq![Notice::Batch { total: total(batch) as i128 }])
            },
            Mode::Allowance => Ok(itemized(batch)),
        }
    }
}

/// What a batch comes to when the token contract refuses the transfer at
/// the position in `failed`, for the reason beside it, or none of them
/// (`None`).
pub open spec fn outcome<A>(mode: Mode, batch: Seq<(A, i128)>, failed: Option<(int, Refusal)>) -> Result<Seq<Notice>, DistributeError> {
    match planned(mode, batch) {
        Err(e) => Err(e),
        Ok(notices) => match failed {
            Some((k, reason)) => Err(DistributeError::TransferFailed { index: k as usize, reason }),
            None => Ok(notices),
        },
    }
}

/// Every answer says that the transfer was made.
pub open spec fn all_made(answers: Seq<Result<(), Refusal>>) -> bool {
    forall|i: int| 0 <= i < answers.len() ==> (#[trigger] answers[i]) is Ok
}

/// `k` is the position of the first answer that is a refusal.
pub open spec fn is_first_refused(answers: Seq<Result<(), Refusal>>, k: int) -> bool {
    &&& 0 <= k < answers.len()
    &&& answers[k] is Err
    &&& forall|j: int| 0 <= j < k ==> (#[trigger] answers[j]) is Ok
}

/// The first refusal among the answers to the transfers of a batch, with
/// its position; `None` where every transfer was made.
pub open spec fn refusal_in(answers: Seq<Result<(), Refusal>>) -> Option<(int, Refusal)> {
    if all_made(answers) {
        None
    } else {
        let k = choose|k: int| is_first_refused(answers, k);
        match answers[k] {
            Err(reason) => Some((k, reason)),
            Ok(_) => None,
        }
    }
}

/// The answers are those of one run over a batch of `n` entries: a run asks
/// for the transfers in order and stops at the first refusal, so every
/// answer but the last says that the transfer was made, and there are fewer
/// answers than entries only where the last is a refusal. Where the token
/// address is that of no contract, the one answer is that.
pub open spec fn answered(contract: bool, n: nat, answers: Seq<Result<(), Refusal>>) -> bool {
    if !contract && n > 0 {
        answers == seq![Err::<(), Refusal>(Refusal::NoContract)]
    } else {
        &&& answers.len() <= n
        &&& forall|i: int| 0 <= i < answers.len() - 1 ==> (#[trigger] answers[i]) is Ok
        &&& answers.len() < n ==> answers.len() > 0 && answers.last() is Err
    }
}

/// `failed` is a way for the transfers of an accepted batch to end. Where
/// the token address is that of no contract, the first transfer fails for
/// that; else any transfer of the batch may be refused, or none.
pub open spec fn possible<A>(contract: bool, batch: Seq<(A, i128)>, failed: Option<(int, Refusal)>) -> bool {
    if !contract && batch.len() > 0 {
        failed == Some((0int, Refusal::NoContract))
    } else {
        failed matches Some((k, _)) ==> 0 <= k < batch.len()
    }
}

/// The requests that reach the token contract in a run that ends as
/// `failed` says: none where the batch is rejected or the token address is
/// that of no contract; else those of the batch in its order, up to and with
/// the one that was refused, if one was.
pub open spec fn put<A>(mode: Mode, contract: bool, sender: A, batch: Seq<(A, i128)>, failed: Option<(int, Refusal)>) -> Seq<Order<A>> {
    if planned(mode, batch) is Err || !contract {
        Seq::empty()
    } else {
        match failed {
            Some((k, _)) => orders(mode, sender, batch).take(k + 1),
            None => orders(mode, sender, batch),
        }
    }
}

/// A result says the same as its model: the same error, or the same notices
/// in the same order.
pub open spec fn agrees(r: Result<Vec<Notice>, DistributeError>, o: Result<Seq<Notice>, DistributeError>) -> bool {
    match r {
        Ok(v) => o == Ok::<Seq<Notice>, DistributeError>(v@),
        Err(e) => o == Err::<Seq<Notice>, DistributeError>(e),
    }
}

/// Answers have at most one first refusal, and that is the one that
/// `refusal_in` gives.
pub proof fn first_refused_is_unique(answers: Seq<Result<(), Refusal>>, k: int)
    requires
        is_first_refused(answers, k),
    ensures
        refusal_in(answers) matches Some((at, reason)) && at == k && answers[k] == Err::<(), Refusal>(reason),
{
    let c = choose|c: int| is_first_refused(answers, c);
    assert(is_first_refused(answers, c));
    if c < k {
        assert(answers[c] is Ok);
    }
    if k < c {
        assert(answers[k] is Ok);
    }
    assert(answers[k] is Err);
}

/// The answers of one run end it in a way that is possible for the batch.
pub proof fn answers_end_a_run<A>(contract: bool, batch: Seq<(A, i128)>, answers: Seq<Result<(), Refusal>>)
    requires
        answered(contract, batch.len(), answers),
    ensures
        possible(contract, batch, refusal_in(answers)),
        refusal_in(answers) is None ==> contract || batch.len() == 0,
        refusal_in(answers) is None ==> answers.len() == batch.len(),
        refusal_in(answers) matches Some((k, _)) ==> k == answers.len() - 1,
{
    if !contract && batch.len() > 0 {
        assert(answers[0] is Err);
        first_refused_is_unique(answers, 0);
    } else if answers.len() > 0 && answers.last() is Err {
        first_refused_is_unique(answers, answers.len() - 1);
    } else {
        assert forall|i: int| 0 <= i < answers.len() implies (#[trigger] answers[i]) is Ok by {
            if i == answers.len() - 1 {
                assert(answers[i] == answers.last());
            }
        }
    }
}

/// A batch has at most one first non-positive amount.
pub proof fn first_non_positive_is_unique<A>(batch: Seq<(A, i128)>, k: int)
    requires
        is_first_non_positive(batch, k),
    ensures
        first_non_positive(batch) == k,
        !all_positive(batch),
{
    let c = first_non_positive(batch);
    assert(is_first_non_positive(batch, c));
    if c < k {
        assert(batch[c].1 > 0);
    }
    if k < c {
        assert(batch[k].1 > 0);
    }
    assert(batch[k].1 <= 0);
}

/// A batch with a non-positive amount at `i` has a first one, at or before
/// `i`.
pub proof fn least_non_positive<A>(batch: Seq<(A, i128)>, i: int)
    requires
        0 <= i < batch.len(),
        batch[i].1 <= 0,
    ensures
        is_first_non_positive(batch, first_non_positive(batch)),
        0 <= first_non_positive(batch) <= i,
    decreases i,
{
    if forall|j: int| 0 <= j < i ==> (#[trigger] batch[j]).1 > 0 {
        first_non_positive_is_unique(batch, i);
    } else {
        let j = choose|j: int| 0 <= j < i && !((#[trigger] batch[j]).1 > 0);
        least_non_positive(batch, j);
    }
}

/// Adding a positive amount to a batch of positive amounts raises its total.
pub proof fn total_grows<A>(batch: Seq<(A, i128)>, n: int)
    requires
        all_positive(batch),
        0 <= n <= batch.len(),
    ensures
        0 <= total(batch.take(n)) <= total(batch),
        n < batch.len() ==> total(batch.take(n)) + batch[n].1 == total(batch.take(n + 1)),
        n < batch.len() ==> total(batch.take(n + 1)) <= total(batch),
    decreases batch.len() - n,
{
    if n == batch.len() {
        assert(batch.take(n) =~= batch);
        total_is_non_negative(batch);
    } else {
        assert(batch.take(n + 1).drop_last() =~= batch.take(n));
        assert(batch.take(n + 1).last() == batch[n]);
        assert(batch[n].1 > 0);
        total_grows(batch, n + 1);
        total_is_non_negative(batch.take(n));
    }
}

/// A batch of positive amounts has a total of at least zero.
pub proof fn total_is_non_negative<A>(batch: Seq<(A, i128)>)
    requires
        all_positive(batch),
    ensures
        0 <= total(batch),
    decreases batch.len(),
{
    if batch.len() > 0 {
        let front = batch.drop_last();
        assert forall|i: int| 0 <= i < front.len() implies (#[trigger] front[i]).1 > 0 by {
            assert(front[i] == batch[i]);
        }
        total_is_non_negative(front);
        assert(batch.last() == batch[batch.len() - 1]);
    }
}

/// Sorts a list as read into a batch: the pairs in order where every entry
/// is one, the position of the first that is none otherwise.
pub fn collect<A>(list: Vec<Option<(A, i128)>>) -> (r: Result<Vec<(A, i128)>, DistributeError>)
    ensures
        match r {
            Ok(batch) => decoded(list@) == Ok::<Seq<(A, i128)>, DistributeError>(batch@),
            Err(e) => decoded(list@) == Err::<Seq<(A, i128)>, DistributeError>(e),
        },
{
    let ghost read = list@;
    let mut rest = list;
    let mut batch: Vec<(A, i128)> = Vec::new();
    let n: usize = rest.len();
    let mut i: usize = 0;
    while i < n
        invariant
            i <= n,
            read == list@,
            n == read.len(),
            rest@.len() == n,
            forall|j: int| i <= j < n ==> rest@[j] == read[j],
            batch@.len() == i,
            forall|j: int| 0 <= j < i ==> (#[trigger] read[j]) == Some(batch@[j]),
        decreases n - i,
    {
        let mut entry: Option<(A, i128)> = None;
        std::mem::swap(&mut entry, &mut rest[i]);
        match entry {
            Some(pair) => {
                batch.push(pair);
            },
            None => {
                proof {
                    let c = first_malformed(read);
                    assert(is_first_malformed(read, i as int));
                    assert(is_first_malformed(read, c));
                    if c < i {
                        assert(read[c] is Some);
                    }
                    if i < c {
                        assert(read[i as int] is Some);
                    }
                }
                return Err(DistributeError::MalformedEntry { index: i });
            },
        }
        i += 1;
    }
    proof {
        assert(well_formed(read));
        assert(batch@ =~= pairs(read));
    }
    Ok(batch)
}

/// Says what is published for a notice: the topic, the address beside it
/// and the payload.
pub fn announcement<'a, A>(notice: &Notice, token: &'a A, batch: &'a Vec<(A, i128)>) -> (r: Option<(&'static str, &'a A, i128)>)
    ensures
        match r {
            Some((topic, subject, payload)) => announced(*notice, *token, batch@) == Some((topic@, *subject, payload)),
            None => announced(*notice, *token, batch@) is None,
        },
{
    match notice {
        Notice::Batch { total } => Some((BATCH_TOPIC, token, *total)),
        Notice::Transfer { index, amount } => if *index < batch.len() {
            Some((TRANSFER_TOPIC, &batch[*index].0, *amount))
        } else {
            None
        },
    }
}

/// Makes out the request for one entry of the batch.
pub fn order_for<'a, A>(mode: Mode, sender: &'a A, entry: &'a (A, i128)) -> (order: Order<&'a A>)
    ensures
        order == order_of::<&A>(mode, sender, (&entry.0, entry.1)),
{
    Order {
        spender: match mode {
            Mode::Direct => None,
            Mode::Allowance => Some(sender),
        },
        from: sender,
        to: &entry.0,
        amount: entry.1,
    }
}

/// Finds the first amount that is zero or negative.
pub fn find_non_positive<A>(batch: &Vec<(A, i128)>) -> (r: Option<usize>)
    ensures
        match r {
            Some(k) => is_first_non_positive(batch@, k as int),
            None => all_positive(batch@),
        },
{
    let mut i: usize = 0;
    while i < batch.len()
        invariant
            i <= batch.len(),
            forall|j: int| 0 <= j < i ==> (#[trigger] batch@[j]).1 > 0,
        decreases batch.len() - i,
    {
        if batch[i].1 <= 0 {
            return Some(i);
        }
        i += 1;
    }
    None
}

/// Adds up a batch of positive amounts, or tells that the sum does not fit.
fn checked_total<A>(batch: &Vec<(A, i128)>) -> (r: Option<i128>)
    requires
        all_positive(batch@),
    ensures
        r == (if total(batch@) <= i128::MAX { Some(total(batch@) as i128) } else { None }),
{
    let mut sum: i128 = 0;
    let mut i: usize = 0;
    proof {
        total_grows(batch@, 0);
        assert(batch@.take(0).len() == 0);
    }
    while i < batch.len()
        invariant
            i <= batch.len(),
            all_positive(batch@),
            sum == total(batch@.take(i as int)),
        decreases batch.len() - i,
    {
        proof {
            total_grows(batch@, i as int);
        }
        match sum.checked_add(batch[i].1) {
            Some(next) => {
                sum = next;
            },
            None => {
                return None;
            },
        }
        i += 1;
    }
    proof {
        assert(batch@.take(i as int) =~= batch@);
    }
    Some(sum)
}

/// Lists one notice per entry of the batch.
fn itemize<A>(batch: &Vec<(A, i128)>) -> (notices: Vec<Notice>)
    ensures
        notices@ == itemized(batch@),
{
    let mut notices: Vec<Notice> = Vec::new();
    let mut i: usize = 0;
    while i < batch.len()
        invariant
            i <= batch.len(),
            notices@.len() == i,
            forall|j: int| 0 <= j < i ==> notices@[j] == itemized(batch@)[j],
        decreases batch.len() - i,
    {
        notices.push(Notice::Transfer { index: i, amount: batch[i].1 });
        i += 1;
    }
    proof {
        assert(notices@ =~= itemized(batch@));
    }
    notices
}

/// Checks a batch before anything is moved and lists the notices that it will
/// publish. A batch with a zero or negative amount is rejected with the
/// position of the first one; in `Mode::Direct` a batch whose total does not
/// fit an `i128` is rejected too.
pub fn plan<A>(mode: Mode, batch: &Vec<(A, i128)>) -> (r: Result<Vec<Notice>, DistributeError>)
    ensures
        agrees(r, planned(mode, batch@)),
{
    match find_non_positive(batch) {
        Some(k) => {
            proof {
                first_non_positive_is_unique(batch@, k as int);
            }
            Err(DistributeError::NonPositiveAmount { index: k })
        },
        None => match mode {
            Mode::Direct => match checked_total(batch) {
                Some(sum) => {
                    let mut notices: Vec<Notice> = Vec::new();
                    notices.push(Notice::Batch { total: sum });
                    proof {
                        assert(notices@ =~= seq![Notice::Batch { total: sum }]);
                    }
                    Ok(notices)
                },
                None => Err(DistributeError::TotalOverflow),
            },
            Mode::Allowance => Ok(itemize(batch)),
        },
    }
}

/// Decides what a planned batch comes to from the answers that the token
/// contract gave to its transfers: the failure at the first refusal, with
/// its reason, or the planned notices where every transfer was made.
pub fn settle(notices: Vec<Notice>, answers: &Vec<Result<(), Refusal>>) -> (r: Result<Vec<Notice>, DistributeError>)
    ensures
        r == (match refusal_in(answers@) {
            Some((k, reason)) => Err::<Vec<Notice>, DistributeError>(
                DistributeError::TransferFailed { index: k as usize, reason },
            ),
            None => Ok::<Vec<Notice>, DistributeError>(notices),
        }),
{
    let mut i: usize = 0;
    while i < answers.len()
        invariant
            i <= answers.len(),
            forall|j: int| 0 <= j < i ==> (#[trigger] answers@[j]) is Ok,
        decreases answers.len() - i,
    {
        match answers[i] {
            Ok(()) => {},
            Err(reason) => {
                proof {
                    first_refused_is_unique(answers@, i as int);
                }
                return Err(DistributeError::TransferFailed { index: i, reason });
            },
        }
        i += 1;
    }
    Ok(notices)
}

} // verus!
