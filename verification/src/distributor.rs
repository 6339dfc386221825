//! The distributor: reads the recipient list off the host, checks it, and
//! moves the amounts one by one through the token contract.

use vstd::prelude::*;
use soroban_sdk::token::TokenClient;
use soroban_sdk::{Address, Env, Val};
use crate::batch::{
    agrees, all_made, announcement, answered, answers_end_a_run, collect, decoded,
    first_refused_is_unique, order_for, order_of, orders, outcome, plan, planned, possible, put,
    refusal_in, settle, DistributeError, Mode, Notice, Order, Refusal,
};
use crate::host::{
    address_in, amount_in, as_address, as_amount, entry_count, entry_parts, is_contract,
    names_contract, parts_at, publish, token_client, token_of, try_transfer, try_transfer_from,
};

verus! {

/// Batch transfers of one token on behalf of one sender.
pub struct Distributor;

/// The pair that an entry of a recipient list stands for: the entry is a
/// vector of two values, an address and a 128-bit signed integer.
pub open spec fn entry(list: soroban_sdk::Vec<(Address, i128)>, parts: Option<Seq<Val>>) -> Option<(Address, i128)> {
    match parts {
        Some(values) => if values.len() == 2 {
            match (address_in(list, values[0]), amount_in(list, values[1])) {
                (Some(recipient), Some(amount)) => Some((recipient, amount)),
                _ => None,
            }
        } else {
            None
        },
        None => None,
    }
}

/// The pairs of a recipient list, position by position; `None` where the
/// entry stands for none.
pub open spec fn entries(list: soroban_sdk::Vec<(Address, i128)>) -> Seq<Option<(Address, i128)>> {
    Seq::new(entry_parts(list).len(), |i: int| entry(list, entry_parts(list)[i]))
}

/// The request with its addresses by value.
pub open spec fn owned(order: Order<&Address>) -> Order<Address> {
    Order {
        spender: match order.spender {
            Some(spender) => Some(*spender),
            None => None,
        },
        from: *order.from,
        to: *order.to,
        amount: order.amount,
    }
}

/// What `Distributor::distribute_with` returns on a recipient list, given
/// whether the token address is that of a contract. A malformed list gives
/// its decoding error, and nothing is asked of the token contract. Any other
/// list gives what its batch comes to for one of the ways in which its
/// transfers can end, and `asked` holds the transfers that were asked of the
/// token contract on the way: those of the batch in its order, up to and
/// with the first that was refused. No list holds more than `u32::MAX`
/// entries.
pub open spec fn distributed(
    mode: Mode,
    contract: bool,
    sender: Address,
    list: Seq<Option<(Address, i128)>>,
    r: Result<Vec<Notice>, DistributeError>,
    asked: Seq<Order<Address>>,
) -> bool {
    &&& list.len() <= u32::MAX
    &&& match decoded(list) {
        Err(e) => r == Err::<Vec<Notice>, DistributeError>(e) && asked == Seq::<Order<Address>>::empty(),
        Ok(batch) => exists|failed: Option<(int, Refusal)>|
            {
                &&& #[trigger] possible(contract, batch, failed)
                &&& agrees(r, outcome(mode, batch, failed))
                &&& asked == put(mode, contract, sender, batch, failed)
            },
    }
}

/// Reads the entry at `i` off the host.
fn read_entry(recipients: &soroban_sdk::Vec<(Address, i128)>, i: u32) -> (e: Option<(Address, i128)>)
    requires
        i < entries(*recipients).len(),
    ensures
        e == entries(*recipients)[i as int],
{
    let values = match parts_at(recipients, i) {
        Some(values) => values,
        None => {
            return None;
        },
    };
    if values.len() != 2 {
        return None;
    }
    match (as_address(recipients, &values[0]), as_amount(recipients, &values[1])) {
        (Some(recipient), Some(amount)) => Some((recipient, amount)),
        _ => None,
    }
}

/// Reads a recipient list off the host, entry by entry: the pair at each
/// position, `None` where the entry is no `(address, amount)` pair.
pub fn read(recipients: &soroban_sdk::Vec<(Address, i128)>) -> (list: Vec<Option<(Address, i128)>>)
    ensures
        list@ == entries(*recipients),
        list@.len() <= u32::MAX,
{
    let n: u32 = entry_count(recipients);
    let mut list: Vec<Option<(Address, i128)>> = Vec::new();
    let mut i: u32 = 0;
    while i < n
        invariant
            i <= n,
            n == entries(*recipients).len(),
            list@.len() == i,
            forall|j: int| 0 <= j < i ==> list@[j] == entries(*recipients)[j],
        decreases n - i,
    {
        list.push(read_entry(recipients, i));
        i += 1;
    }
    proof {
        assert(list@ =~= entries(*recipients));
    }
    list
}

/// Reads a recipient list off the host and sorts it into a batch. A list in
/// which every entry is an `(address, amount)` pair gives the pairs in
/// order; any other gives the position of the first entry that is none.
pub fn decode(recipients: &soroban_sdk::Vec<(Address, i128)>) -> (r: Result<Vec<(Address, i128)>, DistributeError>)
    ensures
        match r {
            Ok(batch) => decoded(entries(*recipients)) == Ok::<Seq<(Address, i128)>, DistributeError>(batch@),
            Err(e) => decoded(entries(*recipients)) == Err::<Seq<(Address, i128)>, DistributeError>(e),
        },
        entries(*recipients).len() <= u32::MAX,
{
    collect(read(recipients))
}

/// Publishes one notice of a batch: what `announcement` says of it.
fn announce(env: &Env, token: &Address, batch: &Vec<(Address, i128)>, notice: &Notice) {
    match announcement(notice, token, batch) {
        Some((topic, subject, payload)) => publish(env, topic, subject, payload),
        None => {},
    }
}

/// Puts one request to the token contract.
fn submit<'a>(client: &TokenClient<'a>, order: Order<&Address>) -> Result<(), Refusal>
    requires
        is_contract(token_of(*client)),
{
    match order.spender {
        None => try_transfer(client, order.from, order.to, order.amount),
        Some(spender) => try_transfer_from(client, spender, order.from, order.to, order.amount),
    }
}

/// Asks the token contract for the transfers of a planned batch in order,
/// and stops at the first that it refuses. Hands back the answers as they
/// came, and the record of what was asked: one request per answer. Where
/// the token address is that of no contract, nothing is asked and the one
/// answer is that. In `Mode::Allowance` the notice of each transfer is
/// published as soon as it was made.
fn transfer_all<'a>(
    env: &Env,
    mode: Mode,
    client: &TokenClient<'a>,
    token: &Address,
    sender: &Address,
    batch: &Vec<(Address, i128)>,
    notices: &Vec<Notice>,
) -> (out: (Vec<Result<(), Refusal>>, Ghost<Seq<Order<Address>>>))
    requires
        planned(mode, batch@) == Ok::<Seq<Notice>, DistributeError>(notices@),
        token_of(*client) == *token,
    ensures
        answered(is_contract(*token), batch@.len(), out.0@),
        out.1@ == put(mode, is_contract(*token), *sender, batch@, refusal_in(out.0@)),
{
    let ghost all = orders(mode, *sender, batch@);
    let ghost mut asked: Seq<Order<Address>> = Seq::empty();
    let mut answers: Vec<Result<(), Refusal>> = Vec::new();
    if batch.len() > 0 && !names_contract(token) {
        answers.push(Err(Refusal::NoContract));
        proof {
            assert(answers@ =~= seq![Err::<(), Refusal>(Refusal::NoContract)]);
        }
        return (answers, Ghost(asked));
    }
    let mut i: usize = 0;
    proof {
        assert(all.take(0) =~= asked);
    }
    while i < batch.len()
        invariant
            i <= batch.len(),
            planned(mode, batch@) == Ok::<Seq<Notice>, DistributeError>(notices@),
            batch.len() > 0 ==> is_contract(*token),
            token_of(*client) == *token,
            all == orders(mode, *sender, batch@),
            asked == all.take(i as int),
            answers@.len() == i,
            all_made(answers@),
        decreases batch.len() - i,
    {
        let order = order_for(mode, sender, &batch[i]);
        proof {
            assert(owned(order) == order_of(mode, *sender, batch@[i as int]));
            assert(all[i as int] == order_of(mode, *sender, batch@[i as int]));
            assert(all.take(i as int).push(all[i as int]) =~= all.take(i + 1));
            asked = asked.push(owned(order));
        }
        let answer = submit(client, order);
        answers.push(answer);
        match answer {
            Ok(()) => {},
            Err(reason) => {
                proof {
                    first_refused_is_unique(answers@, i as int);
                }
                return (answers, Ghost(asked));
            },
        }
        match mode {
            Mode::Direct => {},
            Mode::Allowance => {
                announce(env, token, batch, &notices[i]);
            },
        }
        i += 1;
    }
    proof {
        assert(all.take(i as int) =~= all);
    }
    (answers, Ghost(asked))
}

impl Distributor {
    /// Moves each listed amount of the token at `token_address` from `sender`
    /// to its recipient, in list order, straight out of the sender's balance,
    /// and publishes the cumulative total: `distribute_with` in
    /// `Mode::Direct`.
    ///
    /// The sender is not authenticated here. The calling contract does that
    /// first, with `sender.require_auth()`, and aborts on any error that
    /// comes back.
    pub fn distribute(env: Env, token_address: Address, sender: Address, recipients: soroban_sdk::Vec<(Address, i128)>) -> (out: (Result<Vec<Notice>, DistributeError>, Ghost<Seq<Order<Address>>>))
        ensures
            distributed(Mode::Direct, is_contract(token_address), sender, entries(recipients), out.0, out.1@),
    {
        Distributor::distribute_with(env, Mode::Direct, token_address, sender, recipients)
    }

    /// Moves each listed amount of the token at `token_address` from `sender`
    /// to its recipient, in list order. Returns the notices it published,
    /// and beside them, for proofs only, the record of the transfers that it
    /// asked of the token contract.
    ///
    /// The list is checked before anything is moved: a malformed entry, a
    /// zero or negative amount, or, in `Mode::Direct`, a total that does not
    /// fit an `i128`, gives the error and leaves the token contract alone.
    /// A token address that names an account fails the first transfer, and
    /// so does the first transfer that the token contract refuses.
    ///
    /// The sender is not authenticated here. The calling contract does that
    /// first, with `sender.require_auth()`, and aborts the invocation on any
    /// error that comes back, so that the host undoes what went through
    /// before it. All arguments are values of the host `env`.
    pub fn distribute_with(env: Env, mode: Mode, token_address: Address, sender: Address, recipients: soroban_sdk::Vec<(Address, i128)>) -> (out: (Result<Vec<Notice>, DistributeError>, Ghost<Seq<Order<Address>>>))
        ensures
            distributed(mode, is_contract(token_address), sender, entries(recipients), out.0, out.1@),
    {
        let ghost contract = is_contract(token_address);
        let batch = match decode(&recipients) {
            Ok(batch) => batch,
            Err(e) => {
                return (Err(e), Ghost(Seq::empty()));
            },
        };
        let notices = match plan(mode, &batch) {
            Ok(notices) => notices,
            Err(e) => {
                proof {
                    let failed: Option<(int, Refusal)> = if !contract && batch@.len() > 0 {
                        Some((0int, Refusal::NoContract))
                    } else {
                        None
                    };
                    assert(possible(contract, batch@, failed));
                    assert(agrees(Err::<Vec<Notice>, DistributeError>(e), outcome(mode, batch@, failed)));
                }
                return (Err(e), Ghost(Seq::empty()));
            },
        };
        let client = token_client(&env, &token_address);
        let (answers, asked) = transfer_all(&env, mode, &client, &token_address, &sender, &batch, &notices);
        let r = settle(notices, &answers);
        proof {
            answers_end_a_run(contract, batch@, answers@);
            assert(possible(contract, batch@, refusal_in(answers@)));
            assert(agrees(r, outcome(mode, batch@, refusal_in(answers@))));
        }
        match &r {
            Ok(notices) => match mode {
                Mode::Direct => {
                    announce(&env, &token_address, &batch, &notices[0]);
                },
                Mode::Allowance => {},
            },
            Err(_) => {},
        }
        (r, asked)
    }
}

} // verus!
