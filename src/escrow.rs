use std::collections::BTreeMap;
use vstd::prelude::*;

use crate::subaccount::{subaccount_of, subaccount_spec};
use crate::types::{
    anonymous_bytes, Account, AccountView, Deposit, DepositError, DepositView, Identity,
    TransferArg,
};

verus! {

broadcast use vstd::std_specs::btree::group_btree_axioms;

/// The fee that the ledger charges for one transfer.
pub const TRANSFER_FEE: u128 = 10_000;

/// Nanoseconds in one second.
pub const NANOS_PER_SECOND: u64 = 1_000_000_000;

/// The escrow's durable state: the ledger it trusts, the next deposit
/// identifier, and the accepted deposits ordered by identifier.
pub struct EscrowState {
    token_id: Identity,
    deposit_counter: u64,
    deposits: BTreeMap<u64, Deposit>,
}

/// The mathematical form of the escrow's state.
pub struct EscrowView {
    pub ledger: Seq<u8>,
    pub counter: u64,
    pub deposits: Map<u64, DepositView>,
}

impl EscrowView {
    /// The identifiers in use are exactly those below the counter, so the
    /// counter is the number of deposits recorded.
    pub open spec fn wf(self) -> bool {
        &&& self.deposits.dom().finite()
        &&& self.deposits.dom().len() == self.counter
        &&& forall|k: u64| #[trigger] self.deposits.contains_key(k) <==> k < self.counter
    }

    /// The state after recording deposit `d` under the next identifier.
    pub open spec fn recorded(self, d: DepositView) -> EscrowView {
        EscrowView {
            ledger: self.ledger,
            counter: (self.counter + 1) as u64,
            deposits: self.deposits.insert(self.counter, d),
        }
    }

    /// The state after recording each deposit of `ds`, in order.
    pub open spec fn recorded_all(self, ds: Seq<DepositView>) -> EscrowView
        decreases ds.len(),
    {
        if ds.len() == 0 {
            self
        } else {
            self.recorded_all(ds.drop_last()).recorded(ds.last())
        }
    }
}

/// The state of a fresh escrow: no ledger set, no deposits.
pub open spec fn initial_view() -> EscrowView {
    EscrowView { ledger: anonymous_bytes(), counter: 0, deposits: Map::empty() }
}

/// Why a deposit request is refused before any ledger call, if it is.
pub open spec fn precheck(s: EscrowView, timelock: u64) -> Option<DepositError> {
    if timelock == 0 {
        Some(DepositError::InvalidTimelock)
    } else if s.ledger == anonymous_bytes() {
        Some(DepositError::LedgerNotSet)
    } else {
        None
    }
}

/// What the ledger's balance reply decides: the net amount to pull, or why
/// the deposit is refused. `None` stands for a failed balance call.
pub open spec fn balance_decision(balance: Option<u128>) -> Result<u128, DepositError> {
    match balance {
        None => Err(DepositError::LedgerCallFailed),
        Some(b) => if b <= TRANSFER_FEE {
            Err(DepositError::InsufficientBalance)
        } else {
            Ok((b - TRANSFER_FEE) as u128)
        },
    }
}

/// The unlock time, in nanoseconds, of a deposit made at `now` for
/// `timelock` seconds; it stays at the largest `u64` where it would pass it.
pub open spec fn unlock_time(now: u64, timelock: u64) -> u64 {
    let t = now + timelock * NANOS_PER_SECOND;
    if t > u64::MAX {
        u64::MAX
    } else {
        t as u64
    }
}

/// The deposit account of a (user, timelock) pair at the escrow.
pub open spec fn deposit_account(escrow: Seq<u8>, user: Seq<u8>, timelock: u64) -> AccountView {
    AccountView { owner: escrow, subaccount: Some(subaccount_spec(user, timelock)) }
}

/// A deposit request that passed its checks and waits for the balance of its
/// deposit account.
pub struct PendingDeposit {
    pub ledger: Identity,
    pub escrow: Identity,
    pub user: Identity,
    pub timelock: u64,
    pub subaccount: [u8; 32],
    pub deposit_account: Account,
}

impl PendingDeposit {
    /// This request is the one for `user` and `timelock` at `escrow`, to be
    /// served by `ledger`.
    pub open spec fn is_for(
        self,
        ledger: Seq<u8>,
        escrow: Seq<u8>,
        user: Seq<u8>,
        timelock: u64,
    ) -> bool {
        &&& self.ledger@ == ledger
        &&& self.escrow@ == escrow
        &&& self.user@ == user
        &&& self.timelock == timelock
        &&& self.subaccount@ == subaccount_spec(user, timelock)
        &&& self.deposit_account@ == deposit_account(escrow, user, timelock)
    }
}

/// A deposit request whose funds are to be pulled by `arg`.
pub struct PendingTransfer {
    pub ledger: Identity,
    pub user: Identity,
    pub timelock: u64,
    pub amount: u128,
    pub arg: TransferArg,
}

/// `arg` moves `amount` from subaccount `from` of the escrow to the escrow's
/// main account, declaring the fixed fee.
pub open spec fn pulls(arg: TransferArg, escrow: Seq<u8>, from: Seq<u8>, amount: u128) -> bool {
    &&& arg.from_subaccount.is_some()
    &&& arg.from_subaccount.unwrap()@ == from
    &&& arg.to@ == AccountView { owner: escrow, subaccount: None }
    &&& arg.amount == amount
    &&& arg.fee == Some(TRANSFER_FEE)
    &&& arg.memo.is_none()
    &&& arg.created_at_time.is_none()
}

/// Recording a deposit on a well-formed state keeps it well formed.
pub proof fn lemma_recorded_wf(s: EscrowView, d: DepositView)
    requires
        s.wf(),
        s.counter < u64::MAX,
    ensures
        s.recorded(d).wf(),
        s.recorded(d).deposits.dom().len() == s.deposits.dom().len() + 1,
{
    let n = s.recorded(d);
    assert(!s.deposits.contains_key(s.counter));
    assert(n.deposits.dom() =~= s.deposits.dom().insert(s.counter));
    assert forall|k: u64| #[trigger] n.deposits.contains_key(k) <==> k < n.counter by {
        if k == s.counter {
        } else {
            assert(n.deposits.contains_key(k) == s.deposits.contains_key(k));
        }
    }
}

/// A deposit request made before any ledger was set is refused with
/// `LedgerNotSet`, unless its timelock is zero, which is refused first.
pub proof fn lemma_deposit_before_init(timelock: u64)
    ensures
        timelock != 0 ==> precheck(initial_view(), timelock) == Some(DepositError::LedgerNotSet),
        timelock == 0 ==> precheck(initial_view(), timelock) == Some(
            DepositError::InvalidTimelock,
        ),
{
}

/// Two deposits that complete one after the other, whichever of their ledger
/// calls returned first, receive distinct and consecutive identifiers, and
/// both records are kept.
pub proof fn lemma_two_deposits_consecutive(s: EscrowView, d1: DepositView, d2: DepositView)
    requires
        s.wf(),
        s.counter + 2 <= u64::MAX,
    ensures
        ({
            let s1 = s.recorded(d1);
            let s2 = s1.recorded(d2);
            &&& s1.counter == s.counter + 1
            &&& s2.counter == s.counter + 2
            &&& s2.deposits.contains_key(s.counter)
            &&& s2.deposits[s.counter] == d1
            &&& s2.deposits.contains_key(s1.counter)
            &&& s2.deposits[s1.counter] == d2
            &&& s2.deposits.dom().len() == s.deposits.dom().len() + 2
            &&& s2.wf()
        }),
{
    lemma_recorded_wf(s, d1);
    lemma_recorded_wf(s.recorded(d1), d2);
}

/// After a successful pull from a deposit account that held `balance`, the
/// ledger has debited the amount moved plus the declared fee, which leaves
/// nothing there: a second request for the same deposit account is then
/// refused with `InsufficientBalance` and records nothing.
pub proof fn lemma_repeat_deposit_refused(balance: u128)
    requires
        balance > TRANSFER_FEE,
    ensures
        balance_decision(Some(balance)) is Ok,
        balance - balance_decision(Some(balance))->Ok_0 - TRANSFER_FEE == 0,
        balance_decision(Some(0)) == Err::<u128, DepositError>(DepositError::InsufficientBalance),
{
}

/// Starting from a fresh escrow, the counter after `ds.len()` successful
/// deposits equals that number, and so does the number of records.
pub proof fn lemma_counter_after_deposits(ds: Seq<DepositView>)
    requires
        ds.len() <= u64::MAX,
    ensures
        initial_view().recorded_all(ds).counter == ds.len(),
        initial_view().recorded_all(ds).deposits.dom().len() == ds.len(),
        initial_view().recorded_all(ds).wf(),
    decreases ds.len(),
{
    if ds.len() == 0 {
        assert(initial_view().deposits.dom() =~= Set::<u64>::empty());
    } else {
        lemma_counter_after_deposits(ds.drop_last());
        lemma_recorded_wf(initial_view().recorded_all(ds.drop_last()), ds.last());
    }
}

/// The counter of a well-formed state is the number of deposits recorded.
pub proof fn lemma_counter_counts_deposits(s: EscrowView)
    requires
        s.wf(),
    ensures
        s.counter == s.deposits.dom().len(),
{
}

impl View for EscrowState {
    type V = EscrowView;

    closed spec fn view(&self) -> EscrowView {
        EscrowView {
            ledger: self.token_id@,
            counter: self.deposit_counter,
            deposits: self.deposits@.map_values(|d: Deposit| d@),
        }
    }
}

impl EscrowState {
    /// A fresh escrow: the ledger reference holds the anonymous principal
    /// until `init` runs, the counter is 0 and no deposit exists.
    pub fn new() -> (r: EscrowState)
        ensures
            r@ == initial_view(),
            r@.wf(),
    {
        let r = EscrowState {
            token_id: Identity::anonymous(),
            deposit_counter: 0,
            deposits: BTreeMap::new(),
        };
        proof {
            assert(r@.deposits =~= Map::<u64, DepositView>::empty());
        }
        r
    }

    /// Sets the ledger that the escrow trusts.
    pub fn init(&mut self, token_id: Identity)
        ensures
            final(self)@ == (EscrowView { ledger: token_id@, ..old(self)@ }),
    {
        self.token_id = token_id;
    }

    /// The ledger that the escrow trusts.
    pub fn ledger(&self) -> (r: &Identity)
        ensures
            r@ == self@.ledger,
    {
        &self.token_id
    }

    /// The identifier that the next deposit will receive, which is also the
    /// number of deposits recorded so far.
    pub fn deposit_counter(&self) -> (r: u64)
        ensures
            r == self@.counter,
    {
        self.deposit_counter
    }

    /// The deposit recorded under `id`, if any.
    pub fn get_deposit(&self, id: u64) -> (r: Option<&Deposit>)
        ensures
            match r {
                Some(d) => self@.deposits.contains_key(id) && self@.deposits[id] == d@,
                None => !self@.deposits.contains_key(id),
            },
    {
        proof {
            assert(vstd::std_specs::btree::key_obeys_cmp_spec::<u64>());
        }
        self.deposits.get(&id)
    }

    /// First step of a deposit for `user` and `timelock` at the escrow whose
    /// identity is `escrow`: checks the request and, where it passes, names
    /// the ledger to ask and the deposit account whose balance to ask for.
    /// No ledger call is needed before this step, and none follows a refusal.
    pub fn begin_deposit(&self, escrow: &Identity, user: &Identity, timelock: u64) -> (r: Result<
        PendingDeposit,
        DepositError,
    >)
        ensures
            match precheck(self@, timelock) {
                Some(e) => r == Err::<PendingDeposit, DepositError>(e),
                None => r is Ok && r->Ok_0.is_for(self@.ledger, escrow@, user@, timelock),
            },
            timelock == 0 ==> r == Err::<PendingDeposit, DepositError>(
                DepositError::InvalidTimelock,
            ),
    {
        if timelock == 0 {
            return Err(DepositError::InvalidTimelock);
        }
        if self.token_id.is_anonymous() {
            return Err(DepositError::LedgerNotSet);
        }
        let subaccount = subaccount_of(user, timelock);
        let deposit_account = Account { owner: escrow.duplicate(), subaccount: Some(subaccount) };
        Ok(
            PendingDeposit {
                ledger: self.token_id.duplicate(),
                escrow: escrow.duplicate(),
                user: user.duplicate(),
                timelock,
                subaccount,
                deposit_account,
            },
        )
    }

    /// Second step: takes the balance of the deposit account (`None` where the
    /// balance call failed) and, where it exceeds the fee, gives the transfer
    /// that pulls the balance less the fee into the escrow's main account.
    pub fn on_balance(p: PendingDeposit, balance: Option<u128>) -> (r: Result<
        PendingTransfer,
        DepositError,
    >)
        ensures
            match balance_decision(balance) {
                Err(e) => r == Err::<PendingTransfer, DepositError>(e),
                Ok(net) => r is Ok && {
                    let t = r->Ok_0;
                    &&& t.ledger@ == p.ledger@
                    &&& t.user@ == p.user@
                    &&& t.timelock == p.timelock
                    &&& t.amount == net
                    &&& pulls(t.arg, p.escrow@, p.subaccount@, net)
                },
            },
    {
        let b = match balance {
            None => {
                return Err(DepositError::LedgerCallFailed);
            },
            Some(b) => b,
        };
        if b <= TRANSFER_FEE {
            return Err(DepositError::InsufficientBalance);
        }
        let amount = b - TRANSFER_FEE;
        let arg = TransferArg {
            from_subaccount: Some(p.subaccount),
            to: Account { owner: p.escrow, subaccount: None },
            amount,
            fee: Some(TRANSFER_FEE),
            memo: None,
            created_at_time: None,
        };
        Ok(PendingTransfer { ledger: p.ledger, user: p.user, timelock: p.timelock, amount, arg })
    }

    /// Records `deposit` under the next identifier, which it returns, and
    /// advances the counter.
    pub fn record_deposit(&mut self, deposit: Deposit) -> (r: u64)
        requires
            old(self)@.wf(),
            old(self)@.counter < u64::MAX,
        ensures
            r == old(self)@.counter,
            final(self)@ == old(self)@.recorded(deposit@),
            final(self)@.wf(),
    {
        let id = self.deposit_counter;
        proof {
            assert(vstd::std_specs::btree::key_obeys_cmp_spec::<u64>());
        }
        let ghost before = self@;
        let ghost d = deposit@;
        self.deposits.insert(id, deposit);
        self.deposit_counter = id + 1;
        proof {
            assert(self@.deposits =~= before.deposits.insert(id, d));
            lemma_recorded_wf(before, d);
        }
        id
    }

    /// Last step: takes whether the ledger confirmed the transfer (false where
    /// the call failed or the ledger refused it) and the time now in
    /// nanoseconds. On success it records the deposit under the next
    /// identifier, which it returns; on failure the state is left as it was.
    pub fn on_transfer(&mut self, t: PendingTransfer, transferred: bool, now: u64) -> (r: Result<
        u64,
        DepositError,
    >)
        requires
            old(self)@.wf(),
            old(self)@.counter < u64::MAX,
        ensures
            final(self)@.wf(),
            !transferred ==> r == Err::<u64, DepositError>(DepositError::TransferFailed)
                && final(self)@ == old(self)@,
            transferred ==> r == Ok::<u64, DepositError>(old(self)@.counter) && final(self)@
                == old(self)@.recorded(
                DepositView {
                    unlocktime: unlock_time(now, t.timelock),
                    principal: t.user@,
                    amount: t.amount,
                },
            ),
    {
        if !transferred {
            return Err(DepositError::TransferFailed);
        }
        let total: u128 = now as u128 + t.timelock as u128 * NANOS_PER_SECOND as u128;
        let unlocktime: u64 = if total > u64::MAX as u128 {
            u64::MAX
        } else {
            total as u64
        };
        let deposit = Deposit { unlocktime, principal: t.user, amount: t.amount };
        let id = self.record_deposit(deposit);
        Ok(id)
    }
}

} // verus!
