use vstd::prelude::*;

verus! {

/// A principal identity, held as its raw bytes.
pub struct Identity {
    pub bytes: Vec<u8>,
}

/// The raw bytes of the anonymous principal, which stands for "no ledger set".
pub open spec fn anonymous_bytes() -> Seq<u8> {
    seq![4u8]
}

impl View for Identity {
    type V = Seq<u8>;

    open spec fn view(&self) -> Seq<u8> {
        self.bytes@
    }
}

impl Identity {
    /// The anonymous principal.
    pub fn anonymous() -> (r: Identity)
        ensures
            r@ == anonymous_bytes(),
    {
        let mut bytes: Vec<u8> = Vec::new();
        bytes.push(4u8);
        proof {
            assert(bytes@ =~= anonymous_bytes());
        }
        Identity { bytes }
    }

    /// Whether this is the anonymous principal.
    pub fn is_anonymous(&self) -> (r: bool)
        ensures
            r == (self@ == anonymous_bytes()),
    {
        if self.bytes.len() == 1 && self.bytes[0] == 4u8 {
            proof {
                assert(self@ =~= anonymous_bytes());
            }
            true
        } else {
            false
        }
    }

    /// A copy of this identity.
    pub fn duplicate(&self) -> (r: Identity)
        ensures
            r@ == self@,
    {
        let mut bytes: Vec<u8> = Vec::new();
        let mut i: usize = 0;
        while i < self.bytes.len()
            invariant
                i <= self.bytes@.len(),
                bytes@ == self.bytes@.subrange(0, i as int),
            decreases self.bytes@.len() - i,
        {
            bytes.push(self.bytes[i]);
            proof {
                assert(bytes@ =~= self.bytes@.subrange(0, i + 1));
            }
            i = i + 1;
        }
        proof {
            assert(bytes@ =~= self.bytes@);
        }
        Identity { bytes }
    }
}

/// A ledger account: an owner and an optional 32-byte subaccount.
pub struct Account {
    pub owner: Identity,
    pub subaccount: Option<[u8; 32]>,
}

/// The mathematical form of an account.
pub struct AccountView {
    pub owner: Seq<u8>,
    pub subaccount: Option<Seq<u8>>,
}

impl View for Account {
    type V = AccountView;

    open spec fn view(&self) -> AccountView {
        AccountView {
            owner: self.owner@,
            subaccount: match self.subaccount {
                Some(s) => Some(s@),
                None => None,
            },
        }
    }
}

/// An accepted deposit: who made it, the amount held (net of the fee) and the
/// absolute time, in nanoseconds, at which it unlocks.
pub struct Deposit {
    pub unlocktime: u64,
    pub principal: Identity,
    pub amount: u128,
}

/// The mathematical form of a deposit record.
pub struct DepositView {
    pub unlocktime: u64,
    pub principal: Seq<u8>,
    pub amount: u128,
}

impl View for Deposit {
    type V = DepositView;

    open spec fn view(&self) -> DepositView {
        DepositView { unlocktime: self.unlocktime, principal: self.principal@, amount: self.amount }
    }
}

/// The transfer instruction handed to the ledger to pull funds out of a
/// deposit account.
pub struct TransferArg {
    pub from_subaccount: Option<[u8; 32]>,
    pub to: Account,
    pub amount: u128,
    pub fee: Option<u128>,
    pub memo: Option<Vec<u8>>,
    pub created_at_time: Option<u64>,
}

/// Why a deposit was refused.
#[derive(Clone, Copy, Debug, PartialEq, Eq, Structural)]
pub enum DepositError {
    InvalidTimelock,
    LedgerNotSet,
    LedgerCallFailed,
    InsufficientBalance,
    TransferFailed,
}

/// Optional ledger features switched on at ledger creation.
#[derive(Clone, Copy, Debug, PartialEq, Eq, Structural)]
pub struct FeatureFlags {
    pub icrc2: bool,
}

} // verus!
