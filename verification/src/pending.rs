use crate::context::{Deposit, TransferCollateral, Withdraw};
use crate::events::{DepositEvent, TransferEvent, WithdrawEvent};
use crate::transfer::TransferOrder;
use crate::vault::CollateralVault;
use vstd::prelude::*;

verus! {

/// A deposit whose balances are updated and whose order awaits the
/// asset-transfer service.
#[derive(Clone, Copy, Debug, PartialEq, Eq)]
pub struct PendingDeposit {
    /// What the service is asked to do.
    pub order: TransferOrder,
    /// What is published once the service has done it.
    pub event: DepositEvent,
    /// The vault as it stood before the deposit.
    pub prior: CollateralVault,
}

/// A withdrawal whose balances are updated and whose order awaits the
/// asset-transfer service.
#[derive(Clone, Copy, Debug, PartialEq, Eq)]
pub struct PendingWithdraw {
    /// What the service is asked to do.
    pub order: TransferOrder,
    /// What is published once the service has done it.
    pub event: WithdrawEvent,
    /// The vault as it stood before the withdrawal.
    pub prior: CollateralVault,
}

/// A transfer between two vaults whose balances are updated and whose order
/// awaits the asset-transfer service.
#[derive(Clone, Copy, Debug, PartialEq, Eq)]
pub struct PendingTransfer {
    /// What the service is asked to do.
    pub order: TransferOrder,
    /// What is published once the service has done it.
    pub event: TransferEvent,
    /// The source vault as it stood before the transfer.
    pub prior_from: CollateralVault,
    /// The destination vault as it stood before the transfer.
    pub prior_to: CollateralVault,
}

impl PendingDeposit {
    /// Ends the deposit. Where the service moved the funds, the balances stay
    /// and the event is handed out for publication. Where it did not, the
    /// vault is put back as it stood and nothing is published.
    pub fn settle(self, ctx: &mut Deposit, transferred: bool) -> (published: Option<DepositEvent>)
        ensures
            transferred ==> *final(ctx) == *old(ctx) && published == Some(self.event),
            !transferred ==> published is None && *final(ctx) == (Deposit {
                vault: self.prior,
                ..*old(ctx)
            }),
    {
        if transferred {
            Some(self.event)
        } else {
            ctx.vault = self.prior;
            None
        }
    }
}

impl PendingWithdraw {
    /// Ends the withdrawal. Where the service moved the funds, the balances
    /// stay and the event is handed out for publication. Where it did not,
    /// the vault is put back as it stood and nothing is published.
    pub fn settle(self, ctx: &mut Withdraw, transferred: bool) -> (published: Option<
        WithdrawEvent,
    >)
        ensures
            transferred ==> *final(ctx) == *old(ctx) && published == Some(self.event),
            !transferred ==> published is None && *final(ctx) == (Withdraw {
                vault: self.prior,
                ..*old(ctx)
            }),
    {
        if transferred {
            Some(self.event)
        } else {
            ctx.vault = self.prior;
            None
        }
    }
}

impl PendingTransfer {
    /// Ends the transfer. Where the service moved the funds, the balances
    /// stay and the event is handed out for publication. Where it did not,
    /// both vaults are put back as they stood and nothing is published.
    pub fn settle(self, ctx: &mut TransferCollateral, transferred: bool) -> (published: Option<
        TransferEvent,
    >)
        ensures
            transferred ==> *final(ctx) == *old(ctx) && published == Some(self.event),
            !transferred ==> published is None && *final(ctx) == (TransferCollateral {
                from_vault: self.prior_from,
                to_vault: self.prior_to,
                ..*old(ctx)
            }),
    {
        if transferred {
            Some(self.event)
        } else {
            ctx.from_vault = self.prior_from;
            ctx.to_vault = self.prior_to;
            None
        }
    }
}

} // verus!
