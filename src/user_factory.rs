use vstd::prelude::*;

use crate::account::{subaccount_name, AccountId, MAX_ACCOUNT_ID_LEN};
use crate::action::{outcome_view, Action, ActionModel, DeferredAction, DeferredActionModel};
use crate::context::InvocationContext;

pub mod error;

pub use error::Error;

verus! {

/// The least attached value that creates a sub-account when the caller names
/// no other threshold.
pub const DEFAULT_MIN_DEPOSIT: u128 = 1_000_000_000_000_000_000_000_000;

/// The threshold in force: the caller's, or the default.
pub open spec fn effective_threshold(yocto: Option<u128>) -> u128 {
    match yocto {
        Some(amount) => amount,
        None => DEFAULT_MIN_DEPOSIT,
    }
}

/// What `create_subaccount` gives: the refusal of a deposit under the
/// threshold, or, on `prefix.<current account>`, the creation of the account,
/// a full-access key for the signer's public key and the transfer of the whole
/// attached value, in this order.
pub open spec fn create_subaccount_outcome(
    ctx: InvocationContext,
    prefix: Seq<char>,
    yocto: Option<u128>,
) -> Result<DeferredActionModel, Error> {
    if ctx.attached_deposit >= effective_threshold(yocto) {
        Ok(
            DeferredActionModel {
                receiver_id: subaccount_name(prefix, ctx.current_account@),
                actions: seq![
                    ActionModel::CreateAccount,
                    ActionModel::AddFullAccessKey { public_key: ctx.signer_public_key@ },
                    ActionModel::Transfer { amount: ctx.attached_deposit },
                ],
            },
        )
    } else {
        Err(Error::NotEnoughDeposit)
    }
}

/// The factory keeps nothing between calls: the same request made again is
/// judged against the second context alone, and scheduled again wherever that
/// context's attached value reaches the threshold.
pub proof fn lemma_create_subaccount_repeats(
    first: InvocationContext,
    second: InvocationContext,
    prefix: Seq<char>,
    yocto: Option<u128>,
)
    requires
        create_subaccount_outcome(first, prefix, yocto) is Ok,
        second.attached_deposit >= effective_threshold(yocto),
    ensures
        create_subaccount_outcome(second, prefix, yocto) is Ok,
        create_subaccount_outcome(second, prefix, yocto)->Ok_0.receiver_id == subaccount_name(
            prefix,
            second.current_account@,
        ),
        create_subaccount_outcome(second, prefix, yocto)->Ok_0.actions[2] == (
        ActionModel::Transfer { amount: second.attached_deposit }),
{
}

/// Creates sub-accounts of the contract's own account.
#[derive(Default)]
pub struct UserFactory {}

impl UserFactory {
    /// Schedules the creation of `prefix.<current account>`, owned by the
    /// signer's public key and funded with the attached value. The attached
    /// value must reach `yocto`, or the default threshold where it is `None`.
    /// The joined name must fit the protocol's length limit.
    pub fn create_subaccount(
        &mut self,
        ctx: &InvocationContext,
        prefix: AccountId,
        yocto: Option<u128>,
    ) -> (r: Result<DeferredAction, Error>)
        requires
            prefix@.len() + 1 + ctx.current_account@.len() <= MAX_ACCOUNT_ID_LEN,
        ensures
            outcome_view(r) == create_subaccount_outcome(*ctx, prefix@, yocto),
            *final(self) == *old(self),
            r is Ok <==> ctx.attached_deposit >= effective_threshold(yocto),
            r is Err ==> r == Err::<DeferredAction, Error>(Error::NotEnoughDeposit),
            r matches Ok(plan) ==> {
                &&& plan.receiver_id@ == prefix@ + seq!['.'] + ctx.current_account@
                &&& plan.actions@.len() == 3
                &&& plan.actions@[0]@ == ActionModel::CreateAccount
                &&& plan.actions@[1]@ == (ActionModel::AddFullAccessKey {
                    public_key: ctx.signer_public_key@,
                })
                &&& plan.actions@[2]@ == (ActionModel::Transfer { amount: ctx.attached_deposit })
            },
    {
        let amount = match yocto {
            Some(amount) => amount,
            None => DEFAULT_MIN_DEPOSIT,
        };
        if ctx.attached_deposit < amount {
            return Err(Error::NotEnoughDeposit);
        }
        let new_account = AccountId::subaccount(&prefix, &ctx.current_account);
        let actions = vec![
            Action::CreateAccount,
            Action::AddFullAccessKey { public_key: ctx.signer_public_key.clone() },
            Action::Transfer { amount: ctx.attached_deposit },
        ];
        let plan = DeferredAction { receiver_id: new_account, actions };
        assert(plan@.actions =~= create_subaccount_outcome(*ctx, prefix@, yocto)->Ok_0.actions);
        Ok(plan)
    }
}

} // verus!
