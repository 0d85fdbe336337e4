use vstd::prelude::*;
use vstd::string::StrSliceExecFns;
use vstd::utf8::encode_utf8;

use crate::account::AccountId;
use crate::action::{outcome_view, Action, ActionModel, DeferredAction, DeferredActionModel};
use crate::context::InvocationContext;

pub mod error;

pub use error::Error;

verus! {

/// A forwarded call gets the prepaid budget divided by this.
pub const FORWARDED_GAS_DIVISOR: u64 = 3;

/// The compute budget handed to a forwarded call.
pub open spec fn forwarded_gas(prepaid_gas: u64) -> u64 {
    prepaid_gas / FORWARDED_GAS_DIVISOR
}

/// What `execute` gives: the refusal of a call to the contract's own account,
/// or one method call on the target that carries the whole attached value and
/// a third of the budget.
pub open spec fn execute_outcome(
    ctx: InvocationContext,
    contract_id: Seq<char>,
    method_name: Seq<char>,
    args: Seq<char>,
) -> Result<DeferredActionModel, Error> {
    if contract_id == ctx.current_account@ {
        Err(Error::CallCurrentAccount)
    } else {
        Ok(
            DeferredActionModel {
                receiver_id: contract_id,
                actions: seq![
                    ActionModel::FunctionCall {
                        method_name,
                        args: encode_utf8(args),
                        deposit: ctx.attached_deposit,
                        gas: forwarded_gas(ctx.prepaid_gas),
                    },
                ],
            },
        )
    }
}

/// The executor keeps nothing between calls: the same request made again
/// under a context for the same account is scheduled again, with the value and
/// budget of that second context, and never refused as a repeat.
pub proof fn lemma_execute_repeats(
    first: InvocationContext,
    second: InvocationContext,
    contract_id: Seq<char>,
    method_name: Seq<char>,
    args: Seq<char>,
)
    requires
        second.current_account@ == first.current_account@,
        execute_outcome(first, contract_id, method_name, args) is Ok,
    ensures
        execute_outcome(second, contract_id, method_name, args) is Ok,
        execute_outcome(second, contract_id, method_name, args)->Ok_0.actions == seq![
            (ActionModel::FunctionCall {
                method_name,
                args: encode_utf8(args),
                deposit: second.attached_deposit,
                gas: forwarded_gas(second.prepaid_gas),
            }),
        ],
{
}

/// Proxies calls to other accounts.
pub struct Executor {}

impl Executor {
    /// Schedules a call of `method_name` on `contract_id` with `args` as its
    /// payload, forwarding the attached value and a third of the budget.
    /// A call to the contract's own account is refused, so that its private
    /// methods cannot be reached through it.
    pub fn execute(
        &mut self,
        ctx: &InvocationContext,
        contract_id: AccountId,
        method_name: String,
        args: String,
    ) -> (r: Result<DeferredAction, Error>)
        ensures
            outcome_view(r) == execute_outcome(*ctx, contract_id@, method_name@, args@),
            *final(self) == *old(self),
            contract_id@ == ctx.current_account@ <==> r == Err::<DeferredAction, Error>(
                Error::CallCurrentAccount,
            ),
            r matches Ok(plan) ==> {
                &&& plan.receiver_id@ == contract_id@
                &&& plan.actions@.len() == 1
                &&& plan.actions@[0]@ == (ActionModel::FunctionCall {
                    method_name: method_name@,
                    args: encode_utf8(args@),
                    deposit: ctx.attached_deposit,
                    gas: forwarded_gas(ctx.prepaid_gas),
                })
            },
    {
        if contract_id.same_as(&ctx.current_account) {
            return Err(Error::CallCurrentAccount);
        }
        let call = Action::FunctionCall {
            method_name,
            args: args.as_str().as_bytes_vec(),
            deposit: ctx.attached_deposit,
            gas: ctx.prepaid_gas / FORWARDED_GAS_DIVISOR,
        };
        let actions = vec![call];
        let plan = DeferredAction { receiver_id: contract_id, actions };
        assert(plan@.actions =~= execute_outcome(
            *ctx,
            contract_id@,
            method_name@,
            args@,
        )->Ok_0.actions);
        Ok(plan)
    }
}

} // verus!
