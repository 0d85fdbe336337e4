use vstd::prelude::*;

use crate::account::AccountId;

verus! {

/// One primitive account operation of a deferred action.
#[derive(Debug, Clone, PartialEq, Eq)]
pub enum Action {
    CreateAccount,
    AddFullAccessKey { public_key: Vec<u8> },
    Transfer { amount: u128 },
    FunctionCall { method_name: String, args: Vec<u8>, deposit: u128, gas: u64 },
}

/// What an [`Action`] is, over mathematical values.
pub ghost enum ActionModel {
    CreateAccount,
    AddFullAccessKey { public_key: Seq<u8> },
    Transfer { amount: u128 },
    FunctionCall { method_name: Seq<char>, args: Seq<u8>, deposit: u128, gas: u64 },
}

impl View for Action {
    type V = ActionModel;

    open spec fn view(&self) -> ActionModel {
        match self {
            Action::CreateAccount => ActionModel::CreateAccount,
            Action::AddFullAccessKey { public_key } => ActionModel::AddFullAccessKey {
                public_key: public_key@,
            },
            Action::Transfer { amount } => ActionModel::Transfer { amount: *amount },
            Action::FunctionCall { method_name, args, deposit, gas } => ActionModel::FunctionCall {
                method_name: method_name@,
                args: args@,
                deposit: *deposit,
                gas: *gas,
            },
        }
    }
}

/// An ordered sequence of operations on one account, that the host commits
/// as a whole after the invocation, or not at all.
#[derive(Debug, Clone, PartialEq, Eq)]
pub struct DeferredAction {
    pub receiver_id: AccountId,
    pub actions: Vec<Action>,
}

/// What a [`DeferredAction`] is, over mathematical values.
pub ghost struct DeferredActionModel {
    pub receiver_id: Seq<char>,
    pub actions: Seq<ActionModel>,
}

impl View for DeferredAction {
    type V = DeferredActionModel;

    open spec fn view(&self) -> DeferredActionModel {
        DeferredActionModel {
            receiver_id: self.receiver_id@,
            actions: self.actions@.map_values(|a: Action| a@),
        }
    }
}

/// The outcome of an entry point, with a scheduled action seen as its model.
pub open spec fn outcome_view<E>(r: Result<DeferredAction, E>) -> Result<DeferredActionModel, E> {
    match r {
        Ok(d) => Ok(d@),
        Err(e) => Err(e),
    }
}

} // verus!
