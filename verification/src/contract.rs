use crate::amount::{amount_text, fee, marketplace_fee, seller_share};
use crate::error::ContractError;
use crate::ledger::{attribute, transfer, MessageInfo, Response, Transfer};
use crate::model::{
    create, deposit, exact_deposit, received, refund, release, snapshot, step, with_status,
    Outcome,
};
use crate::msg::{ExecuteMsg, InstantiateMsg, QueryMsg, StateResponse};
use crate::state::{State, Status};
use cosmwasm_std::StdError;
use vstd::prelude::*;

verus! {

/// The result of an operation as a mathematical value.
pub open spec fn outcome_view(result: Result<(State, Response), ContractError>) -> Outcome {
    match result {
        Ok((state, response)) => Ok((state@, response@)),
        Err(e) => Err(e@),
    }
}

/// The host's verdict on an address as a mathematical value.
pub open spec fn verdict_view(verdict: Result<String, StdError>) -> Result<Seq<char>, StdError> {
    match verdict {
        Ok(address) => Ok(address@),
        Err(e) => Err(e),
    }
}

/// Sets up an escrow from the terms in `msg`.
///
/// `buyer`, `seller` and `marketplace` are the host's verdicts on the three
/// addresses that `msg` names: the validated address, or the error with which
/// validation failed. A zero deposit gives `InvalidDepositAmount`, a fee above
/// one hundred percent `InvalidFeePercentage`, and a rejected address the
/// host's error as `Std`; where several of these apply, the first in this
/// order is reported, the addresses in the order buyer, seller, marketplace.
/// Otherwise the result is a well-formed record in phase `Created` that holds
/// the validated addresses and the terms of `msg`. Anyone may set up an
/// escrow, and nothing is paid at this point.
pub fn instantiate(
    msg: InstantiateMsg,
    buyer: Result<String, StdError>,
    seller: Result<String, StdError>,
    marketplace: Result<String, StdError>,
) -> (result: Result<(State, Response), ContractError>)
    ensures
        outcome_view(result) == create(
            msg@,
            verdict_view(buyer),
            verdict_view(seller),
            verdict_view(marketplace),
        ),
        msg.required_deposit == 0 ==> result matches Err(ContractError::InvalidDepositAmount {  }),
        msg.required_deposit != 0 && msg.fee_percentage > 100 ==> result matches Err(
            ContractError::InvalidFeePercentage {  },
        ),
        result is Ok <==> msg.required_deposit != 0 && msg.fee_percentage <= 100 && buyer is Ok
            && seller is Ok && marketplace is Ok,
        result matches Ok((state, response)) ==> {
            &&& state@.wf()
            &&& state.status == Status::Created
            &&& state.buyer@ == buyer->Ok_0@
            &&& state.seller@ == seller->Ok_0@
            &&& state.marketplace@ == marketplace->Ok_0@
            &&& state.required_deposit == msg.required_deposit
            &&& state.denom@ == msg.denom@
            &&& state.fee_percentage == msg.fee_percentage
            &&& response@.messages.len() == 0
        },
{
    if msg.required_deposit == 0 {
        return Err(ContractError::InvalidDepositAmount {  });
    }
    if msg.fee_percentage > 100 {
        return Err(ContractError::InvalidFeePercentage {  });
    }
    let buyer_address: String = match buyer {
        Ok(address) => address,
        Err(e) => {
            return Err(ContractError::Std(e));
        },
    };
    let seller_address: String = match seller {
        Ok(address) => address,
        Err(e) => {
            return Err(ContractError::Std(e));
        },
    };
    let marketplace_address: String = match marketplace {
        Ok(address) => address,
        Err(e) => {
            return Err(ContractError::Std(e));
        },
    };
    let state = State {
        buyer: buyer_address,
        seller: seller_address,
        marketplace: marketplace_address,
        required_deposit: msg.required_deposit,
        denom: msg.denom,
        fee_percentage: msg.fee_percentage,
        status: Status::Created,
    };
    let response = Response {
        messages: Vec::new(),
        attributes: vec![attribute("method", "instantiate".to_owned())],
    };
    proof {
        let expected = create(
            msg@,
            verdict_view(buyer),
            verdict_view(seller),
            verdict_view(marketplace),
        )->Ok_0.1;
        assert(response@.messages =~= expected.messages);
        assert(response@.attributes =~= expected.attributes);
    }
    Ok((state, response))
}

/// Carries out the operation that `msg` names on the stored record: a
/// deposit, a release or a refund. `balance` is the host's answer to the
/// query for the contract's own holdings of the escrow's denomination; a
/// deposit does not look at it. For a release the record must be well-formed.
pub fn execute(
    state: State,
    info: MessageInfo,
    balance: Result<u128, StdError>,
    msg: ExecuteMsg,
) -> (result: Result<(State, Response), ContractError>)
    requires
        msg == (ExecuteMsg::Release {  }) ==> state@.wf(),
    ensures
        outcome_view(result) == step(state@, info@, balance, msg),
{
    match msg {
        ExecuteMsg::Deposit {  } => execute_deposit(state, info),
        ExecuteMsg::Release {  } => execute_release(state, info, balance),
        ExecuteMsg::Refund {  } => execute_refund(state, info, balance),
    }
}

/// The buyer pays in the deposit.
///
/// The escrow must be `Created`, else the result is `InvalidStatus`; the
/// caller must be the buyer, else it is `Unauthorized`; and the funds attached
/// to the call must be exactly one coin of the escrow's denomination and of
/// the required amount, else it is `InvalidDeposit`, which reports the amount
/// of a single coin of the right denomination and zero for anything else.
/// Otherwise the record moves to `Deposited`. Nothing is paid out: the funds
/// came with the call.
pub fn execute_deposit(state: State, info: MessageInfo) -> (result: Result<
    (State, Response),
    ContractError,
>)
    ensures
        outcome_view(result) == deposit(state@, info@),
        state.status != Status::Created ==> result matches Err(ContractError::InvalidStatus {  }),
        state.status == Status::Created && info.sender@ != state.buyer@ ==> result matches Err(
            ContractError::Unauthorized {  },
        ),
        state.status == Status::Created && info.sender@ == state.buyer@ ==> if info@.funds
            == exact_deposit(state@) {
            &&& result matches Ok((next, response))
            &&& next@ == with_status(state@, Status::Deposited)
            &&& response@.messages.len() == 0
        } else {
            &&& result matches Err(ContractError::InvalidDeposit { expected, received: reported, denom })
            &&& expected == state.required_deposit
            &&& reported == received(info@.funds, state.denom@)
            &&& denom@ == state.denom@
        },
{
    if state.status != Status::Created {
        return Err(ContractError::InvalidStatus {  });
    }
    if !(info.sender == state.buyer) {
        return Err(ContractError::Unauthorized {  });
    }
    let single: bool = info.funds.len() == 1 && info.funds[0].denom == state.denom;
    let reported: u128 = if single {
        info.funds[0].amount
    } else {
        0
    };
    if !single || reported != state.required_deposit {
        return Err(
            ContractError::InvalidDeposit {
                expected: state.required_deposit,
                received: reported,
                denom: state.denom.clone(),
            },
        );
    }
    let attributes = vec![
        attribute("method", "deposit".to_owned()),
        attribute("amount", amount_text(state.required_deposit)),
        attribute("denom", state.denom.clone()),
    ];
    let response = Response { messages: Vec::new(), attributes };
    let mut next = state;
    next.status = Status::Deposited;
    proof {
        assert(info@.funds =~= exact_deposit(state@));
        assert(response@.messages =~= deposit(state@, info@)->Ok_0.1.messages);
        assert(response@.attributes =~= deposit(state@, info@)->Ok_0.1.attributes);
    }
    Ok((next, response))
}

/// The marketplace releases the deposit to the seller and takes its fee.
///
/// `balance` is the host's answer to the query for the contract's own holdings
/// of the escrow's denomination. The escrow must be `Deposited`, else the
/// result is `InvalidStatus`; the caller must be the marketplace, else it is
/// `Unauthorized`; a failed balance query is handed on as `Std`; and a balance
/// below the deposit gives `InsufficientFunds`. Otherwise the record moves to
/// `Released`, and the host is told to pay the seller the deposit less the fee
/// and the marketplace the fee, in that order. The transfer to the marketplace
/// is issued also when the fee is zero.
///
/// The record must be well-formed, as every record is that `instantiate`
/// returned and that the operations passed on: the fee is taken from its terms.
pub fn execute_release(state: State, info: MessageInfo, balance: Result<u128, StdError>) -> (result:
    Result<(State, Response), ContractError>)
    requires
        state@.wf(),
    ensures
        outcome_view(result) == release(state@, info@, balance),
        state.status != Status::Deposited ==> result matches Err(ContractError::InvalidStatus {  }),
        state.status == Status::Deposited && info.sender@ != state.marketplace@ ==> result matches Err(
            ContractError::Unauthorized {  },
        ),
        state.status == Status::Deposited && info.sender@ == state.marketplace@ ==> match balance {
            Err(e) => result matches Err(ContractError::Std(failure)) && failure == e,
            Ok(held) => if held < state.required_deposit {
                result matches Err(ContractError::InsufficientFunds {  })
            } else {
                &&& result matches Ok((next, response))
                &&& next@ == with_status(state@, Status::Released)
                &&& response@.messages == seq![
                    transfer(
                        state.seller@,
                        state.denom@,
                        seller_share(state.required_deposit as nat, state.fee_percentage as nat),
                    ),
                    transfer(
                        state.marketplace@,
                        state.denom@,
                        fee(state.required_deposit as nat, state.fee_percentage as nat),
                    ),
                ]
            },
        },
{
    if state.status != Status::Deposited {
        return Err(ContractError::InvalidStatus {  });
    }
    if !(info.sender == state.marketplace) {
        return Err(ContractError::Unauthorized {  });
    }
    let held: u128 = match balance {
        Ok(amount) => amount,
        Err(e) => {
            return Err(ContractError::Std(e));
        },
    };
    if held < state.required_deposit {
        return Err(ContractError::InsufficientFunds {  });
    }
    let fee: u128 = marketplace_fee(state.required_deposit, state.fee_percentage);
    let seller_amount: u128 = state.required_deposit - fee;
    let messages = vec![
        Transfer {
            to_address: state.seller.clone(),
            denom: state.denom.clone(),
            amount: seller_amount,
        },
        Transfer { to_address: state.marketplace.clone(), denom: state.denom.clone(), amount: fee },
    ];
    let attributes = vec![
        attribute("method", "release".to_owned()),
        attribute("seller_amount", amount_text(seller_amount)),
        attribute("fee", amount_text(fee)),
        attribute("denom", state.denom.clone()),
    ];
    let response = Response { messages, attributes };
    let mut next = state;
    next.status = Status::Released;
    proof {
        assert(response@.messages =~= release(state@, info@, balance)->Ok_0.1.messages);
        assert(response@.attributes =~= release(state@, info@, balance)->Ok_0.1.attributes);
    }
    Ok((next, response))
}

/// The marketplace refunds the deposit to the buyer.
///
/// `balance` is the host's answer to the query for the contract's own holdings
/// of the escrow's denomination. The guards are those of a release, in the
/// same order: `InvalidStatus` unless the escrow is `Deposited`, `Unauthorized`
/// unless the caller is the marketplace, a failed balance query handed on as
/// `Std`, and `InsufficientFunds` for a balance below the deposit. Otherwise
/// the record moves to `Refunded`, and the host is told to pay the whole
/// deposit back to the buyer.
pub fn execute_refund(state: State, info: MessageInfo, balance: Result<u128, StdError>) -> (result:
    Result<(State, Response), ContractError>)
    ensures
        outcome_view(result) == refund(state@, info@, balance),
        state.status != Status::Deposited ==> result matches Err(ContractError::InvalidStatus {  }),
        state.status == Status::Deposited && info.sender@ != state.marketplace@ ==> result matches Err(
            ContractError::Unauthorized {  },
        ),
        state.status == Status::Deposited && info.sender@ == state.marketplace@ ==> match balance {
            Err(e) => result matches Err(ContractError::Std(failure)) && failure == e,
            Ok(held) => if held < state.required_deposit {
                result matches Err(ContractError::InsufficientFunds {  })
            } else {
                &&& result matches Ok((next, response))
                &&& next@ == with_status(state@, Status::Refunded)
                &&& response@.messages == seq![
                    transfer(state.buyer@, state.denom@, state.required_deposit as nat),
                ]
            },
        },
{
    if state.status != Status::Deposited {
        return Err(ContractError::InvalidStatus {  });
    }
    if !(info.sender == state.marketplace) {
        return Err(ContractError::Unauthorized {  });
    }
    let held: u128 = match balance {
        Ok(amount) => amount,
        Err(e) => {
            return Err(ContractError::Std(e));
        },
    };
    if held < state.required_deposit {
        return Err(ContractError::InsufficientFunds {  });
    }
    let messages = vec![
        Transfer {
            to_address: state.buyer.clone(),
            denom: state.denom.clone(),
            amount: state.required_deposit,
        },
    ];
    let attributes = vec![
        attribute("method", "refund".to_owned()),
        attribute("amount", amount_text(state.required_deposit)),
        attribute("denom", state.denom.clone()),
    ];
    let response = Response { messages, attributes };
    let mut next = state;
    next.status = Status::Refunded;
    proof {
        assert(response@.messages =~= refund(state@, info@, balance)->Ok_0.1.messages);
        assert(response@.attributes =~= refund(state@, info@, balance)->Ok_0.1.attributes);
    }
    Ok((next, response))
}

/// Answers the question that `msg` asks about the stored record.
pub fn query(state: &State, msg: QueryMsg) -> (response: StateResponse)
    ensures
        response@ == snapshot(state@),
{
    match msg {
        QueryMsg::GetState {  } => query_state(state),
    }
}

/// The record as shown to clients: every field as stored, the phase as its
/// tag. The record itself is only read.
pub fn query_state(state: &State) -> (response: StateResponse)
    ensures
        response@ == snapshot(state@),
{
    StateResponse {
        buyer: state.buyer.clone(),
        seller: state.seller.clone(),
        marketplace: state.marketplace.clone(),
        required_deposit: state.required_deposit,
        denom: state.denom.clone(),
        fee_percentage: state.fee_percentage,
        status: state.status.as_str().to_owned(),
    }
}

} // verus!
