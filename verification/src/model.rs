use crate::amount::{decimal, fee, seller_share};
use crate::error::ContractErrorView;
use crate::ledger::{attr, transfer, CoinView, MessageInfoView, ResponseView};
use crate::msg::{ExecuteMsg, InstantiateMsgView, StateResponseView};
use crate::state::{StateView, Status};
use cosmwasm_std::StdError;
use vstd::prelude::*;

verus! {

/// How an operation ends: with the record to store and the instructions for
/// the host, or with the reason why nothing changes.
pub type Outcome = Result<(StateView, ResponseView), ContractErrorView>;

/// The record `s` moved to phase `status`; nothing else changes.
pub open spec fn with_status(s: StateView, status: Status) -> StateView {
    StateView { status, ..s }
}

/// Setting up an escrow. `buyer`, `seller` and `marketplace` are the host's
/// verdicts on the three addresses of `msg`: the validated address, or the
/// error with which validation failed. The terms are judged first, then the
/// addresses in that order.
pub open spec fn create(
    msg: InstantiateMsgView,
    buyer: Result<Seq<char>, StdError>,
    seller: Result<Seq<char>, StdError>,
    marketplace: Result<Seq<char>, StdError>,
) -> Outcome {
    if msg.required_deposit == 0 {
        Err(ContractErrorView::InvalidDepositAmount)
    } else if msg.fee_percentage > 100 {
        Err(ContractErrorView::InvalidFeePercentage)
    } else if buyer is Err {
        Err(ContractErrorView::Std(buyer->Err_0))
    } else if seller is Err {
        Err(ContractErrorView::Std(seller->Err_0))
    } else if marketplace is Err {
        Err(ContractErrorView::Std(marketplace->Err_0))
    } else {
        Ok(
            (
                StateView {
                    buyer: buyer->Ok_0,
                    seller: seller->Ok_0,
                    marketplace: marketplace->Ok_0,
                    required_deposit: msg.required_deposit,
                    denom: msg.denom,
                    fee_percentage: msg.fee_percentage,
                    status: Status::Created,
                },
                ResponseView {
                    messages: seq![],
                    attributes: seq![attr("method"@, "instantiate"@)],
                },
            ),
        )
    }
}

/// The funds that settle the deposit of `s`: one coin, of the escrow's
/// denomination, of exactly the required amount.
pub open spec fn exact_deposit(s: StateView) -> Seq<CoinView> {
    seq![CoinView { denom: s.denom, amount: s.required_deposit }]
}

/// The amount that rejected funds are reported as: that of the coin sent, if
/// it is a single coin of denomination `denom`, and zero otherwise.
pub open spec fn received(funds: Seq<CoinView>, denom: Seq<char>) -> nat {
    if funds.len() == 1 && funds[0].denom == denom {
        funds[0].amount
    } else {
        0
    }
}

/// The buyer pays in. The phase is judged first, then the caller, then the
/// funds.
pub open spec fn deposit(s: StateView, info: MessageInfoView) -> Outcome {
    if s.status != Status::Created {
        Err(ContractErrorView::InvalidStatus)
    } else if info.sender != s.buyer {
        Err(ContractErrorView::Unauthorized)
    } else if info.funds != exact_deposit(s) {
        Err(
            ContractErrorView::InvalidDeposit {
                expected: s.required_deposit,
                received: received(info.funds, s.denom),
                denom: s.denom,
            },
        )
    } else {
        Ok(
            (
                with_status(s, Status::Deposited),
                ResponseView {
                    messages: seq![],
                    attributes: seq![
                        attr("method"@, "deposit"@),
                        attr("amount"@, decimal(s.required_deposit)),
                        attr("denom"@, s.denom),
                    ],
                },
            ),
        )
    }
}

/// Whether the marketplace may settle the escrow now, and if not, why.
/// `balance` is the host's answer to the question how much of the escrow's
/// denomination the contract holds. The phase is judged first, then the
/// caller; only then does a failed balance query count, and last the balance.
pub open spec fn settlement_refused(
    s: StateView,
    info: MessageInfoView,
    balance: Result<u128, StdError>,
) -> Option<ContractErrorView> {
    if s.status != Status::Deposited {
        Some(ContractErrorView::InvalidStatus)
    } else if info.sender != s.marketplace {
        Some(ContractErrorView::Unauthorized)
    } else if balance is Err {
        Some(ContractErrorView::Std(balance->Err_0))
    } else if balance->Ok_0 < s.required_deposit {
        Some(ContractErrorView::InsufficientFunds)
    } else {
        None
    }
}

/// The marketplace releases the deposit: the seller gets it less the fee, the
/// marketplace gets the fee. Both transfers are always issued, the second one
/// also when the fee is zero.
pub open spec fn release(
    s: StateView,
    info: MessageInfoView,
    balance: Result<u128, StdError>,
) -> Outcome {
    match settlement_refused(s, info, balance) {
        Some(e) => Err(e),
        None => {
            let fee = fee(s.required_deposit, s.fee_percentage);
            let seller_amount = seller_share(s.required_deposit, s.fee_percentage);
            Ok(
                (
                    with_status(s, Status::Released),
                    ResponseView {
                        messages: seq![
                            transfer(s.seller, s.denom, seller_amount),
                            transfer(s.marketplace, s.denom, fee),
                        ],
                        attributes: seq![
                            attr("method"@, "release"@),
                            attr("seller_amount"@, decimal(seller_amount)),
                            attr("fee"@, decimal(fee)),
                            attr("denom"@, s.denom),
                        ],
                    },
                ),
            )
        },
    }
}

/// The marketplace refunds the deposit: the buyer gets all of it back.
pub open spec fn refund(
    s: StateView,
    info: MessageInfoView,
    balance: Result<u128, StdError>,
) -> Outcome {
    match settlement_refused(s, info, balance) {
        Some(e) => Err(e),
        None => Ok(
            (
                with_status(s, Status::Refunded),
                ResponseView {
                    messages: seq![transfer(s.buyer, s.denom, s.required_deposit)],
                    attributes: seq![
                        attr("method"@, "refund"@),
                        attr("amount"@, decimal(s.required_deposit)),
                        attr("denom"@, s.denom),
                    ],
                },
            ),
        ),
    }
}

/// One step of the escrow: the operation that `msg` names.
pub open spec fn step(
    s: StateView,
    info: MessageInfoView,
    balance: Result<u128, StdError>,
    msg: ExecuteMsg,
) -> Outcome {
    match msg {
        ExecuteMsg::Deposit {  } => deposit(s, info),
        ExecuteMsg::Release {  } => release(s, info, balance),
        ExecuteMsg::Refund {  } => refund(s, info, balance),
    }
}

/// The record as shown to clients.
pub open spec fn snapshot(s: StateView) -> StateResponseView {
    StateResponseView {
        buyer: s.buyer,
        seller: s.seller,
        marketplace: s.marketplace,
        required_deposit: s.required_deposit,
        denom: s.denom,
        fee_percentage: s.fee_percentage,
        status: s.status.tag(),
    }
}

} // verus!
