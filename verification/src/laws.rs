//! What holds of the escrow across operations, proved from the model that the
//! operations' contracts refer to.

use crate::amount::lemma_fee_within_deposit;
use crate::error::ContractErrorView;
use crate::ledger::{MessageInfoView, ResponseView};
use crate::model::{create, refund, release, snapshot, step, with_status};
use crate::msg::{ExecuteMsg, InstantiateMsgView};
use crate::state::{StateView, Status};
use cosmwasm_std::StdError;
use vstd::prelude::*;

verus! {

/// Creation accepts exactly the terms with a deposit above zero and a fee of
/// at most one hundred percent whose three addresses the host accepted, and
/// what it then returns is a well-formed record in phase `Created` that holds
/// the validated addresses and the terms as given.
pub proof fn lemma_creation(
    msg: InstantiateMsgView,
    buyer: Result<Seq<char>, StdError>,
    seller: Result<Seq<char>, StdError>,
    marketplace: Result<Seq<char>, StdError>,
)
    ensures
        create(msg, buyer, seller, marketplace) is Ok <==> msg.required_deposit > 0
            && msg.fee_percentage <= 100 && buyer is Ok && seller is Ok && marketplace is Ok,
        create(msg, buyer, seller, marketplace) matches Ok((s, _)) ==> {
            &&& s.wf()
            &&& s.status == Status::Created
            &&& s.buyer == buyer->Ok_0
            &&& s.seller == seller->Ok_0
            &&& s.marketplace == marketplace->Ok_0
            &&& s.required_deposit == msg.required_deposit
            &&& s.denom == msg.denom
            &&& s.fee_percentage == msg.fee_percentage
        },
{
}

/// A successful operation changes nothing but the phase, moves the phase
/// strictly forward, and keeps a well-formed record well-formed: a deposit
/// leads from `Created` to `Deposited`, a release from `Deposited` to
/// `Released`, a refund from `Deposited` to `Refunded`.
pub proof fn lemma_step_moves_forward(
    s: StateView,
    info: MessageInfoView,
    balance: Result<u128, StdError>,
    msg: ExecuteMsg,
)
    requires
        step(s, info, balance, msg) is Ok,
    ensures
        ({
            let next = step(s, info, balance, msg)->Ok_0.0;
            &&& next == with_status(s, next.status)
            &&& s.status.rank() < next.status.rank()
            &&& s.wf() ==> next.wf()
            &&& msg == (ExecuteMsg::Deposit {  }) ==> s.status == Status::Created && next.status
                == Status::Deposited
            &&& msg == (ExecuteMsg::Release {  }) ==> s.status == Status::Deposited && next.status
                == Status::Released
            &&& msg == (ExecuteMsg::Refund {  }) ==> s.status == Status::Deposited && next.status
                == Status::Refunded
        }),
{
}

/// A settled escrow is closed: in phase `Released` or `Refunded` every
/// operation is turned down with `InvalidStatus`, whoever calls and whatever
/// the host reports.
pub proof fn lemma_terminal_is_closed(
    s: StateView,
    info: MessageInfoView,
    balance: Result<u128, StdError>,
    msg: ExecuteMsg,
)
    requires
        s.status.is_terminal(),
    ensures
        step(s, info, balance, msg) == Err::<(StateView, ResponseView), _>(
            ContractErrorView::InvalidStatus,
        ),
{
}

/// Release and refund exclude each other, and each is final: once either has
/// succeeded, a later release, refund or deposit on the record it returned is
/// turned down with `InvalidStatus`.
pub proof fn lemma_settlement_is_final(
    s: StateView,
    info: MessageInfoView,
    balance: Result<u128, StdError>,
    first: ExecuteMsg,
    later_info: MessageInfoView,
    later_balance: Result<u128, StdError>,
    second: ExecuteMsg,
)
    requires
        first == (ExecuteMsg::Release {  }) || first == (ExecuteMsg::Refund {  }),
        step(s, info, balance, first) is Ok,
    ensures
        step(step(s, info, balance, first)->Ok_0.0, later_info, later_balance, second) == Err::<
            (StateView, ResponseView),
            _,
        >(ContractErrorView::InvalidStatus),
{
}

/// A release pays out the deposit and nothing else: what goes to the seller
/// and what goes to the marketplace add up to exactly the required deposit.
/// A refund pays exactly the required deposit to the buyer.
pub proof fn lemma_settlement_pays_the_deposit(
    s: StateView,
    info: MessageInfoView,
    balance: Result<u128, StdError>,
)
    requires
        s.wf(),
    ensures
        release(s, info, balance) matches Ok((_, response)) ==> {
            &&& response.messages.len() == 2
            &&& response.messages[0].to_address == s.seller
            &&& response.messages[1].to_address == s.marketplace
            &&& response.messages[0].amount + response.messages[1].amount == s.required_deposit
        },
        refund(s, info, balance) matches Ok((_, response)) ==> {
            &&& response.messages.len() == 1
            &&& response.messages[0].to_address == s.buyer
            &&& response.messages[0].amount == s.required_deposit
        },
{
    lemma_fee_within_deposit(s.required_deposit, s.fee_percentage);
}

/// What a client is shown after a successful operation is the record as
/// before with the phase that the operation led to: the query reflects the
/// latest record, and every other field reads as it did.
pub proof fn lemma_query_follows_step(
    s: StateView,
    info: MessageInfoView,
    balance: Result<u128, StdError>,
    msg: ExecuteMsg,
)
    requires
        step(s, info, balance, msg) is Ok,
    ensures
        ({
            let next = step(s, info, balance, msg)->Ok_0.0;
            let shown = snapshot(next);
            &&& shown.status == next.status.tag()
            &&& msg == (ExecuteMsg::Deposit {  }) ==> shown.status == Status::Deposited.tag()
            &&& msg == (ExecuteMsg::Release {  }) ==> shown.status == Status::Released.tag()
            &&& msg == (ExecuteMsg::Refund {  }) ==> shown.status == Status::Refunded.tag()
            &&& shown.buyer == snapshot(s).buyer
            &&& shown.seller == snapshot(s).seller
            &&& shown.marketplace == snapshot(s).marketplace
            &&& shown.required_deposit == snapshot(s).required_deposit
            &&& shown.denom == snapshot(s).denom
            &&& shown.fee_percentage == snapshot(s).fee_percentage
        }),
{
}

} // verus!
