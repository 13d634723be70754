use vstd::prelude::*;

verus! {

/// The terms of a new escrow.
#[derive(Clone, Debug, PartialEq)]
pub struct InstantiateMsg {
    /// Buyer's address, as the client wrote it.
    pub buyer: String,
    /// Seller's address, as the client wrote it.
    pub seller: String,
    /// Marketplace's address, as the client wrote it.
    pub marketplace: String,
    /// Amount the buyer must pay in; must not be zero.
    pub required_deposit: u128,
    /// Denomination of the deposit.
    pub denom: String,
    /// Marketplace's fee in percent; at most one hundred.
    pub fee_percentage: u8,
}

/// An `InstantiateMsg` as a mathematical value.
pub struct InstantiateMsgView {
    pub buyer: Seq<char>,
    pub seller: Seq<char>,
    pub marketplace: Seq<char>,
    pub required_deposit: nat,
    pub denom: Seq<char>,
    pub fee_percentage: nat,
}

impl View for InstantiateMsg {
    type V = InstantiateMsgView;

    open spec fn view(&self) -> InstantiateMsgView {
        InstantiateMsgView {
            buyer: self.buyer@,
            seller: self.seller@,
            marketplace: self.marketplace@,
            required_deposit: self.required_deposit as nat,
            denom: self.denom@,
            fee_percentage: self.fee_percentage as nat,
        }
    }
}

/// The operations that change an escrow.
#[derive(Clone, Copy, Debug, PartialEq, Eq, Structural)]
pub enum ExecuteMsg {
    /// The buyer pays in the deposit.
    Deposit {},
    /// The marketplace pays the deposit out to the seller and itself.
    Release {},
    /// The marketplace pays the deposit back to the buyer.
    Refund {},
}

/// The questions an escrow answers.
#[derive(Clone, Copy, Debug, PartialEq, Eq, Structural)]
pub enum QueryMsg {
    /// Asks for the whole record.
    GetState {},
}

/// The record as shown to clients, with the phase as its tag.
#[derive(Clone, Debug, PartialEq)]
pub struct StateResponse {
    pub buyer: String,
    pub seller: String,
    pub marketplace: String,
    pub required_deposit: u128,
    pub denom: String,
    pub fee_percentage: u8,
    pub status: String,
}

/// A `StateResponse` as a mathematical value.
pub struct StateResponseView {
    pub buyer: Seq<char>,
    pub seller: Seq<char>,
    pub marketplace: Seq<char>,
    pub required_deposit: nat,
    pub denom: Seq<char>,
    pub fee_percentage: nat,
    pub status: Seq<char>,
}

impl View for StateResponse {
    type V = StateResponseView;

    open spec fn view(&self) -> StateResponseView {
        StateResponseView {
            buyer: self.buyer@,
            seller: self.seller@,
            marketplace: self.marketplace@,
            required_deposit: self.required_deposit as nat,
            denom: self.denom@,
            fee_percentage: self.fee_percentage as nat,
            status: self.status@,
        }
    }
}

} // verus!
