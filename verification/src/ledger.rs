use vstd::prelude::*;

verus! {

/// An amount of one denomination.
#[derive(Clone, Debug, PartialEq)]
pub struct Coin {
    pub denom: String,
    pub amount: u128,
}

/// A `Coin` as a mathematical value.
pub struct CoinView {
    pub denom: Seq<char>,
    pub amount: nat,
}

impl View for Coin {
    type V = CoinView;

    open spec fn view(&self) -> CoinView {
        CoinView { denom: self.denom@, amount: self.amount as nat }
    }
}

/// Who called, and the funds attached to the call.
#[derive(Clone, Debug, PartialEq)]
pub struct MessageInfo {
    pub sender: String,
    pub funds: Vec<Coin>,
}

/// A `MessageInfo` as a mathematical value.
pub struct MessageInfoView {
    pub sender: Seq<char>,
    pub funds: Seq<CoinView>,
}

impl View for MessageInfo {
    type V = MessageInfoView;

    open spec fn view(&self) -> MessageInfoView {
        MessageInfoView { sender: self.sender@, funds: self.funds@.map_values(|c: Coin| c@) }
    }
}

/// An instruction to the host: pay `amount` of `denom` out of the contract's
/// holdings to `to_address`.
#[derive(Clone, Debug, PartialEq)]
pub struct Transfer {
    pub to_address: String,
    pub denom: String,
    pub amount: u128,
}

/// A `Transfer` as a mathematical value.
pub struct TransferView {
    pub to_address: Seq<char>,
    pub denom: Seq<char>,
    pub amount: nat,
}

impl View for Transfer {
    type V = TransferView;

    open spec fn view(&self) -> TransferView {
        TransferView { to_address: self.to_address@, denom: self.denom@, amount: self.amount as nat }
    }
}

/// The instruction to pay `amount` of `denom` to `to_address`.
pub open spec fn transfer(to_address: Seq<char>, denom: Seq<char>, amount: nat) -> TransferView {
    TransferView { to_address, denom, amount }
}

/// One entry of the audit record that an operation leaves.
#[derive(Clone, Debug, PartialEq)]
pub struct Attribute {
    pub key: String,
    pub value: String,
}

/// An `Attribute` as a mathematical value.
pub struct AttributeView {
    pub key: Seq<char>,
    pub value: Seq<char>,
}

impl View for Attribute {
    type V = AttributeView;

    open spec fn view(&self) -> AttributeView {
        AttributeView { key: self.key@, value: self.value@ }
    }
}

/// What a successful operation asks of the host: the transfers to carry out,
/// in order, and the audit record to publish.
#[derive(Clone, Debug, PartialEq)]
pub struct Response {
    pub messages: Vec<Transfer>,
    pub attributes: Vec<Attribute>,
}

/// A `Response` as a mathematical value.
pub struct ResponseView {
    pub messages: Seq<TransferView>,
    pub attributes: Seq<AttributeView>,
}

impl View for Response {
    type V = ResponseView;

    open spec fn view(&self) -> ResponseView {
        ResponseView {
            messages: self.messages@.map_values(|t: Transfer| t@),
            attributes: self.attributes@.map_values(|a: Attribute| a@),
        }
    }
}

/// The audit entry `key` = `value`.
pub open spec fn attr(key: Seq<char>, value: Seq<char>) -> AttributeView {
    AttributeView { key, value }
}

/// Builds the audit entry `key` = `value`.
pub fn attribute(key: &str, value: String) -> (entry: Attribute)
    ensures
        entry@ == attr(key@, value@),
{
    Attribute { key: key.to_owned(), value }
}

} // verus!
