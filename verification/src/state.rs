use vstd::prelude::*;

verus! {

/// Phase of an escrow. An escrow starts as `Created`, becomes `Deposited` once
/// the buyer has paid in, and ends as either `Released` or `Refunded`.
#[derive(Clone, Copy, Debug, PartialEq, Eq, Structural)]
pub enum Status {
    /// Set up, nothing paid in yet.
    Created,
    /// The buyer has paid in the required deposit.
    Deposited,
    /// The deposit went to the seller and the marketplace.
    Released,
    /// The deposit went back to the buyer.
    Refunded,
}

impl Status {
    /// The tag under which the phase is shown to clients.
    pub open spec fn tag(self) -> Seq<char> {
        match self {
            Status::Created => "Created"@,
            Status::Deposited => "Deposited"@,
            Status::Released => "Released"@,
            Status::Refunded => "Refunded"@,
        }
    }

    /// How far the escrow has come: phases only ever move to a higher rank.
    pub open spec fn rank(self) -> nat {
        match self {
            Status::Created => 0,
            Status::Deposited => 1,
            Status::Released => 2,
            Status::Refunded => 2,
        }
    }

    /// Whether the escrow has been settled, one way or the other.
    pub open spec fn is_terminal(self) -> bool {
        self == Status::Released || self == Status::Refunded
    }

    /// The tag tells the phase: no two phases are shown alike.
    pub proof fn lemma_tag_tells_phase(self, other: Status)
        requires
            self.tag() == other.tag(),
        ensures
            self == other,
    {
        reveal_strlit("Created");
        reveal_strlit("Deposited");
        reveal_strlit("Released");
        reveal_strlit("Refunded");
        assert("Created"@.len() == 7);
        assert("Deposited"@.len() == 9);
        assert("Released"@.len() == 8 && "Released"@[2] == 'l');
        assert("Refunded"@.len() == 8 && "Refunded"@[2] == 'f');
    }

    /// The phase's tag as text.
    pub fn as_str(&self) -> (text: &'static str)
        ensures
            text@ == self.tag(),
    {
        match self {
            Status::Created => "Created",
            Status::Deposited => "Deposited",
            Status::Released => "Released",
            Status::Refunded => "Refunded",
        }
    }
}

/// The escrow record as a mathematical value.
pub struct StateView {
    pub buyer: Seq<char>,
    pub seller: Seq<char>,
    pub marketplace: Seq<char>,
    pub required_deposit: nat,
    pub denom: Seq<char>,
    pub fee_percentage: nat,
    pub status: Status,
}

impl StateView {
    /// The terms every stored escrow satisfies: a positive deposit and a fee of
    /// at most one hundred percent.
    pub open spec fn wf(self) -> bool {
        self.required_deposit > 0 && self.fee_percentage <= 100
    }
}

/// The escrow record: the three parties, the terms, and the current phase.
/// Only `status` changes after creation.
#[derive(Clone, Debug, PartialEq)]
pub struct State {
    /// Account that pays in the deposit.
    pub buyer: String,
    /// Account that receives the deposit, less the fee, on release.
    pub seller: String,
    /// Account that decides between release and refund, and earns the fee.
    pub marketplace: String,
    /// Amount the buyer must pay in, in units of `denom`.
    pub required_deposit: u128,
    /// Denomination of the deposit.
    pub denom: String,
    /// Share of the deposit, in percent, that the marketplace keeps on release.
    pub fee_percentage: u8,
    /// Current phase.
    pub status: Status,
}

impl View for State {
    type V = StateView;

    open spec fn view(&self) -> StateView {
        StateView {
            buyer: self.buyer@,
            seller: self.seller@,
            marketplace: self.marketplace@,
            required_deposit: self.required_deposit as nat,
            denom: self.denom@,
            fee_percentage: self.fee_percentage as nat,
            status: self.status,
        }
    }
}

impl State {
    /// Whether the record's terms are those of a well-formed escrow.
    pub fn is_valid(&self) -> (ok: bool)
        ensures
            ok == self@.wf(),
    {
        self.required_deposit > 0 && self.fee_percentage <= 100
    }
}

} // verus!
