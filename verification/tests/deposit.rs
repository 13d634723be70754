use escrow_contract::contract::execute_deposit;
use escrow_contract::ledger::{Attribute, Coin, MessageInfo};
use escrow_contract::{ContractError, State, Status};

fn record(status: Status) -> State {
    State {
        buyer: "buyer".to_string(),
        seller: "seller".to_string(),
        marketplace: "marketplace".to_string(),
        required_deposit: 1000,
        denom: "ucosm".to_string(),
        fee_percentage: 10,
        status,
    }
}

fn coin(amount: u128, denom: &str) -> Coin {
    Coin { denom: denom.to_string(), amount }
}

fn call(sender: &str, funds: Vec<Coin>) -> MessageInfo {
    MessageInfo { sender: sender.to_string(), funds }
}

fn entry(key: &str, value: &str) -> Attribute {
    Attribute { key: key.to_string(), value: value.to_string() }
}

fn mismatch(received: u128) -> ContractError {
    ContractError::InvalidDeposit { expected: 1000, received, denom: "ucosm".to_string() }
}

#[test]
fn deposit_moves_the_escrow_to_deposited() {
    let (state, response) =
        execute_deposit(record(Status::Created), call("buyer", vec![coin(1000, "ucosm")]))
            .unwrap();
    assert_eq!(state, record(Status::Deposited));
    assert!(response.messages.is_empty());
    assert_eq!(
        response.attributes,
        vec![entry("method", "deposit"), entry("amount", "1000"), entry("denom", "ucosm")]
    );
}

#[test]
fn deposit_changes_only_the_status() {
    let before = State {
        buyer: "b".to_string(),
        seller: "s".to_string(),
        marketplace: "m".to_string(),
        required_deposit: 7,
        denom: "uatom".to_string(),
        fee_percentage: 100,
        status: Status::Created,
    };
    let (after, _) = execute_deposit(before.clone(), call("b", vec![coin(7, "uatom")])).unwrap();
    assert_eq!(after.status, Status::Deposited);
    assert_eq!(after.buyer, before.buyer);
    assert_eq!(after.seller, before.seller);
    assert_eq!(after.marketplace, before.marketplace);
    assert_eq!(after.required_deposit, before.required_deposit);
    assert_eq!(after.denom, before.denom);
    assert_eq!(after.fee_percentage, before.fee_percentage);
}

#[test]
fn deposit_writes_the_amount_in_decimal() {
    let mut state = record(Status::Created);
    state.required_deposit = u128::MAX;
    let (_, response) =
        execute_deposit(state, call("buyer", vec![coin(u128::MAX, "ucosm")])).unwrap();
    assert_eq!(
        response.attributes[1],
        entry("amount", "340282366920938463463374607431768211455")
    );
    let mut state = record(Status::Created);
    state.required_deposit = 7;
    let (_, response) = execute_deposit(state, call("buyer", vec![coin(7, "ucosm")])).unwrap();
    assert_eq!(response.attributes[1], entry("amount", "7"));
    let mut state = record(Status::Created);
    state.required_deposit = 1_000_000;
    let (_, response) =
        execute_deposit(state, call("buyer", vec![coin(1_000_000, "ucosm")])).unwrap();
    assert_eq!(response.attributes[1], entry("amount", "1000000"));
}

#[test]
fn deposit_from_anyone_but_the_buyer_is_unauthorized() {
    let funds = vec![coin(1000, "ucosm")];
    assert_eq!(
        execute_deposit(record(Status::Created), call("seller", funds.clone())),
        Err(ContractError::Unauthorized {})
    );
    assert_eq!(
        execute_deposit(record(Status::Created), call("marketplace", funds.clone())),
        Err(ContractError::Unauthorized {})
    );
    assert_eq!(
        execute_deposit(record(Status::Created), call("stranger", funds.clone())),
        Err(ContractError::Unauthorized {})
    );
    assert_eq!(
        execute_deposit(record(Status::Created), call("", funds)),
        Err(ContractError::Unauthorized {})
    );
}

#[test]
fn deposit_judges_the_caller_before_the_funds() {
    assert_eq!(
        execute_deposit(record(Status::Created), call("stranger", vec![])),
        Err(ContractError::Unauthorized {})
    );
}

#[test]
fn deposit_outside_created_is_invalid_status() {
    let funds = vec![coin(1000, "ucosm")];
    assert_eq!(
        execute_deposit(record(Status::Deposited), call("buyer", funds.clone())),
        Err(ContractError::InvalidStatus {})
    );
    assert_eq!(
        execute_deposit(record(Status::Released), call("buyer", funds.clone())),
        Err(ContractError::InvalidStatus {})
    );
    assert_eq!(
        execute_deposit(record(Status::Refunded), call("buyer", funds)),
        Err(ContractError::InvalidStatus {})
    );
}

#[test]
fn deposit_judges_the_status_before_the_caller() {
    assert_eq!(
        execute_deposit(record(Status::Deposited), call("stranger", vec![coin(1000, "ucosm")])),
        Err(ContractError::InvalidStatus {})
    );
    assert_eq!(
        execute_deposit(record(Status::Released), call("stranger", vec![])),
        Err(ContractError::InvalidStatus {})
    );
}

#[test]
fn deposit_without_funds_reports_zero() {
    assert_eq!(execute_deposit(record(Status::Created), call("buyer", vec![])), Err(mismatch(0)));
}

#[test]
fn deposit_of_another_denomination_reports_zero() {
    assert_eq!(
        execute_deposit(record(Status::Created), call("buyer", vec![coin(1000, "uatom")])),
        Err(mismatch(0))
    );
    assert_eq!(
        execute_deposit(record(Status::Created), call("buyer", vec![coin(1000, "UCOSM")])),
        Err(mismatch(0))
    );
}

#[test]
fn deposit_of_several_coins_reports_zero() {
    assert_eq!(
        execute_deposit(
            record(Status::Created),
            call("buyer", vec![coin(1000, "ucosm"), coin(1, "uatom")])
        ),
        Err(mismatch(0))
    );
    assert_eq!(
        execute_deposit(
            record(Status::Created),
            call("buyer", vec![coin(500, "ucosm"), coin(500, "ucosm")])
        ),
        Err(mismatch(0))
    );
}

#[test]
fn deposit_of_too_little_reports_the_amount() {
    assert_eq!(
        execute_deposit(record(Status::Created), call("buyer", vec![coin(999, "ucosm")])),
        Err(mismatch(999))
    );
    assert_eq!(
        execute_deposit(record(Status::Created), call("buyer", vec![coin(0, "ucosm")])),
        Err(mismatch(0))
    );
}

#[test]
fn deposit_of_too_much_reports_the_amount() {
    assert_eq!(
        execute_deposit(record(Status::Created), call("buyer", vec![coin(1001, "ucosm")])),
        Err(mismatch(1001))
    );
    assert_eq!(
        execute_deposit(record(Status::Created), call("buyer", vec![coin(u128::MAX, "ucosm")])),
        Err(mismatch(u128::MAX))
    );
}
