use cosmwasm_std::StdError;
use escrow_contract::ledger::Attribute;
use escrow_contract::{instantiate, ContractError, InstantiateMsg, State, Status};

fn terms(required_deposit: u128, fee_percentage: u8) -> InstantiateMsg {
    InstantiateMsg {
        buyer: "buyer".to_string(),
        seller: "seller".to_string(),
        marketplace: "marketplace".to_string(),
        required_deposit,
        denom: "ucosm".to_string(),
        fee_percentage,
    }
}

fn accepted(address: &str) -> Result<String, StdError> {
    Ok(address.to_string())
}

fn rejected(reason: &str) -> Result<String, StdError> {
    Err(StdError::generic_err(reason))
}

fn create(msg: InstantiateMsg) -> Result<State, ContractError> {
    instantiate(msg, accepted("buyer"), accepted("seller"), accepted("marketplace"))
        .map(|(state, _)| state)
}

#[test]
fn creation_keeps_the_terms() {
    let (state, response) = instantiate(
        terms(1000, 10),
        accepted("buyer"),
        accepted("seller"),
        accepted("marketplace"),
    )
    .unwrap();
    assert_eq!(
        state,
        State {
            buyer: "buyer".to_string(),
            seller: "seller".to_string(),
            marketplace: "marketplace".to_string(),
            required_deposit: 1000,
            denom: "ucosm".to_string(),
            fee_percentage: 10,
            status: Status::Created,
        }
    );
    assert!(state.is_valid());
    assert!(response.messages.is_empty());
    assert_eq!(
        response.attributes,
        vec![Attribute { key: "method".to_string(), value: "instantiate".to_string() }]
    );
}

#[test]
fn creation_stores_the_validated_addresses() {
    let (state, _) = instantiate(
        terms(5, 1),
        accepted("cosmos1buyer"),
        accepted("cosmos1seller"),
        accepted("cosmos1market"),
    )
    .unwrap();
    assert_eq!(state.buyer, "cosmos1buyer");
    assert_eq!(state.seller, "cosmos1seller");
    assert_eq!(state.marketplace, "cosmos1market");
    assert_eq!(state.denom, "ucosm");
    assert_eq!(state.required_deposit, 5);
    assert_eq!(state.fee_percentage, 1);
    assert_eq!(state.status, Status::Created);
}

#[test]
fn creation_rejects_a_zero_deposit() {
    assert_eq!(create(terms(0, 10)), Err(ContractError::InvalidDepositAmount {}));
    assert_eq!(create(terms(0, 0)), Err(ContractError::InvalidDepositAmount {}));
}

#[test]
fn creation_rejects_a_fee_above_one_hundred() {
    assert_eq!(create(terms(1000, 101)), Err(ContractError::InvalidFeePercentage {}));
    assert_eq!(create(terms(1000, 200)), Err(ContractError::InvalidFeePercentage {}));
    assert_eq!(create(terms(1, 255)), Err(ContractError::InvalidFeePercentage {}));
}

#[test]
fn creation_accepts_every_fee_up_to_one_hundred() {
    let mut fee: u8 = 0;
    while fee <= 100 {
        let state = create(terms(1000, fee)).unwrap();
        assert_eq!(state.fee_percentage, fee);
        assert_eq!(state.status, Status::Created);
        fee += 1;
    }
}

#[test]
fn creation_accepts_the_smallest_and_the_largest_deposit() {
    assert_eq!(create(terms(1, 0)).unwrap().required_deposit, 1);
    assert_eq!(create(terms(u128::MAX, 100)).unwrap().required_deposit, u128::MAX);
}

#[test]
fn creation_judges_the_deposit_before_the_fee() {
    assert_eq!(create(terms(0, 101)), Err(ContractError::InvalidDepositAmount {}));
}

#[test]
fn creation_hands_on_the_error_of_a_rejected_address() {
    let result =
        instantiate(terms(1000, 10), rejected("bad buyer"), accepted("seller"), accepted("m"));
    assert_eq!(result, Err(ContractError::Std(StdError::generic_err("bad buyer"))));
    let result =
        instantiate(terms(1000, 10), accepted("buyer"), rejected("bad seller"), accepted("m"));
    assert_eq!(result, Err(ContractError::Std(StdError::generic_err("bad seller"))));
    let result =
        instantiate(terms(1000, 10), accepted("buyer"), accepted("seller"), rejected("bad m"));
    assert_eq!(result, Err(ContractError::Std(StdError::generic_err("bad m"))));
}

#[test]
fn creation_reports_the_first_rejected_address() {
    let result =
        instantiate(terms(1000, 10), rejected("first"), rejected("second"), rejected("third"));
    assert_eq!(result, Err(ContractError::Std(StdError::generic_err("first"))));
    let result =
        instantiate(terms(1000, 10), accepted("buyer"), rejected("second"), rejected("third"));
    assert_eq!(result, Err(ContractError::Std(StdError::generic_err("second"))));
}

#[test]
fn creation_judges_the_terms_before_the_addresses() {
    let result = instantiate(terms(0, 10), rejected("a"), rejected("b"), rejected("c"));
    assert_eq!(result, Err(ContractError::InvalidDepositAmount {}));
    let result = instantiate(terms(10, 101), rejected("a"), accepted("s"), accepted("m"));
    assert_eq!(result, Err(ContractError::InvalidFeePercentage {}));
}

#[test]
fn creation_does_not_ask_for_distinct_parties() {
    let (state, _) =
        instantiate(terms(10, 5), accepted("same"), accepted("same"), accepted("same")).unwrap();
    assert_eq!(state.buyer, "same");
    assert_eq!(state.seller, "same");
    assert_eq!(state.marketplace, "same");
}
