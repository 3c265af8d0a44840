use cosmwasm_anatomy::contract::{execute, instantiate, query, try_increment, try_reset};
use cosmwasm_anatomy::msg::{CountResponse, ExecuteMsg, InstantiateMsg, MessageInfo, QueryMsg};
use cosmwasm_anatomy::state::{Addr, Store};
use cosmwasm_anatomy::ContractError;

fn info(sender: &str) -> MessageInfo {
    MessageInfo { sender: Addr::new(sender.to_string()) }
}

fn read_count(store: &Store) -> i32 {
    query(store, QueryMsg::GetCount {}).unwrap().count
}

#[test]
fn initialize_then_read() {
    let mut store = Store::new();
    let res = instantiate(&mut store, info("creator"), InstantiateMsg { count: 17 }).unwrap();
    assert_eq!(res.attributes.len(), 3);
    assert_eq!(res.attributes[0].key, "method");
    assert_eq!(res.attributes[0].value, "instantiate");
    assert_eq!(res.attributes[1].key, "owner");
    assert_eq!(res.attributes[1].value, "creator");
    assert_eq!(res.attributes[2].key, "count");
    assert_eq!(res.attributes[2].value, "17");

    let value = query(&store, QueryMsg::GetCount {}).unwrap();
    assert_eq!(value, CountResponse { count: 17 });
}

#[test]
fn initialize_with_negative_count() {
    let mut store = Store::new();
    let res = instantiate(&mut store, info("creator"), InstantiateMsg { count: -42 }).unwrap();
    assert_eq!(res.attributes[2].value, "-42");
    assert_eq!(read_count(&store), -42);
}

#[test]
fn increment_then_read() {
    let mut store = Store::new();
    instantiate(&mut store, info("creator"), InstantiateMsg { count: 17 }).unwrap();

    let res = execute(&mut store, info("anyone"), ExecuteMsg::Increment {}).unwrap();
    assert_eq!(res.attributes.len(), 1);
    assert_eq!(res.attributes[0].key, "method");
    assert_eq!(res.attributes[0].value, "try_increment");

    assert_eq!(read_count(&store), 18);
}

#[test]
fn increment_wraps_at_top_of_range() {
    let mut store = Store::new();
    instantiate(&mut store, info("creator"), InstantiateMsg { count: i32::MAX }).unwrap();
    try_increment(&mut store).unwrap();
    assert_eq!(read_count(&store), i32::MIN);
}

#[test]
fn reset_by_owner_sets_exact_value() {
    let mut store = Store::new();
    instantiate(&mut store, info("creator"), InstantiateMsg { count: 17 }).unwrap();

    let res = try_reset(&mut store, info("creator"), 5).unwrap();
    assert_eq!(res.attributes.len(), 1);
    assert_eq!(res.attributes[0].key, "method");
    assert_eq!(res.attributes[0].value, "reset");
    assert_eq!(read_count(&store), 5);

    // Resetting to the current value is accepted as well.
    try_reset(&mut store, info("creator"), 5).unwrap();
    assert_eq!(read_count(&store), 5);

    // And so is a negative value.
    try_reset(&mut store, info("creator"), -9).unwrap();
    assert_eq!(read_count(&store), -9);
}

#[test]
fn reset_by_non_owner_is_rejected() {
    let mut store = Store::new();
    instantiate(&mut store, info("creator"), InstantiateMsg { count: 17 }).unwrap();

    let err = execute(&mut store, info("anyone"), ExecuteMsg::Reset { count: 5 }).unwrap_err();
    assert_eq!(err, ContractError::Unauthorized);
    assert_eq!(read_count(&store), 17);

    // The owner check compares the whole identity, not a prefix.
    let err = try_reset(&mut store, info("creator2"), 5).unwrap_err();
    assert_eq!(err, ContractError::Unauthorized);
    assert_eq!(read_count(&store), 17);
}

#[test]
fn operations_before_initialization_fail() {
    let mut store = Store::new();
    assert_eq!(
        execute(&mut store, info("anyone"), ExecuteMsg::Increment {}).unwrap_err(),
        ContractError::NotInitialized
    );
    assert_eq!(
        execute(&mut store, info("anyone"), ExecuteMsg::Reset { count: 3 }).unwrap_err(),
        ContractError::NotInitialized
    );
    assert_eq!(
        query(&store, QueryMsg::GetCount {}).unwrap_err(),
        ContractError::NotInitialized
    );
}

#[test]
fn second_initialization_is_rejected() {
    let mut store = Store::new();
    instantiate(&mut store, info("creator"), InstantiateMsg { count: 17 }).unwrap();

    let err = instantiate(&mut store, info("someone"), InstantiateMsg { count: 99 }).unwrap_err();
    assert_eq!(err, ContractError::AlreadyInitialized);
    assert_eq!(read_count(&store), 17);

    // The owner was not altered either: the original creator can still reset.
    try_reset(&mut store, info("creator"), 1).unwrap();
    assert_eq!(read_count(&store), 1);
    assert_eq!(
        try_reset(&mut store, info("someone"), 2).unwrap_err(),
        ContractError::Unauthorized
    );
}

#[test]
fn owner_gated_session() {
    let mut store = Store::new();
    instantiate(&mut store, info("identity_a"), InstantiateMsg { count: 17 }).unwrap();

    execute(&mut store, info("identity_b"), ExecuteMsg::Increment {}).unwrap();
    assert_eq!(read_count(&store), 18);

    let err = execute(&mut store, info("identity_b"), ExecuteMsg::Reset { count: 5 }).unwrap_err();
    assert_eq!(err, ContractError::Unauthorized);
    assert_eq!(read_count(&store), 18);

    execute(&mut store, info("identity_a"), ExecuteMsg::Reset { count: 5 }).unwrap();
    assert_eq!(read_count(&store), 5);
}
