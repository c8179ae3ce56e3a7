use vending_machine::contract;
use vending_machine::error::ContractError;
use vending_machine::msg::{ExecuteMsg, InstantiateMsg, ItemType, QueryMsg};
use vending_machine::state::{Chips, Chocolate, Identity, Ledger, Storage, Water};

fn storage(chocolate: u128, water: u128, chips: u128) -> Storage {
    Storage {
        chocolate: Chocolate { count: chocolate },
        water: Water { count: water },
        chips: Chips { count: chips },
    }
}

fn identity(addr: &str) -> Identity {
    Identity { addr: addr.to_string() }
}

fn mock_storage() -> Storage {
    storage(100, 10, 10)
}

fn create_instance() -> Ledger {
    let mut ledger = Ledger::new();
    contract::instantiate(
        &mut ledger,
        InstantiateMsg { admin: identity("owner"), storage: mock_storage() },
    );
    ledger
}

#[test]
fn items_count() {
    let ledger = create_instance();

    let resp = contract::query(&ledger, QueryMsg::ItemCount {}).unwrap();

    assert_eq!(resp.storage, mock_storage());
}

#[test]
fn get_item() {
    let mut ledger = create_instance();

    contract::execute(
        &mut ledger,
        identity("owner"),
        ExecuteMsg::GetItem { item_type: ItemType::Chocolate },
    )
    .unwrap();

    let resp = contract::query(&ledger, QueryMsg::ItemCount {}).unwrap();

    assert_eq!(resp.storage, storage(99, 10, 10));
}

#[test]
fn refill() {
    let mut ledger = create_instance();

    contract::execute(
        &mut ledger,
        identity("owner"),
        ExecuteMsg::Refill { new_storage: storage(5, 15, 25) },
    )
    .unwrap();

    let resp = contract::query(&ledger, QueryMsg::ItemCount {}).unwrap();

    assert_eq!(resp.storage, storage(105, 25, 35));
}

#[test]
fn unauthorized_refill() {
    let mut ledger = create_instance();

    let err = contract::execute(
        &mut ledger,
        identity("user"),
        ExecuteMsg::Refill { new_storage: mock_storage() },
    )
    .unwrap_err();

    assert_eq!(ContractError::Unauthorized { sender: identity("user") }, err);
}

#[test]
fn unauthorized_refill_leaves_inventory() {
    let mut ledger = create_instance();

    let err = contract::execute(
        &mut ledger,
        identity("user"),
        ExecuteMsg::Refill { new_storage: storage(5, 15, 25) },
    )
    .unwrap_err();

    assert_eq!(ContractError::Unauthorized { sender: identity("user") }, err);
    let resp = contract::query(&ledger, QueryMsg::ItemCount {}).unwrap();
    assert_eq!(resp.storage, mock_storage());
}

#[test]
fn instantiate_stores_admin_and_inventory() {
    let ledger = create_instance();

    assert_eq!(ledger.admin.as_ref().unwrap().addr, "owner");
    assert_eq!(ledger.inventory.unwrap(), mock_storage());
}

#[test]
fn instantiate_accepts_zero_counts() {
    let mut ledger = Ledger::new();
    contract::instantiate(
        &mut ledger,
        InstantiateMsg { admin: identity("owner"), storage: storage(0, 0, 0) },
    );

    let resp = contract::items_count(&ledger).unwrap();
    assert_eq!(resp.storage, storage(0, 0, 0));
}

#[test]
fn query_before_instantiation() {
    let ledger = Ledger::new();

    let err = contract::query(&ledger, QueryMsg::ItemCount {}).unwrap_err();

    assert_eq!(ContractError::NotInitialized, err);
}

#[test]
fn get_item_before_instantiation() {
    let mut ledger = Ledger::new();

    let err = contract::get_item(&mut ledger, ItemType::Water).unwrap_err();

    assert_eq!(ContractError::NotInitialized, err);
}

#[test]
fn refill_before_instantiation() {
    let mut ledger = Ledger::new();

    let err = contract::refill(&mut ledger, identity("owner"), storage(1, 1, 1)).unwrap_err();

    assert_eq!(ContractError::NotInitialized, err);
}

#[test]
fn get_item_each_kind() {
    let mut ledger = create_instance();

    contract::get_item(&mut ledger, ItemType::Water).unwrap();
    contract::get_item(&mut ledger, ItemType::Chips).unwrap();
    contract::get_item(&mut ledger, ItemType::Chocolate).unwrap();

    let resp = contract::items_count(&ledger).unwrap();
    assert_eq!(resp.storage, storage(99, 9, 9));
}

#[test]
fn get_item_on_zero_stock() {
    let mut ledger = Ledger::new();
    contract::instantiate(
        &mut ledger,
        InstantiateMsg { admin: identity("owner"), storage: storage(0, 3, 3) },
    );

    let err = contract::get_item(&mut ledger, ItemType::Chocolate).unwrap_err();

    assert_eq!(
        ContractError::InsufficientStock { item_type: ItemType::Chocolate },
        err
    );
    let resp = contract::items_count(&ledger).unwrap();
    assert_eq!(resp.storage, storage(0, 3, 3));
}

#[test]
fn get_item_drains_to_zero_then_fails() {
    let mut ledger = Ledger::new();
    contract::instantiate(
        &mut ledger,
        InstantiateMsg { admin: identity("owner"), storage: storage(5, 2, 5) },
    );

    contract::get_item(&mut ledger, ItemType::Water).unwrap();
    contract::get_item(&mut ledger, ItemType::Water).unwrap();
    let err = contract::get_item(&mut ledger, ItemType::Water).unwrap_err();

    assert_eq!(ContractError::InsufficientStock { item_type: ItemType::Water }, err);
    let resp = contract::items_count(&ledger).unwrap();
    assert_eq!(resp.storage, storage(5, 0, 5));
}

#[test]
fn refill_overflow_chocolate() {
    let mut ledger = Ledger::new();
    contract::instantiate(
        &mut ledger,
        InstantiateMsg { admin: identity("owner"), storage: storage(u128::MAX, 10, 10) },
    );

    let err = contract::refill(&mut ledger, identity("owner"), storage(1, 1, 1)).unwrap_err();

    assert_eq!(ContractError::Overflow { item_type: ItemType::Chocolate }, err);
    let resp = contract::items_count(&ledger).unwrap();
    assert_eq!(resp.storage, storage(u128::MAX, 10, 10));
}

#[test]
fn refill_overflow_water() {
    let mut ledger = Ledger::new();
    contract::instantiate(
        &mut ledger,
        InstantiateMsg { admin: identity("owner"), storage: storage(10, u128::MAX - 1, 10) },
    );

    let err = contract::refill(&mut ledger, identity("owner"), storage(1, 2, 1)).unwrap_err();

    assert_eq!(ContractError::Overflow { item_type: ItemType::Water }, err);
    let resp = contract::items_count(&ledger).unwrap();
    assert_eq!(resp.storage, storage(10, u128::MAX - 1, 10));
}

#[test]
fn refill_overflow_chips() {
    let mut ledger = Ledger::new();
    contract::instantiate(
        &mut ledger,
        InstantiateMsg { admin: identity("owner"), storage: storage(10, 10, u128::MAX) },
    );

    let err = contract::refill(&mut ledger, identity("owner"), storage(0, 0, 1)).unwrap_err();

    assert_eq!(ContractError::Overflow { item_type: ItemType::Chips }, err);
    let resp = contract::items_count(&ledger).unwrap();
    assert_eq!(resp.storage, storage(10, 10, u128::MAX));
}

#[test]
fn refill_overflow_reports_first_kind() {
    let mut ledger = Ledger::new();
    contract::instantiate(
        &mut ledger,
        InstantiateMsg {
            admin: identity("owner"),
            storage: storage(u128::MAX, u128::MAX, u128::MAX),
        },
    );

    let err = contract::refill(&mut ledger, identity("owner"), storage(1, 1, 1)).unwrap_err();

    assert_eq!(ContractError::Overflow { item_type: ItemType::Chocolate }, err);
}

#[test]
fn refill_to_exact_maximum() {
    let mut ledger = Ledger::new();
    contract::instantiate(
        &mut ledger,
        InstantiateMsg { admin: identity("owner"), storage: storage(u128::MAX - 5, 0, 0) },
    );

    contract::refill(&mut ledger, identity("owner"), storage(5, 0, 7)).unwrap();

    let resp = contract::items_count(&ledger).unwrap();
    assert_eq!(resp.storage, storage(u128::MAX, 0, 7));
}

#[test]
fn dispense_then_refill_round_trip() {
    let mut ledger = create_instance();

    contract::get_item(&mut ledger, ItemType::Chips).unwrap();
    contract::refill(&mut ledger, identity("owner"), storage(0, 0, 1)).unwrap();

    let resp = contract::items_count(&ledger).unwrap();
    assert_eq!(resp.storage, mock_storage());
}

#[test]
fn identity_matches_same_principal() {
    assert!(identity("owner").matches(&identity("owner")));
    assert!(!identity("owner").matches(&identity("user")));
}
