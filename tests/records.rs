use near_sdk::collections::UnorderedMap;
use near_sdk::{MockedBlockchain, VMContext};
use todo_records::Todo;

fn get_context(input: Vec<u8>, is_view: bool) -> VMContext {
    VMContext {
        current_account_id: "alice.testnet".to_string(),
        signer_account_id: "robert.testnet".to_string(),
        signer_account_pk: vec![0, 1, 2],
        predecessor_account_id: "jane.testnet".to_string(),
        input,
        block_index: 0,
        block_timestamp: 0,
        account_balance: 0,
        account_locked_balance: 0,
        storage_usage: 0,
        attached_deposit: 0,
        prepaid_gas: 10u64.pow(18),
        random_seed: vec![0, 1, 2],
        is_view,
        output_data_receivers: vec![],
        epoch_height: 19,
    }
}

fn set_up() {
    let context = get_context(vec![], false);
    near_sdk::env::set_blockchain_interface(Box::new(MockedBlockchain::new(
        context,
        Default::default(),
        Default::default(),
        vec![],
        Default::default(),
        Default::default(),
        None,
    )));
}

/// A store over a fresh map under the contract's storage prefix.
fn new_store() -> Todo {
    Todo::from_map(UnorderedMap::new(b"r".to_vec()))
}

const NO_RECORD: &str = "There is no such record!";

#[test]
fn get_record() {
    set_up();
    let mut contract = new_store();
    contract.add_record(1, "Edit the thesis".to_string());
    contract.add_record(2, "Finish the thesis".to_string());
    assert_eq!("Edit the thesis", contract.get_record(1));
    assert_eq!("Finish the thesis", contract.get_record(2));
}

#[test]
fn remove_record() {
    set_up();
    let mut contract = new_store();
    contract.add_record(1, "Finish the thesis".to_string());
    assert_eq!(contract.remove_record(1), ());
    assert_eq!(contract.record_count(), 0);
}

#[test]
fn remove_all_records() {
    set_up();
    let mut contract = new_store();
    contract.add_record(1, "Finish the thesis".to_string());
    contract.remove_all_records();
    assert_eq!(contract.record_count(), 0);
}

#[test]
fn add_then_get_gives_value_back() {
    set_up();
    let mut contract = new_store();
    contract.add_record(-7, "".to_string());
    contract.add_record(i32::MAX, "largest key".to_string());
    contract.add_record(i32::MIN, "smallest key".to_string());
    assert_eq!(contract.get_record(-7), "");
    assert_eq!(contract.get_record(i32::MAX), "largest key");
    assert_eq!(contract.get_record(i32::MIN), "smallest key");
    assert_eq!(contract.record_count(), 3);
}

#[test]
fn absent_key_gives_no_record_text() {
    set_up();
    let mut contract = new_store();
    assert_eq!(contract.get_record(5), NO_RECORD);
    contract.add_record(5, "five".to_string());
    contract.remove_record(5);
    assert_eq!(contract.get_record(5), NO_RECORD);
}

#[test]
fn remove_absent_key_changes_nothing() {
    set_up();
    let mut contract = new_store();
    contract.add_record(1, "one".to_string());
    contract.remove_record(2);
    assert_eq!(contract.record_count(), 1);
    assert_eq!(contract.get_record(1), "one");
    assert_eq!(contract.get_record(2), NO_RECORD);
}

#[test]
fn remove_all_forgets_every_key() {
    set_up();
    let mut contract = new_store();
    for k in 0..10 {
        contract.add_record(k, format!("record {}", k));
    }
    assert_eq!(contract.record_count(), 10);
    contract.remove_all_records();
    assert_eq!(contract.record_count(), 0);
    for k in 0..10 {
        assert_eq!(contract.get_record(k), NO_RECORD);
    }
    contract.remove_all_records();
    assert_eq!(contract.record_count(), 0);
}

#[test]
fn overwrite_keeps_second_value() {
    set_up();
    let mut contract = new_store();
    contract.add_record(3, "first".to_string());
    contract.add_record(3, "second".to_string());
    assert_eq!(contract.get_record(3), "second");
    assert_eq!(contract.record_count(), 1);
}

#[test]
fn add_record_confirms_stored_value() {
    set_up();
    let mut contract = new_store();
    let line = contract.add_record(1, "Edit \"the\" thesis".to_string());
    assert_eq!(line, "\"Edit \\\"the\\\" thesis\" record added.");
}

#[test]
fn get_records_lists_every_record() {
    set_up();
    let mut contract = new_store();
    assert_eq!(contract.get_records(), "Your list: [].");
    contract.add_record(1, "Edit the thesis".to_string());
    contract.add_record(2, "Finish the thesis".to_string());
    assert_eq!(
        contract.get_records(),
        "Your list: [(1, \"Edit the thesis\"), (2, \"Finish the thesis\")]."
    );
}
