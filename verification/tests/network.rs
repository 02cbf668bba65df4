use holochain_core::action::{Action, ActionWrapper, DhtContent, DhtData, NetworkSettings};
use holochain_core::entry::{test_entry, CrudStatus, EntryWithMeta};
use holochain_core::error::HolochainError;
use holochain_core::hash::Address;
use holochain_core::network::{
    get_entry_request, reduce_get_entry, reduce_get_entry_send_failed, reduce_get_entry_timeout,
    reduce_handle_get_result, reduce_init, GetDhtData, GetEntryFuture, NetworkState,
};
use holochain_core::nucleus::Async;
use holochain_core::state::{reduce_all, State};

fn test_store() -> State {
    State::new(&Address::new("alice"))
}

fn mock_network_config() -> String {
    "{\"backend\": \"mock\"}".to_string()
}

fn init_action() -> ActionWrapper {
    ActionWrapper::new(Action::InitNetwork(NetworkSettings {
        config: mock_network_config(),
        dna_address: Address::new("abcd"),
        agent_id: String::from("abcd"),
    }))
}

#[test]
pub fn reduce_get_entry_without_network_initialized() {
    let store = test_store();

    let entry = test_entry();
    let action_wrapper = ActionWrapper::new(Action::GetEntry(entry.address()));

    let (store, message) = store.reduce(&action_wrapper);
    let maybe_get_entry_result = store.network().get_entry_result(&entry.address());
    assert_eq!(
        maybe_get_entry_result,
        Some(Some(Err(HolochainError::ErrorGeneric(
            "Network not initialized".to_string()
        ))))
    );
    assert_eq!(message, None);
}

#[test]
pub fn reduce_get_entry_test() {
    let store = test_store();

    let (store, _) = store.reduce(&init_action());

    let entry = test_entry();
    let action_wrapper = ActionWrapper::new(Action::GetEntry(entry.address()));

    let (store, message) = store.reduce(&action_wrapper);
    let maybe_get_entry_result = store.network().get_entry_result(&entry.address());
    assert_eq!(maybe_get_entry_result, Some(None));
    assert_eq!(
        message,
        Some(GetDhtData {
            msg_id: "?".to_string(),
            dna_address: "abcd".to_string(),
            from_agent_id: "abcd".to_string(),
            address: entry.address().to_string(),
        })
    );
}

#[test]
pub fn reduce_get_entry_timeout_test() {
    let store = test_store();
    let (store, _) = store.reduce(&init_action());

    let entry = test_entry();
    let action_wrapper = ActionWrapper::new(Action::GetEntry(entry.address()));
    let (store, _) = store.reduce(&action_wrapper);
    let maybe_get_entry_result = store.network().get_entry_result(&entry.address());
    assert_eq!(maybe_get_entry_result, Some(None));

    let action_wrapper = ActionWrapper::new(Action::GetEntryTimeout(entry.address()));
    let (store, _) = store.reduce(&action_wrapper);
    let maybe_get_entry_result = store.network().get_entry_result(&entry.address());
    assert_eq!(
        maybe_get_entry_result,
        Some(Some(Err(HolochainError::Timeout)))
    );

    // test that an existing result does not get overwritten by timeout signal
    let entry_with_meta = EntryWithMeta {
        entry: entry.clone(),
        crud_status: CrudStatus::Live,
        maybe_crud_link: None,
    };
    let dht_data = DhtData {
        msg_id: String::new(),
        dna_address: String::new(),
        agent_id: String::new(),
        address: entry.address().to_string(),
        content: DhtContent::Decoded(Some(entry_with_meta.clone())),
    };

    let action_wrapper = ActionWrapper::new(Action::HandleGetResult(dht_data));
    let (store, _) = store.reduce(&action_wrapper);
    let maybe_entry_with_meta_result = store.network().get_entry_result(&entry.address());
    assert!(maybe_entry_with_meta_result.is_some());
    let maybe_entry_with_meta = maybe_entry_with_meta_result.unwrap().unwrap();
    let entry_with_meta = maybe_entry_with_meta.unwrap().unwrap();
    assert_eq!(entry_with_meta.entry, entry.clone());

    // Ok we got a positive result in the state
    let action_wrapper = ActionWrapper::new(Action::GetEntryTimeout(entry.address()));
    let (store, _) = store.reduce(&action_wrapper);
    let maybe_entry_with_meta_result = store.network().get_entry_result(&entry.address());
    // The timeout should not have overwritten the entry
    assert!(maybe_entry_with_meta_result.is_some());
    let maybe_entry_with_meta = maybe_entry_with_meta_result.unwrap().unwrap();
    let entry_with_meta = maybe_entry_with_meta.unwrap().unwrap();
    assert_eq!(entry_with_meta.entry, entry);
}

#[test]
fn timeout_of_an_address_never_asked_for_changes_nothing() {
    let mut network = NetworkState::new();
    let address = Address::new("never");
    reduce_get_entry_timeout(
        &mut network,
        &ActionWrapper::new(Action::GetEntryTimeout(address.clone())),
    );
    assert_eq!(network.get_entry_result(&address), None);
}

#[test]
fn timeout_is_idempotent_and_keeps_errors() {
    let mut network = NetworkState::new();
    let address = Address::new("a1");
    // not joined: the request fails at once, and a timeout leaves that error
    let message =
        reduce_get_entry(&mut network, &ActionWrapper::new(Action::GetEntry(address.clone())));
    assert_eq!(message, None);
    let timeout = ActionWrapper::new(Action::GetEntryTimeout(address.clone()));
    reduce_get_entry_timeout(&mut network, &timeout);
    assert_eq!(
        network.get_entry_result(&address),
        Some(Some(Err(HolochainError::ErrorGeneric("Network not initialized".to_string()))))
    );
    // joined: the failed request stays failed when it is made again
    reduce_init(&mut network, &init_action());
    assert_eq!(network.initialized(), Ok(()));
    let again =
        reduce_get_entry(&mut network, &ActionWrapper::new(Action::GetEntry(address.clone())));
    assert_eq!(again, None);
    assert_eq!(
        network.get_entry_result(&address),
        Some(Some(Err(HolochainError::ErrorGeneric("Network not initialized".to_string()))))
    );
    // another request is pending, then timed out, and a second timeout changes nothing
    let other = Address::new("a2");
    let other_timeout = ActionWrapper::new(Action::GetEntryTimeout(other.clone()));
    reduce_get_entry(&mut network, &ActionWrapper::new(Action::GetEntry(other.clone())));
    assert_eq!(network.get_entry_result(&other), Some(None));
    reduce_get_entry_timeout(&mut network, &other_timeout);
    reduce_get_entry_timeout(&mut network, &other_timeout);
    assert_eq!(network.get_entry_result(&other), Some(Some(Err(HolochainError::Timeout))));
}

#[test]
fn a_request_does_not_replace_what_an_earlier_one_came_to() {
    let mut network = NetworkState::new();
    reduce_init(&mut network, &init_action());
    let address = Address::new("a1");
    let get = ActionWrapper::new(Action::GetEntry(address.clone()));
    // a pending request that is made again is sent again and stays pending
    assert!(reduce_get_entry(&mut network, &get).is_some());
    assert!(reduce_get_entry(&mut network, &get).is_some());
    assert_eq!(network.get_entry_result(&address), Some(None));
    let entry_with_meta = EntryWithMeta {
        entry: test_entry(),
        crud_status: CrudStatus::Live,
        maybe_crud_link: None,
    };
    reduce_handle_get_result(
        &mut network,
        &ActionWrapper::new(Action::HandleGetResult(DhtData {
            msg_id: String::new(),
            dna_address: String::new(),
            agent_id: String::new(),
            address: "a1".to_string(),
            content: DhtContent::Decoded(Some(entry_with_meta.clone())),
        })),
    );
    let answered = Some(Some(Ok(Some(entry_with_meta))));
    assert_eq!(network.get_entry_result(&address), answered);
    // the answer stays, and nothing is sent
    assert_eq!(reduce_get_entry(&mut network, &get), None);
    assert_eq!(network.get_entry_result(&address), answered);
    // so does a timeout
    let timed_out = Address::new("a2");
    reduce_get_entry(&mut network, &ActionWrapper::new(Action::GetEntry(timed_out.clone())));
    reduce_get_entry_timeout(
        &mut network,
        &ActionWrapper::new(Action::GetEntryTimeout(timed_out.clone())),
    );
    assert_eq!(
        reduce_get_entry(&mut network, &ActionWrapper::new(Action::GetEntry(timed_out.clone()))),
        None
    );
    assert_eq!(network.get_entry_result(&timed_out), Some(Some(Err(HolochainError::Timeout))));
    // through the state store as well
    let store = test_store();
    let (store, _) = store.reduce(&init_action());
    let (store, first) = store.reduce(&get);
    assert!(first.is_some());
    let (store, _) = store.reduce(&ActionWrapper::new(Action::GetEntryTimeout(address.clone())));
    let (store, second) = store.reduce(&get);
    assert_eq!(second, None);
    assert_eq!(
        store.network().get_entry_result(&address),
        Some(Some(Err(HolochainError::Timeout)))
    );
}

#[test]
fn answers_are_told_apart() {
    let mut network = NetworkState::new();
    let address = Address::new("a1");
    let answer = |content: DhtContent| {
        ActionWrapper::new(Action::HandleGetResult(DhtData {
            msg_id: "1".to_string(),
            dna_address: "abcd".to_string(),
            agent_id: "bob".to_string(),
            address: "a1".to_string(),
            content,
        }))
    };
    // before the network is joined, any answer is an error
    reduce_handle_get_result(&mut network, &answer(DhtContent::Decoded(None)));
    assert_eq!(
        network.get_entry_result(&address),
        Some(Some(Err(HolochainError::ErrorGeneric("Network not initialized".to_string()))))
    );
    reduce_init(&mut network, &init_action());
    reduce_handle_get_result(&mut network, &answer(DhtContent::Decoded(None)));
    assert_eq!(network.get_entry_result(&address), Some(Some(Ok(None))));
    reduce_handle_get_result(&mut network, &answer(DhtContent::Undecodable));
    assert_eq!(
        network.get_entry_result(&address),
        Some(Some(Err(HolochainError::ErrorGeneric(
            "Failed to deserialize EntryWithMeta from HandleGetResult action argument"
                .to_string()
        ))))
    );
}

#[test]
fn request_names_the_node_and_the_address() {
    let mut network = NetworkState::new();
    let address = Address::new("wanted");
    assert_eq!(
        get_entry_request(&network, &address),
        Err(HolochainError::ErrorGeneric("Network not initialized".to_string()))
    );
    assert!(network.initialized().is_err());
    reduce_init(
        &mut network,
        &ActionWrapper::new(Action::InitNetwork(NetworkSettings {
            config: mock_network_config(),
            dna_address: Address::new("dna-1"),
            agent_id: "carol".to_string(),
        })),
    );
    assert_eq!(
        get_entry_request(&network, &address),
        Ok(GetDhtData {
            msg_id: "?".to_string(),
            dna_address: "dna-1".to_string(),
            from_agent_id: "carol".to_string(),
            address: "wanted".to_string(),
        })
    );
}

#[test]
fn a_failed_send_fails_only_a_pending_request() {
    let mut network = NetworkState::new();
    reduce_init(&mut network, &init_action());
    let address = Address::new("a1");
    let error = HolochainError::ErrorGeneric("wire cut".to_string());
    reduce_get_entry_send_failed(&mut network, &address, &error);
    assert_eq!(network.get_entry_result(&address), None);
    reduce_get_entry(&mut network, &ActionWrapper::new(Action::GetEntry(address.clone())));
    reduce_get_entry_send_failed(&mut network, &address, &error);
    assert_eq!(network.get_entry_result(&address), Some(Some(Err(error.clone()))));
    reduce_get_entry_send_failed(&mut network, &address, &HolochainError::Timeout);
    assert_eq!(network.get_entry_result(&address), Some(Some(Err(error))));
}

#[test]
fn get_entry_future_follows_the_state() {
    let future = GetEntryFuture { address: Address::new("a1") };
    assert_eq!(future.poll(None), Ok(Async::Pending));
    let mut network = NetworkState::new();
    reduce_init(&mut network, &init_action());
    assert_eq!(future.poll(Some(&network)), Ok(Async::Pending));
    reduce_get_entry(&mut network, &ActionWrapper::new(Action::GetEntry(Address::new("a1"))));
    assert_eq!(future.poll(Some(&network)), Ok(Async::Pending));
    let entry_with_meta = EntryWithMeta {
        entry: test_entry(),
        crud_status: CrudStatus::Live,
        maybe_crud_link: None,
    };
    reduce_handle_get_result(
        &mut network,
        &ActionWrapper::new(Action::HandleGetResult(DhtData {
            msg_id: String::new(),
            dna_address: String::new(),
            agent_id: String::new(),
            address: "a1".to_string(),
            content: DhtContent::Decoded(Some(entry_with_meta.clone())),
        })),
    );
    assert_eq!(future.poll(Some(&network)), Ok(Async::Ready(Some(entry_with_meta))));
    let other = GetEntryFuture { address: Address::new("a2") };
    reduce_get_entry(&mut network, &ActionWrapper::new(Action::GetEntry(Address::new("a2"))));
    reduce_get_entry_timeout(
        &mut network,
        &ActionWrapper::new(Action::GetEntryTimeout(Address::new("a2"))),
    );
    assert_eq!(other.poll(Some(&network)), Err(HolochainError::Timeout));
}

#[test]
fn reduce_leaves_the_old_snapshot_alone_and_logs_in_order() {
    let store = test_store();
    let first = init_action();
    let second = ActionWrapper::new(Action::GetEntry(Address::new("a1")));
    let (after_first, _) = store.reduce(&first);
    let (after_second, _) = after_first.reduce(&second);
    assert_eq!(store.history_len(), 0);
    assert_eq!(after_first.history_len(), 1);
    assert_eq!(after_second.history_len(), 2);
    assert!(store.network().initialized().is_err());
    assert_eq!(after_first.network().get_entry_result(&Address::new("a1")), None);
    assert_eq!(after_second.network().get_entry_result(&Address::new("a1")), Some(None));
    assert_ne!(first.id(), second.id());
    assert_eq!(first.action(), init_action().action());
}

#[test]
fn a_run_of_actions_is_applied_in_the_order_received() {
    let store = test_store();
    let a1 = Address::new("a1");
    let a2 = Address::new("a2");
    let actions = vec![
        ActionWrapper::new(Action::GetEntry(a1.clone())),
        init_action(),
        ActionWrapper::new(Action::GetEntry(a2.clone())),
        ActionWrapper::new(Action::GetEntryTimeout(a2.clone())),
        ActionWrapper::new(Action::GetEntryTimeout(a1.clone())),
    ];
    let (after, messages) = reduce_all(&store, &actions);
    assert_eq!(after.history_len(), 5);
    // asked before the network was joined: failed, and no message went out
    assert_eq!(
        after.network().get_entry_result(&a1),
        Some(Some(Err(HolochainError::ErrorGeneric("Network not initialized".to_string()))))
    );
    assert_eq!(after.network().get_entry_result(&a2), Some(Some(Err(HolochainError::Timeout))));
    assert_eq!(
        messages,
        vec![GetDhtData {
            msg_id: "?".to_string(),
            dna_address: "abcd".to_string(),
            from_agent_id: "abcd".to_string(),
            address: "a2".to_string(),
        }]
    );
    let mut step_by_step = test_store();
    for action in actions.iter() {
        step_by_step = step_by_step.reduce(action).0;
    }
    assert_eq!(step_by_step.network().get_entry_result(&a2), after.network().get_entry_result(&a2));
    assert_eq!(store.history_len(), 0);
    let failed = after.send_failed(&a2, &HolochainError::ErrorGeneric("late".to_string()));
    assert_eq!(failed.network().get_entry_result(&a2), Some(Some(Err(HolochainError::Timeout))));
}
