use holochain_core::action::{Action, ActionWrapper};
use holochain_core::agent::{create_new_chain_header, AgentState};
use holochain_core::build_validation_package::{
    all_public_chain_entries, all_public_chain_headers, assemble_validation_package,
    build_validation_package, chain_header, package_for_definition, PackageRequest,
};
use holochain_core::chain_header::ChainHeader;
use holochain_core::dna::{Dna, Zome};
use holochain_core::entry::{Entry, EntryType};
use holochain_core::error::HolochainError;
use holochain_core::hash::Address;
use holochain_core::network::NetworkState;
use holochain_core::nucleus::{
    reduce_return_validation_package, Async, NucleusState, RequestId, ValidationPackageFuture,
};
use holochain_core::state::State;
use holochain_core::validation::{
    CallbackResult, ValidationPackage, ValidationPackageDefinition,
};

fn test_dna() -> Dna {
    let mut zome = Zome::new("test_zome");
    zome.add_entry_type("package_entry");
    zome.add_entry_type("package_chain_entries");
    zome.add_entry_type("package_chain_headers");
    zome.add_entry_type("package_chain_full");
    zome.add_entry_type("package_custom");
    zome.add_entry_type("package_missing");
    zome.add_entry_type("package_failing");
    Dna { zomes: vec![Zome::new("empty_zome"), zome] }
}

fn instance() -> State {
    State::from_parts(
        NucleusState::new().with_dna(test_dna()),
        AgentState::new(&Address::new("joan")),
        NetworkState::new(),
    )
}

// What the application under trial answers for each kind of entry.
fn get_validation_package_definition(
    entry_type: &EntryType,
) -> Result<CallbackResult, HolochainError> {
    let definition = match entry_type.as_str().as_str() {
        "package_entry" => ValidationPackageDefinition::Entry,
        "package_chain_entries" => ValidationPackageDefinition::ChainEntries,
        "package_chain_headers" => ValidationPackageDefinition::ChainHeaders,
        "package_chain_full" => ValidationPackageDefinition::ChainFull,
        "package_custom" => ValidationPackageDefinition::Custom("custom data".to_string()),
        "package_failing" => return Ok(CallbackResult::Fail("no package for you".to_string())),
        _ => return Ok(CallbackResult::NotImplemented),
    };
    Ok(CallbackResult::ValidationPackageDefinition(definition))
}

fn test_entry_package_entry() -> Entry {
    Entry::new(&EntryType::App(String::from("package_entry")), &String::from("test value"))
}

fn test_entry_package_chain_entries() -> Entry {
    Entry::new(
        &EntryType::App(String::from("package_chain_entries")),
        &String::from("test value"),
    )
}

fn test_entry_package_chain_headers() -> Entry {
    Entry::new(
        &EntryType::App(String::from("package_chain_headers")),
        &String::from("test value"),
    )
}

fn test_entry_package_chain_full() -> Entry {
    Entry::new(&EntryType::App(String::from("package_chain_full")), &String::from("test value"))
}

fn commit(entry: Entry, state: &mut State) -> ChainHeader {
    let (next, _) = state.reduce(&ActionWrapper::new(Action::Commit(entry.clone())));
    *state = next;
    chain_header(&entry, state.agent()).expect("Couldn't find header in chain for given entry")
}

// Runs a package through both halves and the state, as the running node does.
fn block_on_build(entry: &Entry, state: &mut State) -> Result<ValidationPackage, HolochainError> {
    let request = build_validation_package(entry, state.nucleus(), state.agent())?;
    let future = request.future();
    assert_eq!(future.poll(Some(state.nucleus())), Ok(Async::Pending));
    let callback = get_validation_package_definition(&entry.entry_type());
    let result = assemble_validation_package(&request, &callback, state.agent());
    let (next, message) = state.reduce(&ActionWrapper::new(Action::ReturnValidationPackage((
        request.id.clone(),
        result,
    ))));
    assert_eq!(message, None);
    *state = next;
    match future.poll(Some(state.nucleus()))? {
        Async::Ready(package) => Ok(package),
        Async::Pending => panic!("the package was returned, so the future is ready"),
    }
}

#[test]
fn test_building_validation_package_entry() {
    let mut context = instance();

    // adding other entries to not have special case of empty chain
    commit(test_entry_package_chain_entries(), &mut context);
    commit(test_entry_package_chain_full(), &mut context);

    // commit entry to build validation package for
    let chain_header = commit(test_entry_package_entry(), &mut context);

    let maybe_validation_package = block_on_build(&test_entry_package_entry(), &mut context);
    println!("{:?}", maybe_validation_package);
    assert!(maybe_validation_package.is_ok());

    let expected = ValidationPackage {
        chain_header: Some(chain_header),
        source_chain_entries: None,
        source_chain_headers: None,
        custom: None,
    };

    assert_eq!(maybe_validation_package.unwrap(), expected);
}

#[test]
fn test_building_validation_package_chain_entries() {
    let mut context = instance();

    // adding other entries to not have special case of empty chain
    commit(test_entry_package_chain_entries(), &mut context);
    commit(test_entry_package_chain_full(), &mut context);

    // commit entry to build validation package for
    let chain_header = commit(test_entry_package_chain_entries(), &mut context);

    let maybe_validation_package =
        block_on_build(&test_entry_package_chain_entries(), &mut context);
    assert!(maybe_validation_package.is_ok());

    let expected = ValidationPackage {
        chain_header: Some(chain_header),
        source_chain_entries: Some(all_public_chain_entries(context.agent())),
        source_chain_headers: None,
        custom: None,
    };

    assert_eq!(maybe_validation_package.unwrap(), expected);
}

#[test]
fn test_building_validation_package_chain_headers() {
    let mut context = instance();

    // adding other entries to not have special case of empty chain
    commit(test_entry_package_chain_entries(), &mut context);
    commit(test_entry_package_chain_full(), &mut context);

    // commit entry to build validation package for
    let chain_header = commit(test_entry_package_chain_headers(), &mut context);

    let maybe_validation_package =
        block_on_build(&test_entry_package_chain_headers(), &mut context);
    assert!(maybe_validation_package.is_ok());

    let expected = ValidationPackage {
        chain_header: Some(chain_header),
        source_chain_entries: None,
        source_chain_headers: Some(all_public_chain_headers(context.agent())),
        custom: None,
    };

    assert_eq!(maybe_validation_package.unwrap(), expected);
}

#[test]
fn test_building_validation_package_chain_full() {
    let mut context = instance();

    // adding other entries to not have special case of empty chain
    commit(test_entry_package_chain_entries(), &mut context);
    commit(test_entry_package_entry(), &mut context);

    // commit entry to build validation package for
    let chain_header = commit(test_entry_package_chain_full(), &mut context);

    let maybe_validation_package = block_on_build(&test_entry_package_chain_full(), &mut context);
    assert!(maybe_validation_package.is_ok());

    let expected = ValidationPackage {
        chain_header: Some(chain_header),
        source_chain_entries: Some(all_public_chain_entries(context.agent())),
        source_chain_headers: Some(all_public_chain_headers(context.agent())),
        custom: None,
    };

    assert_eq!(maybe_validation_package.unwrap(), expected);
}

#[test]
fn full_package_leaves_unpublished_entries_out() {
    let mut context = instance();
    let public_entry = test_entry_package_entry();
    let private_entry = Entry::Dna("the dna".to_string());
    let public_header = commit(public_entry.clone(), &mut context);
    let private_header = commit(private_entry.clone(), &mut context);
    let subject = test_entry_package_chain_full();
    let subject_header = commit(subject.clone(), &mut context);

    let package = block_on_build(&subject, &mut context).unwrap();
    assert_eq!(package.chain_header, Some(subject_header.clone()));
    // newest first, and without the entry of the unpublished kind
    assert_eq!(package.source_chain_entries, Some(vec![subject.clone(), public_entry.clone()]));
    assert_eq!(
        package.source_chain_headers,
        Some(vec![subject_header, public_header.clone()])
    );
    assert_eq!(package.custom, None);
    let entries = package.source_chain_entries.unwrap();
    let headers = package.source_chain_headers.unwrap();
    assert!(entries.contains(&public_entry));
    assert!(!entries.contains(&private_entry));
    assert!(headers.contains(&public_header));
    assert!(!headers.contains(&private_header));
    assert!(!private_header.entry_type().can_publish());
    assert!(headers.iter().all(|header| header.entry_type().can_publish()));
}

#[test]
fn custom_package_carries_the_payload() {
    let mut context = instance();
    let entry = Entry::new(&EntryType::App("package_custom".to_string()), "v");
    let header = commit(entry.clone(), &mut context);
    let package = block_on_build(&entry, &mut context).unwrap();
    assert_eq!(
        package,
        ValidationPackage {
            chain_header: Some(header),
            source_chain_entries: None,
            source_chain_headers: None,
            custom: Some("custom data".to_string()),
        }
    );
}

#[test]
fn every_definition_fills_its_own_fields() {
    let mut context = instance();
    commit(test_entry_package_entry(), &mut context);
    commit(Entry::Dna("dna".to_string()), &mut context);
    let header = commit(test_entry_package_chain_full(), &mut context);
    let agent = context.agent();
    let cases = vec![
        (ValidationPackageDefinition::Entry, false, false, None),
        (ValidationPackageDefinition::ChainEntries, true, false, None),
        (ValidationPackageDefinition::ChainHeaders, false, true, None),
        (ValidationPackageDefinition::ChainFull, true, true, None),
        (ValidationPackageDefinition::Custom("x".to_string()), false, false, Some("x".to_string())),
    ];
    for (definition, entries, headers, custom) in cases {
        let package = package_for_definition(&header, &definition, agent);
        assert_eq!(package.chain_header, Some(header.clone()));
        assert_eq!(package.source_chain_entries.is_some(), entries);
        assert_eq!(package.source_chain_headers.is_some(), headers);
        assert_eq!(package.custom, custom);
        if let Some(found) = package.source_chain_entries {
            assert_eq!(found.len(), 2);
        }
        if let Some(found) = package.source_chain_headers {
            assert_eq!(found.len(), 2);
        }
    }
}

#[test]
fn unknown_entry_type_is_refused_before_any_work() {
    let mut context = instance();
    let entry = Entry::new(&EntryType::App("nobody_declares_me".to_string()), "v");
    let started = build_validation_package(&entry, context.nucleus(), context.agent());
    match started {
        Err(error) => assert_eq!(
            error,
            HolochainError::ValidationFailed(
                "Unknown entry type: 'nobody_declares_me'".to_string()
            )
        ),
        Ok(_) => panic!("an unknown entry type must be refused"),
    }
    assert_eq!(
        block_on_build(&Entry::AgentId("me".to_string()), &mut context),
        Err(HolochainError::ValidationFailed("Unknown entry type: '%agent_id'".to_string()))
    );
    assert_eq!(context.history_len(), 0);
}

#[test]
fn callback_failures_become_the_result() {
    let mut context = instance();
    let missing = Entry::new(&EntryType::App("package_missing".to_string()), "v");
    assert_eq!(
        block_on_build(&missing, &mut context),
        Err(HolochainError::ErrorGeneric(
            "ValidationPackage callback not implemented for App(\"package_missing\")".to_string()
        ))
    );
    let failing = Entry::new(&EntryType::App("package_failing".to_string()), "v");
    assert_eq!(
        block_on_build(&failing, &mut context),
        Err(HolochainError::ErrorGeneric("no package for you".to_string()))
    );
    let request =
        build_validation_package(&failing, context.nucleus(), context.agent()).unwrap();
    let result =
        assemble_validation_package(&request, &Err(HolochainError::Timeout), context.agent());
    assert_eq!(result, Err(HolochainError::Timeout));
}

#[test]
fn debug_text_of_a_kind_escapes_its_name() {
    assert_eq!(EntryType::App("a\"b\\c".to_string()).debug(), "App(\"a\\\"b\\\\c\")");
    assert_eq!(EntryType::Dna.debug(), "Dna");
    assert_eq!(EntryType::LinkAdd.debug(), format!("{:?}", EntryType::LinkAdd));
    assert_eq!(
        EntryType::App("né\n".to_string()).debug(),
        format!("{:?}", EntryType::App("né\n".to_string()))
    );
}

#[test]
fn uncommitted_entry_gets_a_provisional_header() {
    let mut context = instance();
    let first = commit(test_entry_package_chain_entries(), &mut context);
    let entry = test_entry_package_entry();
    assert_eq!(chain_header(&entry, context.agent()), None);
    let request: PackageRequest =
        build_validation_package(&entry, context.nucleus(), context.agent()).unwrap();
    assert_eq!(request.entry, entry);
    assert_eq!(request.entry_header, create_new_chain_header(&entry, context.agent()));
    assert_eq!(request.entry_header.entry_address(), &entry.address());
    assert_eq!(request.entry_header.entry_type(), &entry.entry_type());
    assert_eq!(request.entry_header.link(), Some(first.address()));
    assert_eq!(request.entry_header.link_same_type(), None);
    assert_eq!(request.entry_header.sources(), &vec![Address::new("joan")]);
    // nothing was committed by asking
    assert_eq!(context.agent().len(), 1);
}

#[test]
fn newest_commit_of_an_entry_gives_its_header() {
    let mut context = instance();
    let entry = test_entry_package_entry();
    let first = commit(entry.clone(), &mut context);
    commit(test_entry_package_chain_full(), &mut context);
    let second = commit(entry.clone(), &mut context);
    assert_ne!(first, second);
    assert_eq!(second.link_same_type(), Some(first.address()));
    assert_eq!(first.link(), None);
    assert_eq!(chain_header(&entry, context.agent()), Some(second.clone()));
    assert_eq!(context.agent().top_chain_header(), Some(second));
    assert_eq!(context.agent().pair(0).header, first);
}

#[test]
fn first_answer_to_a_request_stands() {
    let mut nucleus = NucleusState::new();
    let id = RequestId::new();
    let future = ValidationPackageFuture { key: id.clone() };
    assert_eq!(future.poll(None), Ok(Async::Pending));
    assert_eq!(future.poll(Some(&nucleus)), Ok(Async::Pending));
    reduce_return_validation_package(&mut nucleus, &id, &Err(HolochainError::Timeout));
    assert_eq!(future.poll(Some(&nucleus)), Err(HolochainError::Timeout));
    let late = ValidationPackage {
        chain_header: None,
        source_chain_entries: None,
        source_chain_headers: None,
        custom: Some("late".to_string()),
    };
    reduce_return_validation_package(&mut nucleus, &id, &Ok(late.clone()));
    assert_eq!(future.poll(Some(&nucleus)), Err(HolochainError::Timeout));
    let other = RequestId::new();
    assert_ne!(other, id);
    reduce_return_validation_package(&mut nucleus, &other, &Ok(late.clone()));
    assert_eq!(
        ValidationPackageFuture { key: other }.poll(Some(&nucleus)),
        Ok(Async::Ready(late))
    );
    assert_eq!(future.poll(None), Ok(Async::Pending));
}

#[test]
fn zome_lookup_finds_the_first_that_declares() {
    let mut first = Zome::new("first");
    first.add_entry_type("shared");
    let mut second = Zome::new("second");
    second.add_entry_type("shared");
    second.add_entry_type("own");
    let dna = Dna { zomes: vec![first, second] };
    assert_eq!(dna.get_zome_name_for_entry_type("shared"), Some("first".to_string()));
    assert_eq!(dna.get_zome_name_for_entry_type("own"), Some("second".to_string()));
    assert_eq!(dna.get_zome_name_for_entry_type("none"), None);
    assert_eq!(Dna::new().get_zome_name_for_entry_type("shared"), None);
}
