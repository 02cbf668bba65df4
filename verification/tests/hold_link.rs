use holochain_core::agent::{create_new_chain_header, AgentState};
use holochain_core::dht::add_link;
use holochain_core::eav::{
    EntityAttributeValue, EntityAttributeValueStorage, ExampleEntityAttributeValueStorage,
};
use holochain_core::entry::{test_entry, Entry, Link, LinkAdd};
use holochain_core::error::HolochainError;
use holochain_core::hash::Address;
use holochain_core::hold_link::{
    hold_link_workflow, EntryWithHeader, HoldLink, HoldLinkAction, HoldLinkEvent, HoldLinkState,
};
use holochain_core::validation::{
    EntryAction, EntryLifecycle, ValidationData, ValidationPackage,
};

fn authored(entry: &Entry, agent: &mut AgentState) -> EntryWithHeader {
    let header = agent.commit(entry);
    EntryWithHeader { entry: entry.clone(), header }
}

fn link_entry_with_header() -> (EntryWithHeader, ValidationPackage) {
    let mut alice = AgentState::new(&Address::new("alice"));
    // Commit entry on attackers node
    let entry = test_entry();
    let entry_address = authored(&entry, &mut alice).entry.address();

    let link_add = LinkAdd::new(&entry_address, &entry_address, "test-tag");
    let link_entry = Entry::LinkAdd(link_add);
    let _ = authored(&link_entry, &mut alice);

    // Get header which we need to trigger hold_entry_workflow
    let header = alice
        .get_header_for_entry(&link_entry)
        .expect("There must be a header in the author's source chain after commit");
    let package = ValidationPackage::only_header(header.clone());
    (EntryWithHeader { entry: link_entry, header }, package)
}

// A node for the trial: an agent, and an application that judges entries.
struct Node {
    agent: AgentState,
    validate: fn(&Entry, &ValidationData) -> Result<(), HolochainError>,
}

fn test_wat_always_valid(_entry: &Entry, _data: &ValidationData) -> Result<(), HolochainError> {
    Ok(())
}

fn test_wat_always_invalid(_entry: &Entry, _data: &ValidationData) -> Result<(), HolochainError> {
    Err(HolochainError::ValidationFailed(String::from("FAIL wat")))
}

fn instance_by_name(name: &str, validate: fn(&Entry, &ValidationData) -> Result<(), HolochainError>) -> Node {
    Node { agent: AgentState::new(&Address::new(name)), validate }
}

// Validates the entry on the author's own node and commits it there.
fn author_entry(entry: &Entry, node: &mut Node) -> Result<Address, HolochainError> {
    let header = create_new_chain_header(entry, &node.agent);
    let data = ValidationData {
        package: ValidationPackage::only_header(header),
        sources: vec![node.agent.agent()],
        lifecycle: EntryLifecycle::Chain,
        action: EntryAction::Create,
    };
    (node.validate)(entry, &data)?;
    node.agent.commit(entry);
    Ok(entry.address())
}

// Runs the workflow on `node`, with `author` as the source of the package.
fn block_on_hold_link(
    entry_with_header: &EntryWithHeader,
    author: &Node,
    node: &Node,
) -> Result<(), HolochainError> {
    let mut storage = ExampleEntityAttributeValueStorage::new()?;
    let (mut workflow, mut action) = hold_link_workflow(entry_with_header);
    loop {
        let event = match action {
            HoldLinkAction::GetValidationPackage(header) => HoldLinkEvent::Package(Ok(author
                .agent
                .get_header_for_entry(&entry_with_header.entry)
                .filter(|found| *found == header)
                .map(ValidationPackage::only_header))),
            HoldLinkAction::ValidateEntry(entry, data) => {
                HoldLinkEvent::Validated((node.validate)(&entry, &data))
            }
            HoldLinkAction::AddLink(link) => {
                HoldLinkEvent::Committed(add_link(&mut storage, &link))
            }
            HoldLinkAction::Done(result) => return result,
        };
        action = workflow.step(event).expect("the workflow answers the event it waits for");
    }
}

#[test]
/// Test that an invalid link will be rejected by this workflow.
///
/// This test simulates an attack where a node is changing its local copy of the DNA to
/// allow otherwise invalid entries while spoofing the unmodified dna_address.
///
/// hold_link_workflow is then expected to fail in its validation step
fn test_reject_invalid_link_on_hold_workflow() {
    // Hacked DNA that regards everything as valid
    let mut context1 = instance_by_name("alice", test_wat_always_valid);
    // Unmodified DNA that regards nothing as valid
    let context2 = instance_by_name("jack", test_wat_always_invalid);

    // Commit entry on attackers node
    let entry = test_entry();
    let entry_address = author_entry(&entry, &mut context1).unwrap();

    let link_add = LinkAdd::new(&entry_address, &entry_address, "test-tag");
    let link_entry = Entry::LinkAdd(link_add);

    let _ = author_entry(&link_entry, &mut context1).unwrap();

    // Get header which we need to trigger hold_entry_workflow
    let header = context1
        .agent
        .get_header_for_entry(&link_entry)
        .expect("There must be a header in the author's source chain after commit");
    let entry_with_header = EntryWithHeader {
        entry: link_entry,
        header,
    };

    // Call hold_entry_workflow on victim DHT node
    let result = block_on_hold_link(&entry_with_header, &context1, &context2);

    // ... and expect validation to fail with message defined in test WAT:
    assert!(result.is_err());
    assert_eq!(
        result.err().unwrap(),
        HolochainError::ValidationFailed(String::from("FAIL wat")),
    );

    // the attacker's own node would have held it
    assert_eq!(block_on_hold_link(&entry_with_header, &context1, &context1), Ok(()));
    // and the victim would not have let the attacker's entry onto its own chain
    let mut victim = instance_by_name("jack", test_wat_always_invalid);
    assert!(author_entry(&test_entry(), &mut victim).is_err());
    assert_eq!(victim.agent.len(), 0);
}

#[test]
fn valid_link_goes_through_every_stage() {
    let (entry_with_header, package) = link_entry_with_header();
    let mut workflow = HoldLink::new(&entry_with_header);
    assert_eq!(workflow.state(), &HoldLinkState::Started);
    assert!(!workflow.is_done());
    assert_eq!(
        workflow.step(HoldLinkEvent::Begin),
        Some(HoldLinkAction::GetValidationPackage(entry_with_header.header.clone()))
    );
    assert_eq!(workflow.state(), &HoldLinkState::AwaitingPackage);
    let asked = workflow.step(HoldLinkEvent::Package(Ok(Some(package.clone()))));
    assert_eq!(
        asked,
        Some(HoldLinkAction::ValidateEntry(
            entry_with_header.entry.clone(),
            ValidationData {
                package,
                sources: vec![Address::new("alice")],
                lifecycle: EntryLifecycle::Meta,
                action: EntryAction::Create,
            }
        ))
    );
    assert_eq!(workflow.state(), &HoldLinkState::Validating);
    let link = match workflow.step(HoldLinkEvent::Validated(Ok(()))) {
        Some(HoldLinkAction::AddLink(link)) => link,
        _ => panic!("a valid link is to be written"),
    };
    assert_eq!(workflow.state(), &HoldLinkState::Committing);
    let mut storage = ExampleEntityAttributeValueStorage::new().unwrap();
    let written = add_link(&mut storage, &link);
    assert_eq!(written, Ok(()));
    assert_eq!(
        workflow.step(HoldLinkEvent::Committed(written)),
        Some(HoldLinkAction::Done(Ok(())))
    );
    assert_eq!(workflow.state(), &HoldLinkState::Succeeded);
    assert!(workflow.is_done());
    let address = test_entry().address();
    assert_eq!(
        storage.fetch_eav(Some(address.clone()), None, None).unwrap(),
        vec![EntityAttributeValue::new(&address, &"link__test-tag".to_string(), &address).unwrap()]
    );
    // after the end nothing moves
    assert_eq!(workflow.step(HoldLinkEvent::Begin), None);
    assert_eq!(workflow.step(HoldLinkEvent::Committed(Err(HolochainError::Timeout))), None);
    assert_eq!(workflow.state(), &HoldLinkState::Succeeded);
}

#[test]
fn wrong_kind_of_entry_ends_the_workflow_at_once() {
    let mut alice = AgentState::new(&Address::new("alice"));
    let entry_with_header = authored(&test_entry(), &mut alice);
    let (mut workflow, first) = hold_link_workflow(&entry_with_header);
    let error = HolochainError::ErrorGeneric(
        "hold_link_workflow expects entry to be an Entry::LinkAdd".to_string(),
    );
    assert_eq!(first, HoldLinkAction::Done(Err(error.clone())));
    assert_eq!(workflow.state(), &HoldLinkState::Failed(error.clone()));
    assert_eq!(
        workflow.step(HoldLinkEvent::Package(Ok(Some(ValidationPackage::only_header(
            entry_with_header.header.clone()
        ))))),
        None
    );
    assert_eq!(workflow.state(), &HoldLinkState::Failed(error));
}

#[test]
fn missing_package_and_stage_errors_end_the_workflow() {
    let (entry_with_header, package) = link_entry_with_header();
    let (mut workflow, _) = hold_link_workflow(&entry_with_header);
    let missing =
        HolochainError::ErrorGeneric("Could not get validation package from source".to_string());
    assert_eq!(
        workflow.step(HoldLinkEvent::Package(Ok(None))),
        Some(HoldLinkAction::Done(Err(missing.clone())))
    );
    assert_eq!(workflow.state(), &HoldLinkState::Failed(missing));

    let (mut workflow, _) = hold_link_workflow(&entry_with_header);
    assert_eq!(
        workflow.step(HoldLinkEvent::Package(Err(HolochainError::Timeout))),
        Some(HoldLinkAction::Done(Err(HolochainError::Timeout)))
    );

    let (mut workflow, _) = hold_link_workflow(&entry_with_header);
    // an event that is not awaited changes nothing
    assert_eq!(workflow.step(HoldLinkEvent::Validated(Ok(()))), None);
    assert_eq!(workflow.step(HoldLinkEvent::Begin), None);
    assert_eq!(workflow.state(), &HoldLinkState::AwaitingPackage);
    workflow.step(HoldLinkEvent::Package(Ok(Some(package))));
    workflow.step(HoldLinkEvent::Validated(Ok(())));
    let error = HolochainError::ErrorGeneric("disk full".to_string());
    assert_eq!(
        workflow.step(HoldLinkEvent::Committed(Err(error.clone()))),
        Some(HoldLinkAction::Done(Err(error.clone())))
    );
    assert_eq!(workflow.state(), &HoldLinkState::Failed(error));
}

#[test]
fn link_with_a_reserved_tag_is_not_written() {
    let mut storage = ExampleEntityAttributeValueStorage::new().unwrap();
    let base = Address::new("base");
    let target = Address::new("target");
    let bad = Link::new(&base, &target, "a/b");
    assert_eq!(
        add_link(&mut storage, &bad),
        Err(HolochainError::ErrorGeneric("Attribute name invalid".to_string()))
    );
    assert_eq!(storage.fetch_eav(None, None, None).unwrap(), vec![]);
    let good = Link::new(&base, &target, "friend");
    assert_eq!(add_link(&mut storage, &good), Ok(()));
    assert_eq!(add_link(&mut storage, &good), Ok(()));
    let found = storage.fetch_eav(None, None, None).unwrap();
    assert_eq!(found.len(), 1);
    assert_eq!(found[0].entity(), *good.base());
    assert_eq!(found[0].attribute(), "link__friend");
    assert_eq!(found[0].value(), *good.target());
    assert_eq!(good.tag(), "friend");
}
