use holochain_core::error::HolochainError;
use holochain_core::config::{
    bootstrap_from_config, instance_id, make_config, make_dna_config, AgentConfiguration,
    AgentData, Bridge, Configuration, DnaConfiguration, DnaData, InstanceConfiguration,
    InstanceData, InterfaceConfiguration, InterfaceDriver, LoggerConfiguration,
    StorageConfiguration,
};

fn instance(agent: &str, dna: &str) -> InstanceData {
    InstanceData {
        agent: AgentData { name: agent.to_string() },
        dna: DnaData { path: dna.to_string() },
    }
}

#[test]
fn instance_ids_join_agent_and_dna() {
    assert_eq!(instance_id("alice", "app.dna.json"), "alice::app.dna.json");
    assert_eq!(instance_id("", ""), "::");
}

#[test]
fn dna_config_is_made_of_the_path() {
    assert_eq!(
        make_dna_config(DnaData { path: "path/to/app.dna.json".to_string() }),
        Ok(DnaConfiguration {
            id: "path/to/app.dna.json".to_string(),
            file: "path/to/app.dna.json".to_string(),
            hash: "DONTCARE".to_string(),
        })
    );
}

#[test]
fn shared_agents_and_dnas_are_configured_once() {
    let config = make_config(
        vec![instance("alice", "a.dna"), instance("bob", "a.dna"), instance("alice", "b.dna")],
        vec!["key-alice".to_string(), "key-bob".to_string(), "key-alice-again".to_string()],
        "mock",
    );
    assert_eq!(
        config.agents,
        vec![
            AgentConfiguration {
                id: "alice".to_string(),
                name: "alice".to_string(),
                public_address: "key-alice".to_string(),
                key_file: "fake/key/alice".to_string(),
            },
            AgentConfiguration {
                id: "bob".to_string(),
                name: "bob".to_string(),
                public_address: "key-bob".to_string(),
                key_file: "fake/key/bob".to_string(),
            },
        ]
    );
    assert_eq!(
        config.dnas,
        vec![
            DnaConfiguration {
                id: "a.dna".to_string(),
                file: "a.dna".to_string(),
                hash: "DONTCARE".to_string()
            },
            DnaConfiguration {
                id: "b.dna".to_string(),
                file: "b.dna".to_string(),
                hash: "DONTCARE".to_string()
            },
        ]
    );
    assert_eq!(config.instances.len(), 3);
    assert_eq!(
        config.instances[1],
        InstanceConfiguration {
            id: "bob::a.dna".to_string(),
            agent: "bob".to_string(),
            dna: "a.dna".to_string(),
            storage: StorageConfiguration::Memory,
            logger: LoggerConfiguration { logger_type: "DONTCARE".to_string(), file: None },
            network: Some("mock".to_string()),
        }
    );
    assert_eq!(config.instances[2].id, "alice::b.dna");
    assert!(config.interfaces.is_empty());
    assert!(config.bridges.is_empty());
    assert_eq!(config.check_consistency(), Ok(()));
}

#[test]
fn no_instances_make_an_empty_configuration() {
    let config = make_config(vec![], vec![], "mock");
    assert!(config.agents.is_empty());
    assert!(config.dnas.is_empty());
    assert!(config.instances.is_empty());
    assert_eq!(config.check_consistency(), Ok(()));
}

#[test]
fn first_inconsistency_is_reported() {
    let mut config: Configuration =
        make_config(vec![instance("alice", "a.dna")], vec!["k".to_string()], "mock");
    config.instances.push(InstanceConfiguration {
        id: "second".to_string(),
        agent: "alice".to_string(),
        dna: "missing.dna".to_string(),
        storage: StorageConfiguration::Memory,
        logger: LoggerConfiguration { logger_type: "debug".to_string(), file: None },
        network: None,
    });
    config.instances.push(InstanceConfiguration {
        id: "third".to_string(),
        agent: "nobody".to_string(),
        dna: "missing.dna".to_string(),
        storage: StorageConfiguration::File { path: "tmp".to_string() },
        logger: LoggerConfiguration { logger_type: "debug".to_string(), file: None },
        network: None,
    });
    assert_eq!(
        config.check_consistency(),
        Err("DNA configuration \"missing.dna\" not found, mentioned in instance \"second\""
            .to_string())
    );
    config.instances.remove(1);
    assert_eq!(
        config.check_consistency(),
        Err("Agent configuration nobody not found, mentioned in instance third".to_string())
    );
}

#[test]
fn inconsistent_configuration_does_not_boot() {
    let mut config = make_config(vec![instance("alice", "a.dna")], vec!["k".to_string()], "mock");
    config.agents.clear();
    assert_eq!(
        bootstrap_from_config(config),
        Err(HolochainError::ConfigError(
            "Agent configuration alice not found, mentioned in instance alice::a.dna".to_string()
        ))
    );
    let good = make_config(vec![instance("alice", "a.dna")], vec!["k".to_string()], "mock");
    let same = make_config(vec![instance("alice", "a.dna")], vec!["k".to_string()], "mock");
    assert_eq!(bootstrap_from_config(good), Ok(same));
}

#[test]
fn interfaces_and_bridges_name_configured_instances() {
    let mut config = make_config(
        vec![instance("alice", "a.dna"), instance("bob", "a.dna")],
        vec!["ka".to_string(), "kb".to_string()],
        "mock",
    );
    config.interfaces.push(InterfaceConfiguration {
        id: "ws".to_string(),
        driver: InterfaceDriver::Websocket { port: 8888 },
        instances: vec!["alice::a.dna".to_string(), "bob::a.dna".to_string()],
    });
    config.bridges.push(Bridge {
        caller_id: "alice::a.dna".to_string(),
        callee_id: "bob::a.dna".to_string(),
        handle: "friend".to_string(),
    });
    assert_eq!(config.check_consistency(), Ok(()));

    config.bridges.push(Bridge {
        caller_id: "alice::a.dna".to_string(),
        callee_id: "carol::a.dna".to_string(),
        handle: "stranger".to_string(),
    });
    assert_eq!(
        config.check_consistency(),
        Err("Instance configuration \"carol::a.dna\" not found, mentioned in bridge".to_string())
    );
    config.bridges[1].caller_id = "dave::a.dna".to_string();
    assert_eq!(
        config.check_consistency(),
        Err("Instance configuration \"dave::a.dna\" not found, mentioned in bridge".to_string())
    );
    // interfaces are looked at before bridges
    config.interfaces.push(InterfaceConfiguration {
        id: "http".to_string(),
        driver: InterfaceDriver::Http { port: 8080 },
        instances: vec!["alice::a.dna".to_string(), "erin::a.dna".to_string()],
    });
    assert_eq!(
        config.check_consistency(),
        Err("Instance configuration \"erin::a.dna\" not found, mentioned in interface"
            .to_string())
    );
    // and instances before interfaces
    config.dnas.clear();
    assert_eq!(
        config.check_consistency(),
        Err("DNA configuration \"a.dna\" not found, mentioned in instance \"alice::a.dna\""
            .to_string())
    );
}
