//! Configurations of a container: which agents run which DNAs as which
//! instances, and how a container configuration is made for a list of
//! instances to try things on.

use crate::error::{ErrorView, HolochainError};
use crate::model::seq_view;
use vstd::prelude::*;

verus! {

/// The agent of an instance to try things on.
#[derive(Debug, PartialEq, Eq)]
pub struct AgentData {
    pub name: String,
}

/// The DNA of an instance to try things on.
#[derive(Debug, PartialEq, Eq)]
pub struct DnaData {
    /// The path of the DNA's file.
    pub path: String,
}

/// An instance to try things on: an agent running a DNA.
#[derive(Debug, PartialEq, Eq)]
pub struct InstanceData {
    pub agent: AgentData,
    pub dna: DnaData,
}

/// The mathematical value of an `InstanceData`.
pub struct InstanceDataView {
    pub agent_name: Seq<char>,
    pub dna_path: Seq<char>,
}

impl View for InstanceData {
    type V = InstanceDataView;

    open spec fn view(&self) -> InstanceDataView {
        InstanceDataView { agent_name: self.agent.name@, dna_path: self.dna.path@ }
    }
}

/// An agent of a container.
#[derive(Debug, PartialEq, Eq)]
pub struct AgentConfiguration {
    pub id: String,
    pub name: String,
    pub public_address: String,
    pub key_file: String,
}

/// The mathematical value of an `AgentConfiguration`.
pub struct AgentConfigurationView {
    pub id: Seq<char>,
    pub name: Seq<char>,
    pub public_address: Seq<char>,
    pub key_file: Seq<char>,
}

impl View for AgentConfiguration {
    type V = AgentConfigurationView;

    open spec fn view(&self) -> AgentConfigurationView {
        AgentConfigurationView {
            id: self.id@,
            name: self.name@,
            public_address: self.public_address@,
            key_file: self.key_file@,
        }
    }
}

/// A DNA of a container.
#[derive(Debug, PartialEq, Eq)]
pub struct DnaConfiguration {
    pub id: String,
    pub file: String,
    pub hash: String,
}

/// The mathematical value of a `DnaConfiguration`.
pub struct DnaConfigurationView {
    pub id: Seq<char>,
    pub file: Seq<char>,
    pub hash: Seq<char>,
}

impl View for DnaConfiguration {
    type V = DnaConfigurationView;

    open spec fn view(&self) -> DnaConfigurationView {
        DnaConfigurationView { id: self.id@, file: self.file@, hash: self.hash@ }
    }
}

/// Where an instance keeps what it stores.
#[derive(Debug, PartialEq, Eq)]
pub enum StorageConfiguration {
    Memory,
    File { path: String },
}

/// The mathematical value of a `StorageConfiguration`.
pub enum StorageView {
    Memory,
    File(Seq<char>),
}

impl View for StorageConfiguration {
    type V = StorageView;

    open spec fn view(&self) -> StorageView {
        match self {
            StorageConfiguration::Memory => StorageView::Memory,
            StorageConfiguration::File { path } => StorageView::File(path@),
        }
    }
}

/// How an instance logs.
#[derive(Debug, PartialEq, Eq)]
pub struct LoggerConfiguration {
    pub logger_type: String,
    pub file: Option<String>,
}

/// An instance of a container: one agent running one DNA.
#[derive(Debug, PartialEq, Eq)]
pub struct InstanceConfiguration {
    pub id: String,
    pub agent: String,
    pub dna: String,
    pub storage: StorageConfiguration,
    pub logger: LoggerConfiguration,
    pub network: Option<String>,
}

/// The mathematical value of an `InstanceConfiguration`.
pub struct InstanceConfigurationView {
    pub id: Seq<char>,
    pub agent: Seq<char>,
    pub dna: Seq<char>,
    pub storage: StorageView,
    pub logger_type: Seq<char>,
    pub logger_file: Option<Seq<char>>,
    pub network: Option<Seq<char>>,
}

impl View for InstanceConfiguration {
    type V = InstanceConfigurationView;

    open spec fn view(&self) -> InstanceConfigurationView {
        InstanceConfigurationView {
            id: self.id@,
            agent: self.agent@,
            dna: self.dna@,
            storage: self.storage@,
            logger_type: self.logger.logger_type@,
            logger_file: crate::model::option_view(self.logger.file),
            network: crate::model::option_view(self.network),
        }
    }
}

/// How an interface is reached.
#[derive(Debug, Clone, Copy, PartialEq, Eq, Structural)]
pub enum InterfaceDriver {
    Websocket { port: u16 },
    Http { port: u16 },
}

/// A way into a container for the instances it names.
#[derive(Debug, PartialEq, Eq)]
pub struct InterfaceConfiguration {
    pub id: String,
    pub driver: InterfaceDriver,
    pub instances: Vec<String>,
}

/// The mathematical value of an `InterfaceConfiguration`.
pub struct InterfaceConfigurationView {
    pub id: Seq<char>,
    pub driver: InterfaceDriver,
    pub instances: Seq<Seq<char>>,
}

impl View for InterfaceConfiguration {
    type V = InterfaceConfigurationView;

    open spec fn view(&self) -> InterfaceConfigurationView {
        InterfaceConfigurationView {
            id: self.id@,
            driver: self.driver,
            instances: seq_view(self.instances@),
        }
    }
}

/// A way for one instance to call another, under a name that the caller
/// knows the callee by.
#[derive(Debug, PartialEq, Eq)]
pub struct Bridge {
    pub caller_id: String,
    pub callee_id: String,
    pub handle: String,
}

/// The mathematical value of a `Bridge`.
pub struct BridgeView {
    pub caller_id: Seq<char>,
    pub callee_id: Seq<char>,
    pub handle: Seq<char>,
}

impl View for Bridge {
    type V = BridgeView;

    open spec fn view(&self) -> BridgeView {
        BridgeView { caller_id: self.caller_id@, callee_id: self.callee_id@, handle: self.handle@ }
    }
}

/// A container's configuration.
#[derive(Debug, PartialEq, Eq)]
pub struct Configuration {
    pub agents: Vec<AgentConfiguration>,
    pub dnas: Vec<DnaConfiguration>,
    pub instances: Vec<InstanceConfiguration>,
    pub interfaces: Vec<InterfaceConfiguration>,
    pub bridges: Vec<Bridge>,
}

/// The mathematical value of a `Configuration`.
pub struct ConfigurationView {
    pub agents: Seq<AgentConfigurationView>,
    pub dnas: Seq<DnaConfigurationView>,
    pub instances: Seq<InstanceConfigurationView>,
    pub interfaces: Seq<InterfaceConfigurationView>,
    pub bridges: Seq<BridgeView>,
}

impl View for Configuration {
    type V = ConfigurationView;

    open spec fn view(&self) -> ConfigurationView {
        ConfigurationView {
            agents: seq_view(self.agents@),
            dnas: seq_view(self.dnas@),
            instances: seq_view(self.instances@),
            interfaces: seq_view(self.interfaces@),
            bridges: seq_view(self.bridges@),
        }
    }
}

/// The id of the instance in which an agent runs a DNA.
pub open spec fn instance_id_of(agent_id: Seq<char>, dna_id: Seq<char>) -> Seq<char> {
    agent_id + "::"@ + dna_id
}

/// The configuration of an agent to try things on.
pub open spec fn agent_for(name: Seq<char>, key: Seq<char>) -> AgentConfigurationView {
    AgentConfigurationView {
        id: name,
        name,
        public_address: key,
        key_file: "fake/key/"@ + name,
    }
}

/// The configuration of a DNA to try things on.
pub open spec fn dna_for(path: Seq<char>) -> DnaConfigurationView {
    DnaConfigurationView { id: path, file: path, hash: "DONTCARE"@ }
}

/// The configuration of an instance to try things on.
pub open spec fn instance_for(instance: InstanceDataView, network: Seq<char>)
    -> InstanceConfigurationView {
    InstanceConfigurationView {
        id: instance_id_of(instance.agent_name, instance.dna_path),
        agent: instance.agent_name,
        dna: instance.dna_path,
        storage: StorageView::Memory,
        logger_type: "DONTCARE"@,
        logger_file: None,
        network: Some(network),
    }
}

/// The configuration that is made for a list of instances to try things on:
/// its agents, its DNAs and its instances, and neither interfaces nor
/// bridges.
pub open spec fn made_config(
    instances: Seq<InstanceDataView>,
    keys: Seq<Seq<char>>,
    network: Seq<char>,
) -> ConfigurationView
    recommends
        keys.len() == instances.len(),
{
    ConfigurationView {
        agents: agents_for(instances, keys),
        dnas: dnas_for(instances),
        instances: Seq::new(instances.len(), |i: int| instance_for(instances[i], network)),
        interfaces: Seq::empty(),
        bridges: Seq::empty(),
    }
}

/// Whether one of the agents has this id.
pub open spec fn has_agent(agents: Seq<AgentConfigurationView>, id: Seq<char>) -> bool {
    exists|i: int| 0 <= i < agents.len() && (#[trigger] agents[i]).id == id
}

/// Whether one of the DNAs has this id.
pub open spec fn has_dna(dnas: Seq<DnaConfigurationView>, id: Seq<char>) -> bool {
    exists|i: int| 0 <= i < dnas.len() && (#[trigger] dnas[i]).id == id
}

/// The agents of the instances, each once, in the order in which the
/// instances first name them, each with the key that stands beside the first
/// instance that names it.
pub open spec fn agents_for(instances: Seq<InstanceDataView>, keys: Seq<Seq<char>>) -> Seq<
    AgentConfigurationView,
>
    recommends
        keys.len() == instances.len(),
    decreases instances.len(),
{
    if instances.len() == 0 {
        Seq::empty()
    } else {
        let earlier = agents_for(instances.drop_last(), keys.drop_last());
        if has_agent(earlier, instances.last().agent_name) {
            earlier
        } else {
            earlier.push(agent_for(instances.last().agent_name, keys.last()))
        }
    }
}

/// The DNAs of the instances, each once, in the order in which the instances
/// first name them.
pub open spec fn dnas_for(instances: Seq<InstanceDataView>) -> Seq<DnaConfigurationView>
    decreases instances.len(),
{
    if instances.len() == 0 {
        Seq::empty()
    } else {
        let earlier = dnas_for(instances.drop_last());
        if has_dna(earlier, instances.last().dna_path) {
            earlier
        } else {
            earlier.push(dna_for(instances.last().dna_path))
        }
    }
}

/// The id of the instance in which an agent runs a DNA.
pub fn instance_id(agent_id: &str, dna_id: &str) -> (id: String)
    ensures
        id@ == instance_id_of(agent_id@, dna_id@),
{
    let mut id = String::from_str(agent_id);
    id.append("::");
    id.append(dna_id);
    id
}

/// The configuration of a DNA to try things on: its path stands for its id
/// and its file, and nothing is known of its hash.
pub fn make_dna_config(dna: DnaData) -> (made: Result<DnaConfiguration, String>)
    ensures
        made matches Ok(config) && config@ == dna_for(dna.path@),
{
    let path = dna.path;
    Ok(DnaConfiguration { id: path.clone(), hash: String::from_str("DONTCARE"), file: path })
}

/// Whether one of the agents has this id.
fn find_agent(agents: &Vec<AgentConfiguration>, id: &String) -> (found: bool)
    ensures
        found == has_agent(seq_view(agents@), id@),
{
    let mut index: usize = 0;
    while index < agents.len()
        invariant
            index <= agents.len(),
            forall|i: int| 0 <= i < index ==> (#[trigger] seq_view(agents@)[i]).id != id@,
        decreases agents.len() - index,
    {
        if agents[index].id == *id {
            assert(seq_view(agents@)[index as int].id == id@);
            return true;
        }
        index += 1;
    }
    false
}

/// Whether one of the DNAs has this id.
fn find_dna(dnas: &Vec<DnaConfiguration>, id: &String) -> (found: bool)
    ensures
        found == has_dna(seq_view(dnas@), id@),
{
    let mut index: usize = 0;
    while index < dnas.len()
        invariant
            index <= dnas.len(),
            forall|i: int| 0 <= i < index ==> (#[trigger] seq_view(dnas@)[i]).id != id@,
        decreases dnas.len() - index,
    {
        if dnas[index].id == *id {
            assert(seq_view(dnas@)[index as int].id == id@);
            return true;
        }
        index += 1;
    }
    false
}

/// The container configuration for a list of instances to try things on.
/// Every instance keeps its storage in memory and joins the network that
/// `network` configures. `agent_keys` holds, beside each instance, the public
/// address of its agent. An agent or a DNA that several instances name is
/// configured once.
pub fn make_config(instance_data: Vec<InstanceData>, agent_keys: Vec<String>, network: &str) -> (config:
    Configuration)
    requires
        agent_keys.len() == instance_data.len(),
    ensures
        config@ == made_config(seq_view(instance_data@), seq_view(agent_keys@), network@),
{
    let ghost instances = seq_view(instance_data@);
    let ghost keys = seq_view(agent_keys@);
    let mut agent_configs: Vec<AgentConfiguration> = Vec::new();
    let mut dna_configs: Vec<DnaConfiguration> = Vec::new();
    let mut instance_configs: Vec<InstanceConfiguration> = Vec::new();
    let mut index: usize = 0;
    assert(instances.take(0) =~= Seq::<InstanceDataView>::empty());
    assert(keys.take(0) =~= Seq::<Seq<char>>::empty());
    assert(seq_view(agent_configs@) =~= agents_for(instances.take(0), keys.take(0)));
    assert(seq_view(dna_configs@) =~= dnas_for(instances.take(0)));
    while index < instance_data.len()
        invariant
            index <= instance_data.len(),
            agent_keys.len() == instance_data.len(),
            instances == seq_view(instance_data@),
            keys == seq_view(agent_keys@),
            seq_view(agent_configs@) == agents_for(
                instances.take(index as int),
                keys.take(index as int),
            ),
            seq_view(dna_configs@) == dnas_for(instances.take(index as int)),
            instance_configs.len() == index,
            forall|i: int|
                0 <= i < index ==> (#[trigger] instance_configs@[i])@ == instance_for(
                    instances[i],
                    network@,
                ),
        decreases instance_data.len() - index,
    {
        proof {
            assert(instances.take(index + 1).drop_last() =~= instances.take(index as int));
            assert(keys.take(index + 1).drop_last() =~= keys.take(index as int));
            assert(instances.take(index + 1).last() == instances[index as int]);
            assert(keys.take(index + 1).last() == keys[index as int]);
        }
        let instance = &instance_data[index];
        let agent_name = instance.agent.name.clone();
        let dna_path = instance.dna.path.clone();
        if !find_agent(&agent_configs, &agent_name) {
            let mut key_file = String::from_str("fake/key/");
            key_file.append(agent_name.as_str());
            let agent_config = AgentConfiguration {
                id: agent_name.clone(),
                name: agent_name.clone(),
                public_address: agent_keys[index].clone(),
                key_file,
            };
            proof {
                crate::model::seq_view_push(agent_configs@, agent_config);
            }
            agent_configs.push(agent_config);
        }
        if !find_dna(&dna_configs, &dna_path) {
            let dna_config = DnaConfiguration {
                id: dna_path.clone(),
                hash: String::from_str("DONTCARE"),
                file: dna_path.clone(),
            };
            proof {
                crate::model::seq_view_push(dna_configs@, dna_config);
            }
            dna_configs.push(dna_config);
        }
        let instance_config = InstanceConfiguration {
            id: instance_id(agent_name.as_str(), dna_path.as_str()),
            agent: agent_name,
            dna: dna_path,
            storage: StorageConfiguration::Memory,
            logger: LoggerConfiguration { logger_type: String::from_str("DONTCARE"), file: None },
            network: Some(String::from_str(network)),
        };
        instance_configs.push(instance_config);
        index += 1;
    }
    assert(instances.take(index as int) =~= instances);
    assert(keys.take(index as int) =~= keys);
    let config = Configuration {
        agents: agent_configs,
        dnas: dna_configs,
        instances: instance_configs,
        interfaces: Vec::new(),
        bridges: Vec::new(),
    };
    proof {
        let made = made_config(instances, keys, network@);
        assert(config@.instances =~= made.instances);
        assert(config@.interfaces =~= made.interfaces);
        assert(config@.bridges =~= made.bridges);
    }
    config
}

/// What is wrong with an instance among these agents and DNAs, if anything:
/// its agent is looked for first, then its DNA.
pub open spec fn instance_fault(
    agents: Seq<AgentConfigurationView>,
    dnas: Seq<DnaConfigurationView>,
    instance: InstanceConfigurationView,
) -> Option<Seq<char>> {
    if !has_agent(agents, instance.agent) {
        Some(
            "Agent configuration "@ + instance.agent + " not found, mentioned in instance "@
                + instance.id,
        )
    } else if !has_dna(dnas, instance.dna) {
        Some(
            "DNA configuration \""@ + instance.dna + "\" not found, mentioned in instance \""@
                + instance.id + "\""@,
        )
    } else {
        None
    }
}

/// What is wrong with the first instance with which anything is wrong.
pub open spec fn first_fault(
    agents: Seq<AgentConfigurationView>,
    dnas: Seq<DnaConfigurationView>,
    instances: Seq<InstanceConfigurationView>,
) -> Option<Seq<char>>
    decreases instances.len(),
{
    if instances.len() == 0 {
        None
    } else {
        match instance_fault(agents, dnas, instances[0]) {
            Some(fault) => Some(fault),
            None => first_fault(agents, dnas, instances.skip(1)),
        }
    }
}

/// Whether one of the instances has this id.
pub open spec fn has_instance(instances: Seq<InstanceConfigurationView>, id: Seq<char>) -> bool {
    exists|i: int| 0 <= i < instances.len() && (#[trigger] instances[i]).id == id
}

/// The first of the ids that is no instance's, if there is one.
pub open spec fn first_missing(instances: Seq<InstanceConfigurationView>, ids: Seq<Seq<char>>)
    -> Option<Seq<char>>
    decreases ids.len(),
{
    if ids.len() == 0 {
        None
    } else if !has_instance(instances, ids[0]) {
        Some(ids[0])
    } else {
        first_missing(instances, ids.skip(1))
    }
}

/// The message for an instance that is named in a place and not configured.
pub open spec fn missing_instance_message(id: Seq<char>, place: Seq<char>) -> Seq<char> {
    "Instance configuration \""@ + id + "\" not found, mentioned in "@ + place
}

/// What is wrong with the first interface that names an instance that the
/// configuration does not have.
pub open spec fn interfaces_fault(
    instances: Seq<InstanceConfigurationView>,
    interfaces: Seq<InterfaceConfigurationView>,
) -> Option<Seq<char>>
    decreases interfaces.len(),
{
    if interfaces.len() == 0 {
        None
    } else {
        match first_missing(instances, interfaces[0].instances) {
            Some(id) => Some(missing_instance_message(id, "interface"@)),
            None => interfaces_fault(instances, interfaces.skip(1)),
        }
    }
}

/// What is wrong with a bridge, if anything: its caller is looked for first,
/// then its callee.
pub open spec fn bridge_fault(instances: Seq<InstanceConfigurationView>, bridge: BridgeView)
    -> Option<Seq<char>> {
    if !has_instance(instances, bridge.caller_id) {
        Some(missing_instance_message(bridge.caller_id, "bridge"@))
    } else if !has_instance(instances, bridge.callee_id) {
        Some(missing_instance_message(bridge.callee_id, "bridge"@))
    } else {
        None
    }
}

/// What is wrong with the first bridge with which anything is wrong.
pub open spec fn bridges_fault(
    instances: Seq<InstanceConfigurationView>,
    bridges: Seq<BridgeView>,
) -> Option<Seq<char>>
    decreases bridges.len(),
{
    if bridges.len() == 0 {
        None
    } else {
        match bridge_fault(instances, bridges[0]) {
            Some(fault) => Some(fault),
            None => bridges_fault(instances, bridges.skip(1)),
        }
    }
}

impl ConfigurationView {
    /// What is wrong with the configuration, if anything: the instances are
    /// looked at first, then the interfaces, then the bridges.
    pub open spec fn fault(self) -> Option<Seq<char>> {
        match first_fault(self.agents, self.dnas, self.instances) {
            Some(fault) => Some(fault),
            None => match interfaces_fault(self.instances, self.interfaces) {
                Some(fault) => Some(fault),
                None => bridges_fault(self.instances, self.bridges),
            },
        }
    }
}

/// Whether one of the instances has this id.
fn find_instance(instances: &Vec<InstanceConfiguration>, id: &String) -> (found: bool)
    ensures
        found == has_instance(seq_view(instances@), id@),
{
    let mut index: usize = 0;
    while index < instances.len()
        invariant
            index <= instances.len(),
            forall|i: int| 0 <= i < index ==> (#[trigger] seq_view(instances@)[i]).id != id@,
        decreases instances.len() - index,
    {
        if instances[index].id == *id {
            assert(seq_view(instances@)[index as int].id == id@);
            return true;
        }
        index += 1;
    }
    false
}

/// The message for an instance that is named and not configured.
fn missing_instance(id: &String, place: &str) -> (reason: String)
    ensures
        reason@ == missing_instance_message(id@, place@),
{
    let mut reason = String::from_str("Instance configuration \"");
    reason.append(id.as_str());
    reason.append("\" not found, mentioned in ");
    reason.append(place);
    reason
}

impl Configuration {
    /// Checks that every instance names an agent and a DNA of the
    /// configuration.
    fn check_instances(&self) -> (checked: Result<(), String>)
        ensures
            match first_fault(self@.agents, self@.dnas, self@.instances) {
                None => checked is Ok,
                Some(fault) => checked matches Err(reason) && reason@ == fault,
            },
    {
        let ghost agents = seq_view(self.agents@);
        let ghost dnas = seq_view(self.dnas@);
        let ghost instances = seq_view(self.instances@);
        let mut index: usize = 0;
        assert(instances.skip(0) =~= instances);
        while index < self.instances.len()
            invariant
                index <= self.instances.len(),
                agents == seq_view(self.agents@),
                dnas == seq_view(self.dnas@),
                instances == seq_view(self.instances@),
                first_fault(agents, dnas, instances) == first_fault(
                    agents,
                    dnas,
                    instances.skip(index as int),
                ),
            decreases self.instances.len() - index,
        {
            let instance = &self.instances[index];
            proof {
                assert(instances.skip(index as int)[0] == instance@);
                assert(instances.skip(index as int).skip(1) =~= instances.skip(index + 1));
            }
            if !find_agent(&self.agents, &instance.agent) {
                let mut reason = String::from_str("Agent configuration ");
                reason.append(instance.agent.as_str());
                reason.append(" not found, mentioned in instance ");
                reason.append(instance.id.as_str());
                return Err(reason);
            }
            if !find_dna(&self.dnas, &instance.dna) {
                let mut reason = String::from_str("DNA configuration \"");
                reason.append(instance.dna.as_str());
                reason.append("\" not found, mentioned in instance \"");
                reason.append(instance.id.as_str());
                reason.append("\"");
                return Err(reason);
            }
            index += 1;
        }
        Ok(())
    }

    /// The first of the ids that is no instance's, if there is one.
    fn first_missing_instance<'a>(&self, ids: &'a Vec<String>) -> (missing: Option<&'a String>)
        ensures
            match missing {
                Some(id) => first_missing(self@.instances, seq_view(ids@)) == Some(id@),
                None => first_missing(self@.instances, seq_view(ids@)) is None,
            },
    {
        let ghost wanted = seq_view(ids@);
        let mut index: usize = 0;
        assert(wanted.skip(0) =~= wanted);
        while index < ids.len()
            invariant
                index <= ids.len(),
                wanted == seq_view(ids@),
                first_missing(self@.instances, wanted) == first_missing(
                    self@.instances,
                    wanted.skip(index as int),
                ),
            decreases ids.len() - index,
        {
            proof {
                assert(wanted.skip(index as int)[0] == ids@[index as int]@);
                assert(wanted.skip(index as int).skip(1) =~= wanted.skip(index + 1));
            }
            if !find_instance(&self.instances, &ids[index]) {
                return Some(&ids[index]);
            }
            index += 1;
        }
        None
    }

    /// Checks that every interface names instances of the configuration.
    fn check_interfaces(&self) -> (checked: Result<(), String>)
        ensures
            match interfaces_fault(self@.instances, self@.interfaces) {
                None => checked is Ok,
                Some(fault) => checked matches Err(reason) && reason@ == fault,
            },
    {
        let ghost interfaces = seq_view(self.interfaces@);
        let mut index: usize = 0;
        assert(interfaces.skip(0) =~= interfaces);
        while index < self.interfaces.len()
            invariant
                index <= self.interfaces.len(),
                interfaces == seq_view(self.interfaces@),
                interfaces_fault(self@.instances, interfaces) == interfaces_fault(
                    self@.instances,
                    interfaces.skip(index as int),
                ),
            decreases self.interfaces.len() - index,
        {
            let interface = &self.interfaces[index];
            proof {
                assert(interfaces.skip(index as int)[0] == interface@);
                assert(interfaces.skip(index as int).skip(1) =~= interfaces.skip(index + 1));
            }
            match self.first_missing_instance(&interface.instances) {
                Some(id) => {
                    return Err(missing_instance(id, "interface"));
                },
                None => {},
            }
            index += 1;
        }
        Ok(())
    }

    /// Checks that every bridge joins instances of the configuration.
    fn check_bridges(&self) -> (checked: Result<(), String>)
        ensures
            match bridges_fault(self@.instances, self@.bridges) {
                None => checked is Ok,
                Some(fault) => checked matches Err(reason) && reason@ == fault,
            },
    {
        let ghost bridges = seq_view(self.bridges@);
        let mut index: usize = 0;
        assert(bridges.skip(0) =~= bridges);
        while index < self.bridges.len()
            invariant
                index <= self.bridges.len(),
                bridges == seq_view(self.bridges@),
                bridges_fault(self@.instances, bridges) == bridges_fault(
                    self@.instances,
                    bridges.skip(index as int),
                ),
            decreases self.bridges.len() - index,
        {
            let bridge = &self.bridges[index];
            proof {
                assert(bridges.skip(index as int)[0] == bridge@);
                assert(bridges.skip(index as int).skip(1) =~= bridges.skip(index + 1));
            }
            if !find_instance(&self.instances, &bridge.caller_id) {
                return Err(missing_instance(&bridge.caller_id, "bridge"));
            }
            if !find_instance(&self.instances, &bridge.callee_id) {
                return Err(missing_instance(&bridge.callee_id, "bridge"));
            }
            index += 1;
        }
        Ok(())
    }

    /// Checks that every instance names an agent and a DNA of the
    /// configuration, and that every interface and every bridge names
    /// instances of it, and says what is wrong with the first that does not.
    pub fn check_consistency(&self) -> (checked: Result<(), String>)
        ensures
            match self@.fault() {
                None => checked is Ok,
                Some(fault) => checked matches Err(reason) && reason@ == fault,
            },
    {
        match self.check_instances() {
            Err(reason) => Err(reason),
            Ok(()) => match self.check_interfaces() {
                Err(reason) => Err(reason),
                Ok(()) => self.check_bridges(),
            },
        }
    }
}

/// Accepts a configuration that was loaded for a container to boot from, or
/// refuses it for the first thing that is wrong with it.
pub fn bootstrap_from_config(config: Configuration) -> (checked: Result<
    Configuration,
    HolochainError,
>)
    ensures
        match config@.fault() {
            None => checked matches Ok(accepted) && accepted == config,
            Some(fault) => checked matches Err(error) && error@ == ErrorView::Config(fault),
        },
{
    match config.check_consistency() {
        Ok(()) => Ok(config),
        Err(reason) => Err(HolochainError::ConfigError(reason)),
    }
}

/// Every instance finds its agent among the agents made for the instances.
proof fn lemma_agents_cover(instances: Seq<InstanceDataView>, keys: Seq<Seq<char>>, i: int)
    requires
        0 <= i < instances.len(),
    ensures
        has_agent(agents_for(instances, keys), instances[i].agent_name),
    decreases instances.len(),
{
    let earlier = agents_for(instances.drop_last(), keys.drop_last());
    let made = agents_for(instances, keys);
    if i < instances.len() - 1 {
        lemma_agents_cover(instances.drop_last(), keys.drop_last(), i);
        let j = choose|j: int|
            0 <= j < earlier.len() && (#[trigger] earlier[j]).id == instances[i].agent_name;
        assert(made[j].id == instances[i].agent_name);
    } else if has_agent(earlier, instances.last().agent_name) {
    } else {
        assert(made[made.len() - 1].id == instances[i].agent_name);
    }
}

/// Every instance finds its DNA among the DNAs made for the instances.
proof fn lemma_dnas_cover(instances: Seq<InstanceDataView>, i: int)
    requires
        0 <= i < instances.len(),
    ensures
        has_dna(dnas_for(instances), instances[i].dna_path),
    decreases instances.len(),
{
    let earlier = dnas_for(instances.drop_last());
    let made = dnas_for(instances);
    if i < instances.len() - 1 {
        lemma_dnas_cover(instances.drop_last(), i);
        let j = choose|j: int|
            0 <= j < earlier.len() && (#[trigger] earlier[j]).id == instances[i].dna_path;
        assert(made[j].id == instances[i].dna_path);
    } else if has_dna(earlier, instances.last().dna_path) {
    } else {
        assert(made[made.len() - 1].id == instances[i].dna_path);
    }
}

/// Where nothing is wrong with any instance, nothing is wrong with the first.
proof fn lemma_no_fault(
    agents: Seq<AgentConfigurationView>,
    dnas: Seq<DnaConfigurationView>,
    instances: Seq<InstanceConfigurationView>,
)
    requires
        forall|i: int|
            0 <= i < instances.len() ==> instance_fault(agents, dnas, #[trigger] instances[i])
                is None,
    ensures
        first_fault(agents, dnas, instances) is None,
    decreases instances.len(),
{
    if instances.len() > 0 {
        assert(instance_fault(agents, dnas, instances[0]) is None);
        assert forall|i: int| 0 <= i < instances.skip(1).len() implies instance_fault(
            agents,
            dnas,
            #[trigger] instances.skip(1)[i],
        ) is None by {
            assert(instances.skip(1)[i] == instances[i + 1]);
        }
        lemma_no_fault(agents, dnas, instances.skip(1));
    }
}

/// The configuration that is made for a list of instances is consistent:
/// each of its instances names an agent and a DNA that it configures, and it
/// has no interface and no bridge that could name anything else.
pub proof fn lemma_made_config_is_consistent(
    instances: Seq<InstanceDataView>,
    keys: Seq<Seq<char>>,
    network: Seq<char>,
)
    ensures
        made_config(instances, keys, network).fault() is None,
{
    let made = made_config(instances, keys, network).instances;
    assert forall|i: int| 0 <= i < made.len() implies instance_fault(
        agents_for(instances, keys),
        dnas_for(instances),
        #[trigger] made[i],
    ) is None by {
        lemma_agents_cover(instances, keys, i);
        lemma_dnas_cover(instances, i);
    }
    lemma_no_fault(agents_for(instances, keys), dnas_for(instances), made);
}

} // verus!
