//! Entries: what an agent commits to its chain.

use crate::hash::{content_address, Address};
use crate::json::{json_string, quote, Content};
use vstd::prelude::*;

verus! {

/// The kind of an entry: one that the application declares, or one of the
/// system's own.
#[derive(Debug, PartialEq, Eq, Hash)]
pub enum EntryType {
    App(String),
    Dna,
    AgentId,
    Delete,
    LinkAdd,
    LinkRemove,
    LinkList,
    ChainHeader,
    ChainMigrate,
}

/// The mathematical value of an `EntryType`.
pub enum EntryTypeView {
    App(Seq<char>),
    Dna,
    AgentId,
    Delete,
    LinkAdd,
    LinkRemove,
    LinkList,
    ChainHeader,
    ChainMigrate,
}

impl EntryTypeView {
    /// Only the DNA entry stays with its agent; every other kind is published.
    pub open spec fn can_publish(self) -> bool {
        !(self is Dna)
    }

    /// The kind as a developer reads it in a message: the variant's name, and
    /// for an application's kind its name in brackets.
    pub open spec fn debug(self) -> Seq<char> {
        match self {
            EntryTypeView::App(name) => "App("@ + str_debug(name) + ")"@,
            EntryTypeView::Dna => "Dna"@,
            EntryTypeView::AgentId => "AgentId"@,
            EntryTypeView::Delete => "Delete"@,
            EntryTypeView::LinkAdd => "LinkAdd"@,
            EntryTypeView::LinkRemove => "LinkRemove"@,
            EntryTypeView::LinkList => "LinkList"@,
            EntryTypeView::ChainHeader => "ChainHeader"@,
            EntryTypeView::ChainMigrate => "ChainMigrate"@,
        }
    }

    /// The name under which the kind is written down.
    pub open spec fn name(self) -> Seq<char> {
        match self {
            EntryTypeView::App(name) => name,
            EntryTypeView::Dna => "%dna"@,
            EntryTypeView::AgentId => "%agent_id"@,
            EntryTypeView::Delete => "%delete"@,
            EntryTypeView::LinkAdd => "%link_add"@,
            EntryTypeView::LinkRemove => "%link_remove"@,
            EntryTypeView::LinkList => "%link_list"@,
            EntryTypeView::ChainHeader => "%chain_header"@,
            EntryTypeView::ChainMigrate => "%chain_migrate"@,
        }
    }
}

/// The text that std's `Debug` writes for a string slice: the text between
/// double quotes, with what needs it escaped.
pub uninterp spec fn str_debug(text: Seq<char>) -> Seq<char>;

/// Formats a string slice with std's `Debug`. Trusted: the outcome is the
/// same for the same text.
#[verifier::external_body]
fn debug_str(text: &str) -> (written: String)
    ensures
        written@ == str_debug(text@),
{
    format!("{:?}", text)
}

impl View for EntryType {
    type V = EntryTypeView;

    open spec fn view(&self) -> EntryTypeView {
        match self {
            EntryType::App(name) => EntryTypeView::App(name@),
            EntryType::Dna => EntryTypeView::Dna,
            EntryType::AgentId => EntryTypeView::AgentId,
            EntryType::Delete => EntryTypeView::Delete,
            EntryType::LinkAdd => EntryTypeView::LinkAdd,
            EntryType::LinkRemove => EntryTypeView::LinkRemove,
            EntryType::LinkList => EntryTypeView::LinkList,
            EntryType::ChainHeader => EntryTypeView::ChainHeader,
            EntryType::ChainMigrate => EntryTypeView::ChainMigrate,
        }
    }
}

impl Clone for EntryType {
    fn clone(&self) -> (copy: Self)
        ensures
            copy == *self,
    {
        match self {
            EntryType::App(name) => EntryType::App(name.clone()),
            EntryType::Dna => EntryType::Dna,
            EntryType::AgentId => EntryType::AgentId,
            EntryType::Delete => EntryType::Delete,
            EntryType::LinkAdd => EntryType::LinkAdd,
            EntryType::LinkRemove => EntryType::LinkRemove,
            EntryType::LinkList => EntryType::LinkList,
            EntryType::ChainHeader => EntryType::ChainHeader,
            EntryType::ChainMigrate => EntryType::ChainMigrate,
        }
    }
}

impl EntryType {
    /// Whether the application declares this kind.
    pub fn is_app(&self) -> (app: bool)
        ensures
            app == (self@ is App),
    {
        match self {
            EntryType::App(_) => true,
            _ => false,
        }
    }

    /// Whether this kind is one of the system's own.
    pub fn is_sys(&self) -> (sys: bool)
        ensures
            sys == !(self@ is App),
    {
        !self.is_app()
    }

    /// Whether entries of this kind leave the agent's own chain.
    pub fn can_publish(&self) -> (publishable: bool)
        ensures
            publishable == self@.can_publish(),
    {
        match self {
            EntryType::Dna => false,
            _ => true,
        }
    }

    /// The name of the kind.
    pub fn as_str(&self) -> (name: String)
        ensures
            name@ == self@.name(),
    {
        match self {
            EntryType::App(name) => name.clone(),
            EntryType::Dna => String::from_str("%dna"),
            EntryType::AgentId => String::from_str("%agent_id"),
            EntryType::Delete => String::from_str("%delete"),
            EntryType::LinkAdd => String::from_str("%link_add"),
            EntryType::LinkRemove => String::from_str("%link_remove"),
            EntryType::LinkList => String::from_str("%link_list"),
            EntryType::ChainHeader => String::from_str("%chain_header"),
            EntryType::ChainMigrate => String::from_str("%chain_migrate"),
        }
    }

    /// The kind as a developer reads it in a message.
    pub fn debug(&self) -> (text: String)
        ensures
            text@ == self@.debug(),
    {
        match self {
            EntryType::App(name) => {
                let mut text = String::from_str("App(");
                text.append(debug_str(name.as_str()).as_str());
                text.append(")");
                text
            },
            EntryType::Dna => String::from_str("Dna"),
            EntryType::AgentId => String::from_str("AgentId"),
            EntryType::Delete => String::from_str("Delete"),
            EntryType::LinkAdd => String::from_str("LinkAdd"),
            EntryType::LinkRemove => String::from_str("LinkRemove"),
            EntryType::LinkList => String::from_str("LinkList"),
            EntryType::ChainHeader => String::from_str("ChainHeader"),
            EntryType::ChainMigrate => String::from_str("ChainMigrate"),
        }
    }

    /// Whether both are the same kind.
    pub fn same(&self, other: &EntryType) -> (equal: bool)
        ensures
            equal == (self@ == other@),
    {
        match self {
            EntryType::App(name) => match other {
                EntryType::App(other_name) => *name == *other_name,
                _ => false,
            },
            EntryType::Dna => matches!(other, EntryType::Dna),
            EntryType::AgentId => matches!(other, EntryType::AgentId),
            EntryType::Delete => matches!(other, EntryType::Delete),
            EntryType::LinkAdd => matches!(other, EntryType::LinkAdd),
            EntryType::LinkRemove => matches!(other, EntryType::LinkRemove),
            EntryType::LinkList => matches!(other, EntryType::LinkList),
            EntryType::ChainHeader => matches!(other, EntryType::ChainHeader),
            EntryType::ChainMigrate => matches!(other, EntryType::ChainMigrate),
        }
    }
}

/// A directed, tagged relation from one address to another.
#[derive(Debug, PartialEq, Eq, Hash)]
pub struct Link {
    pub base: Address,
    pub target: Address,
    pub tag: String,
}

/// The mathematical value of a `Link`.
pub struct LinkView {
    pub base: Seq<char>,
    pub target: Seq<char>,
    pub tag: Seq<char>,
}

impl View for Link {
    type V = LinkView;

    open spec fn view(&self) -> LinkView {
        LinkView { base: self.base@, target: self.target@, tag: self.tag@ }
    }
}

impl Clone for Link {
    fn clone(&self) -> (copy: Self)
        ensures
            copy == *self,
    {
        Link { base: self.base.clone(), target: self.target.clone(), tag: self.tag.clone() }
    }
}

impl Link {
    pub fn new(base: &Address, target: &Address, tag: &str) -> (link: Link)
        ensures
            link@ == (LinkView { base: base@, target: target@, tag: tag@ }),
    {
        Link { base: base.clone(), target: target.clone(), tag: String::from_str(tag) }
    }

    pub fn base(&self) -> (base: &Address)
        ensures
            base == self.base,
    {
        &self.base
    }

    pub fn target(&self) -> (target: &Address)
        ensures
            target == self.target,
    {
        &self.target
    }

    pub fn tag(&self) -> (tag: &String)
        ensures
            tag == self.tag,
    {
        &self.tag
    }
}

/// The payload of an entry that adds a link.
#[derive(Debug, PartialEq, Eq, Hash)]
pub struct LinkAdd {
    pub link: Link,
}

impl View for LinkAdd {
    type V = LinkView;

    open spec fn view(&self) -> LinkView {
        self.link@
    }
}

impl Clone for LinkAdd {
    fn clone(&self) -> (copy: Self)
        ensures
            copy == *self,
    {
        LinkAdd { link: self.link.clone() }
    }
}

impl LinkAdd {
    pub fn new(base: &Address, target: &Address, tag: &str) -> (link_add: LinkAdd)
        ensures
            link_add@ == (LinkView { base: base@, target: target@, tag: tag@ }),
    {
        LinkAdd { link: Link::new(base, target, tag) }
    }

    pub fn link(&self) -> (link: &Link)
        ensures
            link == self.link,
    {
        &self.link
    }
}

/// Something committed to a chain.
#[derive(Debug, PartialEq, Eq, Hash)]
pub enum Entry {
    /// An entry of a kind that the application declares, with its value.
    App(String, Content),
    /// The application's DNA.
    Dna(Content),
    /// The agent's identity.
    AgentId(Content),
    /// A link to be added to the base's metadata.
    LinkAdd(LinkAdd),
}

/// The mathematical value of an `Entry`.
pub enum EntryView {
    App(Seq<char>, Seq<char>),
    Dna(Seq<char>),
    AgentId(Seq<char>),
    LinkAdd(LinkView),
}

/// The serialized form of a link.
pub open spec fn link_content(link: LinkView) -> Seq<char> {
    "{\"base\":"@ + json_string(link.base) + ",\"tag\":"@ + json_string(link.tag)
        + ",\"target\":"@ + json_string(link.target) + "}"@
}

impl EntryView {
    /// The kind of the entry.
    pub open spec fn entry_type(self) -> EntryTypeView {
        match self {
            EntryView::App(name, _) => EntryTypeView::App(name),
            EntryView::Dna(_) => EntryTypeView::Dna,
            EntryView::AgentId(_) => EntryTypeView::AgentId,
            EntryView::LinkAdd(_) => EntryTypeView::LinkAdd,
        }
    }

    /// The value of the entry as text.
    pub open spec fn value(self) -> Seq<char> {
        match self {
            EntryView::App(_, value) => value,
            EntryView::Dna(value) => value,
            EntryView::AgentId(value) => value,
            EntryView::LinkAdd(link) => link_content(link),
        }
    }

    /// The serialized form of the entry: its kind's name and its value.
    pub open spec fn content(self) -> Seq<char> {
        "{\"entry_type\":"@ + json_string(self.entry_type().name()) + ",\"value\":"@
            + json_string(self.value()) + "}"@
    }

    /// The address of the entry: that of its serialized form.
    pub open spec fn address(self) -> Seq<char> {
        content_address(self.content())
    }
}

impl View for Entry {
    type V = EntryView;

    open spec fn view(&self) -> EntryView {
        match self {
            Entry::App(name, value) => EntryView::App(name@, value@),
            Entry::Dna(value) => EntryView::Dna(value@),
            Entry::AgentId(value) => EntryView::AgentId(value@),
            Entry::LinkAdd(link_add) => EntryView::LinkAdd(link_add@),
        }
    }
}

impl Clone for Entry {
    fn clone(&self) -> (copy: Self)
        ensures
            copy == *self,
    {
        match self {
            Entry::App(name, value) => Entry::App(name.clone(), value.clone()),
            Entry::Dna(value) => Entry::Dna(value.clone()),
            Entry::AgentId(value) => Entry::AgentId(value.clone()),
            Entry::LinkAdd(link_add) => Entry::LinkAdd(link_add.clone()),
        }
    }
}

/// The serialized form of a link.
pub fn serialize_link(link: &Link) -> (content: Content)
    ensures
        content@ == link_content(link@),
{
    let mut content = String::from_str("{\"base\":");
    content.append(quote(link.base.hash.as_str()).as_str());
    content.append(",\"tag\":");
    content.append(quote(link.tag.as_str()).as_str());
    content.append(",\"target\":");
    content.append(quote(link.target.hash.as_str()).as_str());
    content.append("}");
    content
}

impl Entry {
    /// An entry of the application's kind `name` with the given value.
    pub fn new(entry_type: &EntryType, value: &str) -> (entry: Entry)
        requires
            entry_type@ is App,
        ensures
            entry@ == EntryView::App(entry_type@->App_0, value@),
    {
        match entry_type {
            EntryType::App(name) => Entry::App(name.clone(), String::from_str(value)),
            _ => unreached(),
        }
    }

    /// The kind of the entry.
    pub fn entry_type(&self) -> (entry_type: EntryType)
        ensures
            entry_type@ == self@.entry_type(),
    {
        match self {
            Entry::App(name, _) => EntryType::App(name.clone()),
            Entry::Dna(_) => EntryType::Dna,
            Entry::AgentId(_) => EntryType::AgentId,
            Entry::LinkAdd(_) => EntryType::LinkAdd,
        }
    }

    /// The value of the entry as text.
    pub fn value(&self) -> (value: Content)
        ensures
            value@ == self@.value(),
    {
        match self {
            Entry::App(_, value) => value.clone(),
            Entry::Dna(value) => value.clone(),
            Entry::AgentId(value) => value.clone(),
            Entry::LinkAdd(link_add) => serialize_link(&link_add.link),
        }
    }

    /// The serialized form of the entry.
    pub fn content(&self) -> (content: Content)
        ensures
            content@ == self@.content(),
    {
        let mut content = String::from_str("{\"entry_type\":");
        content.append(quote(self.entry_type().as_str().as_str()).as_str());
        content.append(",\"value\":");
        content.append(quote(self.value().as_str()).as_str());
        content.append("}");
        content
    }

    /// The address under which the entry is stored.
    pub fn address(&self) -> (address: Address)
        ensures
            address@ == self@.address(),
    {
        Address::encode_from_str(self.content().as_str())
    }
}

/// What has become of an entry since it was created.
#[derive(Debug, Clone, Copy, PartialEq, Eq, Hash, Structural)]
pub enum CrudStatus {
    Live,
    Rejected,
    Deleted,
    Modified,
    Locked,
}

/// An entry as the DHT hands it out: with its status, and where that says so,
/// the address of the entry that took its place.
#[derive(Debug, PartialEq, Eq)]
pub struct EntryWithMeta {
    pub entry: Entry,
    pub crud_status: CrudStatus,
    pub maybe_crud_link: Option<Address>,
}

/// The mathematical value of an `EntryWithMeta`.
pub struct EntryWithMetaView {
    pub entry: EntryView,
    pub crud_status: CrudStatus,
    pub maybe_crud_link: Option<Seq<char>>,
}

impl View for EntryWithMeta {
    type V = EntryWithMetaView;

    open spec fn view(&self) -> EntryWithMetaView {
        EntryWithMetaView {
            entry: self.entry@,
            crud_status: self.crud_status,
            maybe_crud_link: crate::model::option_view(self.maybe_crud_link),
        }
    }
}

impl Clone for EntryWithMeta {
    fn clone(&self) -> (copy: Self)
        ensures
            copy == *self,
    {
        EntryWithMeta {
            entry: self.entry.clone(),
            crud_status: self.crud_status,
            maybe_crud_link: self.maybe_crud_link.clone(),
        }
    }
}

/// An entry to try things on.
pub fn test_entry_a() -> (entry: Entry)
    ensures
        entry@ == EntryView::App("testEntryTypeA"@, "test entry value a"@),
{
    Entry::App(String::from_str("testEntryTypeA"), String::from_str("test entry value a"))
}

/// Another entry to try things on.
pub fn test_entry_b() -> (entry: Entry)
    ensures
        entry@ == EntryView::App("testEntryTypeB"@, "test entry value b"@),
{
    Entry::App(String::from_str("testEntryTypeB"), String::from_str("test entry value b"))
}

/// The entry that most trials use.
pub fn test_entry() -> (entry: Entry)
    ensures
        entry@ == EntryView::App("testEntryType"@, "test entry value"@),
{
    Entry::App(String::from_str("testEntryType"), String::from_str("test entry value"))
}

} // verus!
