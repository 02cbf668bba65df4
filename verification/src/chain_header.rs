//! Chain headers: one per committed entry, each naming its predecessor.

use crate::entry::{EntryType, EntryTypeView};
use crate::hash::{content_address, Address};
use crate::json::{json_string, quote, Content};
use crate::model::{option_view, seq_view};
use vstd::prelude::*;

verus! {

/// The record of one commit: which entry, of which kind, by whom, and after
/// which earlier commit.
#[derive(Debug, PartialEq, Eq, Hash)]
pub struct ChainHeader {
    pub entry_type: EntryType,
    pub entry_address: Address,
    pub sources: Vec<Address>,
    pub link: Option<Address>,
    pub link_same_type: Option<Address>,
    pub timestamp: String,
}

/// The mathematical value of a `ChainHeader`.
pub struct ChainHeaderView {
    pub entry_type: EntryTypeView,
    pub entry_address: Seq<char>,
    pub sources: Seq<Seq<char>>,
    pub link: Option<Seq<char>>,
    pub link_same_type: Option<Seq<char>>,
    pub timestamp: Seq<char>,
}

/// The items of a JSON array of strings, separated by commas.
pub open spec fn json_items(items: Seq<Seq<char>>) -> Seq<char>
    decreases items.len(),
{
    if items.len() == 0 {
        Seq::empty()
    } else if items.len() == 1 {
        json_string(items[0])
    } else {
        json_items(items.drop_last()) + ","@ + json_string(items.last())
    }
}

/// A JSON array of strings.
pub open spec fn json_array(items: Seq<Seq<char>>) -> Seq<char> {
    "["@ + json_items(items) + "]"@
}

/// A JSON string, or `null` where there is none.
pub open spec fn json_optional(item: Option<Seq<char>>) -> Seq<char> {
    match item {
        Some(text) => json_string(text),
        None => "null"@,
    }
}

impl ChainHeaderView {
    /// The serialized form of the header.
    pub open spec fn content(self) -> Seq<char> {
        "{\"entry_type\":"@ + json_string(self.entry_type.name()) + ",\"entry_address\":"@
            + json_string(self.entry_address) + ",\"sources\":"@ + json_array(self.sources)
            + ",\"link\":"@ + json_optional(self.link) + ",\"link_same_type\":"@ + json_optional(
            self.link_same_type,
        ) + ",\"timestamp\":"@ + json_string(self.timestamp) + "}"@
    }

    /// The address of the header: that of its serialized form.
    pub open spec fn address(self) -> Seq<char> {
        content_address(self.content())
    }
}

impl View for ChainHeader {
    type V = ChainHeaderView;

    open spec fn view(&self) -> ChainHeaderView {
        ChainHeaderView {
            entry_type: self.entry_type@,
            entry_address: self.entry_address@,
            sources: seq_view(self.sources@),
            link: option_view(self.link),
            link_same_type: option_view(self.link_same_type),
            timestamp: self.timestamp@,
        }
    }
}

impl Clone for ChainHeader {
    fn clone(&self) -> (copy: Self)
        ensures
            copy@ == self@,
    {
        let sources = self.sources.clone();
        assert(sources@ =~= self.sources@);
        ChainHeader {
            entry_type: self.entry_type.clone(),
            entry_address: self.entry_address.clone(),
            sources,
            link: self.link.clone(),
            link_same_type: self.link_same_type.clone(),
            timestamp: self.timestamp.clone(),
        }
    }
}

/// A JSON array of the addresses' texts.
pub fn serialize_addresses(addresses: &Vec<Address>) -> (text: String)
    ensures
        text@ == json_array(seq_view(addresses@)),
{
    let ghost items = seq_view(addresses@);
    let mut text = String::from_str("[");
    let mut index: usize = 0;
    while index < addresses.len()
        invariant
            index <= addresses.len(),
            items == seq_view(addresses@),
            text@ == "["@ + json_items(items.take(index as int)),
        decreases addresses.len() - index,
    {
        let ghost before = items.take(index as int);
        let ghost after = items.take(index + 1);
        assert(after.drop_last() =~= before);
        assert(after.last() == addresses@[index as int]@);
        if index > 0 {
            text.append(",");
        }
        text.append(quote(addresses[index].hash.as_str()).as_str());
        assert(text@ =~= "["@ + json_items(after));
        index += 1;
    }
    assert(items.take(index as int) =~= items);
    text.append("]");
    text
}

/// A JSON string for the address, or `null`.
pub fn serialize_optional_address(address: &Option<Address>) -> (text: String)
    ensures
        text@ == json_optional(option_view(*address)),
{
    match address {
        Some(address) => quote(address.hash.as_str()),
        None => String::from_str("null"),
    }
}

impl ChainHeader {
    /// A header with the given fields.
    pub fn new(
        entry_type: &EntryType,
        entry_address: &Address,
        sources: &Vec<Address>,
        link: &Option<Address>,
        link_same_type: &Option<Address>,
        timestamp: &str,
    ) -> (header: ChainHeader)
        ensures
            header@ == (ChainHeaderView {
                entry_type: entry_type@,
                entry_address: entry_address@,
                sources: seq_view(sources@),
                link: option_view(*link),
                link_same_type: option_view(*link_same_type),
                timestamp: timestamp@,
            }),
    {
        ChainHeader {
            entry_type: entry_type.clone(),
            entry_address: entry_address.clone(),
            sources: sources.clone(),
            link: link.clone(),
            link_same_type: link_same_type.clone(),
            timestamp: String::from_str(timestamp),
        }
    }

    /// The kind of the entry that the header stands for.
    pub fn entry_type(&self) -> (entry_type: &EntryType)
        ensures
            entry_type == self.entry_type,
    {
        &self.entry_type
    }

    /// The address of the entry that the header stands for.
    pub fn entry_address(&self) -> (entry_address: &Address)
        ensures
            entry_address == self.entry_address,
    {
        &self.entry_address
    }

    /// Who committed the entry.
    pub fn sources(&self) -> (sources: &Vec<Address>)
        ensures
            sources == self.sources,
    {
        &self.sources
    }

    /// The address of the header before this one, if there is one.
    pub fn link(&self) -> (link: Option<Address>)
        ensures
            link == self.link,
    {
        self.link.clone()
    }

    /// The address of the last header before this one of the same kind.
    pub fn link_same_type(&self) -> (link: Option<Address>)
        ensures
            link == self.link_same_type,
    {
        self.link_same_type.clone()
    }

    /// The serialized form of the header.
    pub fn content(&self) -> (content: Content)
        ensures
            content@ == self@.content(),
    {
        let mut content = String::from_str("{\"entry_type\":");
        content.append(quote(self.entry_type.as_str().as_str()).as_str());
        content.append(",\"entry_address\":");
        content.append(quote(self.entry_address.hash.as_str()).as_str());
        content.append(",\"sources\":");
        content.append(serialize_addresses(&self.sources).as_str());
        content.append(",\"link\":");
        content.append(serialize_optional_address(&self.link).as_str());
        content.append(",\"link_same_type\":");
        content.append(serialize_optional_address(&self.link_same_type).as_str());
        content.append(",\"timestamp\":");
        content.append(quote(self.timestamp.as_str()).as_str());
        content.append("}");
        content
    }

    /// The address under which the header is stored.
    pub fn address(&self) -> (address: Address)
        ensures
            address@ == self@.address(),
    {
        Address::encode_from_str(self.content().as_str())
    }
}

} // verus!
