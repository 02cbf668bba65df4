//! What the node holds for the DHT: links are kept as triples of the
//! metadata store.

use crate::eav::{
    attribute_invalid, valid_attribute, EavView, EntityAttributeValue,
    EntityAttributeValueStorage,
};
use crate::entry::{Link, LinkView};
use crate::error::HolochainError;
use vstd::prelude::*;

verus! {

/// The attribute under which a link with this tag is kept.
pub open spec fn link_attribute(tag: Seq<char>) -> Seq<char> {
    "link__"@ + tag
}

/// The triple that stands for a link.
pub open spec fn link_triple(link: LinkView) -> EavView {
    EavView { entity: link.base, attribute: link_attribute(link.tag), value: link.target }
}

/// The triple that stands for a link, unless the link's tag cannot be part of
/// an attribute.
pub fn link_eav(link: &Link) -> (made: Result<EntityAttributeValue, HolochainError>)
    ensures
        valid_attribute(link_attribute(link@.tag)) ==> (made matches Ok(triple) && triple@
            == link_triple(link@)),
        !valid_attribute(link_attribute(link@.tag)) ==> (made matches Err(error) && error@
            == attribute_invalid()),
{
    let mut attribute = String::from_str("link__");
    attribute.append(link.tag.as_str());
    EntityAttributeValue::new(&link.base, &attribute, &link.target)
}

/// Writes the link into the metadata store, as the triple of its base, its
/// tag and its target. A link whose tag cannot be part of an attribute is
/// refused and the store is not touched. What the store answers otherwise is
/// handed on: on success it holds the triple, on failure what it held. A
/// store that never fails takes every link whose tag can be part of an
/// attribute.
pub fn add_link<S: EntityAttributeValueStorage>(storage: &mut S, link: &Link) -> (added: Result<
    (),
    HolochainError,
>)
    ensures
        !valid_attribute(link_attribute(link@.tag)) ==> (added matches Err(error) && error@
            == attribute_invalid()),
        valid_attribute(link_attribute(link@.tag)) && old(storage).never_fails() ==> added is Ok,
        added is Ok ==> final(storage).triples() == old(storage).triples().insert(
            link_triple(link@),
        ),
        added is Err ==> final(storage).triples() == old(storage).triples(),
        final(storage).never_fails() == old(storage).never_fails(),
{
    match link_eav(link) {
        Err(error) => Err(error),
        Ok(eav) => storage.add_eav(&eav),
    }
}

} // verus!
