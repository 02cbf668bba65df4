//! Entity-attribute-value triples: metadata about what the DHT holds, and the
//! relations between addresses. Triples are only ever added and queried.

use crate::content::AddressableContent;
use crate::entry::{test_entry_a, test_entry_b, Entry, EntryView};
use crate::error::{ErrorView, HolochainError};
use crate::hash::{content_address, Address};
use crate::json::{
    field_value, find_field, json_object_fields, json_string, parse_object_fields, quote, Content,
};
use crate::pattern::{class_members, has_any, literal_class, regex_is_match};
use vstd::prelude::*;

verus! {

/// The address of the content that a triple is about.
pub type Entity = Address;

/// The name of what a triple says of its entity.
pub type Attribute = String;

/// The address of the content that a triple gives as the value.
pub type Value = Address;

/// The characters that an attribute may not hold: they would not be safe in
/// a path of the store.
pub open spec fn is_reserved(c: char) -> bool {
    ||| c == '/'
    ||| c == ':'
    ||| c == '*'
    ||| c == '?'
    ||| c == '<'
    ||| c == '>'
    ||| c == '"'
    ||| c == '\''
    ||| c == '\\'
    ||| c == '|'
    ||| c == '+'
}

/// Whether a text can be an attribute: it holds no reserved character.
pub open spec fn valid_attribute(attribute: Seq<char>) -> bool {
    forall|i: int| 0 <= i < attribute.len() ==> !is_reserved(#[trigger] attribute[i])
}

/// The error for a text that cannot be an attribute.
pub open spec fn attribute_invalid() -> ErrorView {
    ErrorView::Generic("Attribute name invalid"@)
}

/// The pattern of the reserved characters is a class that names exactly them.
proof fn lemma_reserved_class()
    ensures
        literal_class("[/:*?<>\"'\\\\|+]"@) matches Some(members) && forall|c: char|
            members.contains(c) <==> is_reserved(c),
{
    reveal_strlit("[/:*?<>\"'\\\\|+]");
    let pattern = "[/:*?<>\"'\\\\|+]"@;
    assert(pattern.len() == 14);
    let body = pattern.subrange(1, 13);
    assert(body =~= seq!['/', ':', '*', '?', '<', '>', '"', '\'', '\\', '\\', '|', '+']);
    reveal_with_fuel(class_members, 13);
    let b1 = body.skip(1);
    let b2 = b1.skip(1);
    let b3 = b2.skip(1);
    let b4 = b3.skip(1);
    let b5 = b4.skip(1);
    let b6 = b5.skip(1);
    let b7 = b6.skip(1);
    let b8 = b7.skip(1);
    let b10 = b8.skip(2);
    let b11 = b10.skip(1);
    let b12 = b11.skip(1);
    assert(b12.len() == 0);
    assert(class_members(b12) == Some(Set::<char>::empty()));
    assert(class_members(b11) == Some(Set::<char>::empty().insert('+')));
    assert(class_members(b10) == Some(Set::<char>::empty().insert('+').insert('|')));
    assert(class_members(b8) == Some(
        Set::<char>::empty().insert('+').insert('|').insert('\\'),
    ));
    assert(class_members(b7) == Some(
        Set::<char>::empty().insert('+').insert('|').insert('\\').insert('\''),
    ));
    assert(class_members(b6) == Some(
        Set::<char>::empty().insert('+').insert('|').insert('\\').insert('\'').insert('"'),
    ));
    assert(class_members(b5) == Some(
        Set::<char>::empty().insert('+').insert('|').insert('\\').insert('\'').insert(
            '"',
        ).insert('>'),
    ));
    assert(class_members(b4) == Some(
        Set::<char>::empty().insert('+').insert('|').insert('\\').insert('\'').insert(
            '"',
        ).insert('>').insert('<'),
    ));
    assert(class_members(b3) == Some(
        Set::<char>::empty().insert('+').insert('|').insert('\\').insert('\'').insert(
            '"',
        ).insert('>').insert('<').insert('?'),
    ));
    assert(class_members(b2) == Some(
        Set::<char>::empty().insert('+').insert('|').insert('\\').insert('\'').insert(
            '"',
        ).insert('>').insert('<').insert('?').insert('*'),
    ));
    assert(class_members(b1) == Some(
        Set::<char>::empty().insert('+').insert('|').insert('\\').insert('\'').insert(
            '"',
        ).insert('>').insert('<').insert('?').insert('*').insert(':'),
    ));
    assert(class_members(body) == Some(
        Set::<char>::empty().insert('+').insert('|').insert('\\').insert('\'').insert(
            '"',
        ).insert('>').insert('<').insert('?').insert('*').insert(':').insert('/'),
    ));
}

/// Checks that a text can be an attribute.
pub fn validate_attribute(attribute: &Attribute) -> (checked: Result<(), HolochainError>)
    ensures
        valid_attribute(attribute@) ==> checked is Ok,
        !valid_attribute(attribute@) ==> (checked matches Err(error) && error@
            == attribute_invalid()),
{
    proof {
        lemma_reserved_class();
    }
    match regex_is_match("[/:*?<>\"'\\\\|+]", attribute.as_str()) {
        Err(_) => Err(HolochainError::ErrorGeneric(String::from_str("Could not create regex"))),
        Ok(found) => {
            let ghost members = literal_class("[/:*?<>\"'\\\\|+]"@)->Some_0;
            assert(found == has_any(attribute@, members));
            assert(has_any(attribute@, members) == !valid_attribute(attribute@)) by {
                if has_any(attribute@, members) {
                    let i = choose|i: int|
                        0 <= i < attribute@.len() && members.contains(#[trigger] attribute@[i]);
                    assert(is_reserved(attribute@[i]));
                }
                if !valid_attribute(attribute@) {
                    let i = choose|i: int|
                        0 <= i < attribute@.len() && is_reserved(#[trigger] attribute@[i]);
                    assert(members.contains(attribute@[i]));
                }
            }
            if !found {
                Ok(())
            } else {
                Err(HolochainError::ErrorGeneric(String::from_str("Attribute name invalid")))
            }
        },
    }
}

/// A text of letters, digits and underscores only can be an attribute, and a
/// text that holds a reserved character cannot.
pub proof fn lemma_attribute_rule(attribute: Seq<char>)
    ensures
        (forall|i: int|
            0 <= i < attribute.len() ==> {
                let c = #[trigger] attribute[i];
                ('a' <= c && c <= 'z') || ('A' <= c && c <= 'Z') || ('0' <= c && c <= '9') || c
                    == '_'
            }) ==> valid_attribute(attribute),
        (exists|i: int| 0 <= i < attribute.len() && is_reserved(#[trigger] attribute[i]))
            ==> !valid_attribute(attribute),
{
}

/// One triple: `entity` has `attribute` with `value`. Its attribute holds no
/// reserved character.
#[derive(Debug, PartialEq, Eq, Hash)]
pub struct EntityAttributeValue {
    entity: Entity,
    attribute: Attribute,
    value: Value,
}

/// The mathematical value of a triple.
pub struct EavView {
    pub entity: Seq<char>,
    pub attribute: Seq<char>,
    pub value: Seq<char>,
}

impl EavView {
    /// The serialized form of the triple.
    pub open spec fn content(self) -> Seq<char> {
        "{\"entity\":"@ + json_string(self.entity) + ",\"attribute\":"@ + json_string(
            self.attribute,
        ) + ",\"value\":"@ + json_string(self.value) + "}"@
    }

    /// Whether the triple meets the constraints: each is either absent or the
    /// triple's own field.
    pub open spec fn fits(
        self,
        entity: Option<Seq<char>>,
        attribute: Option<Seq<char>>,
        value: Option<Seq<char>>,
    ) -> bool {
        &&& entity matches Some(wanted) ==> self.entity == wanted
        &&& attribute matches Some(wanted) ==> self.attribute == wanted
        &&& value matches Some(wanted) ==> self.value == wanted
    }
}

/// The triples of a set that meet the constraints.
pub open spec fn matching(
    triples: Set<EavView>,
    entity: Option<Seq<char>>,
    attribute: Option<Seq<char>>,
    value: Option<Seq<char>>,
) -> Set<EavView> {
    Set::new(|triple: EavView| triples.contains(triple) && triple.fits(entity, attribute, value))
}

/// What decoding a triple from serialized content comes to: the triple that
/// the fields `entity`, `attribute` and `value` of the content spell, where
/// the content is a JSON object in which these three fields hold strings and
/// the attribute is valid. What else the object holds is passed over.
pub open spec fn decoded_triple(content: Seq<char>) -> Option<EavView> {
    match json_object_fields(content) {
        Some(fields) => match (
            field_value(fields, "entity"@),
            field_value(fields, "attribute"@),
            field_value(fields, "value"@),
        ) {
            (Some(entity), Some(attribute), Some(value)) => if valid_attribute(attribute) {
                Some(EavView { entity, attribute, value })
            } else {
                None
            },
            _ => None,
        },
        None => None,
    }
}

impl View for EntityAttributeValue {
    type V = EavView;

    closed spec fn view(&self) -> EavView {
        EavView { entity: self.entity@, attribute: self.attribute@, value: self.value@ }
    }
}

impl Clone for EntityAttributeValue {
    fn clone(&self) -> (copy: Self)
        ensures
            copy@ == self@,
    {
        proof {
            use_type_invariant(self);
        }
        EntityAttributeValue {
            entity: self.entity.clone(),
            attribute: self.attribute.clone(),
            value: self.value.clone(),
        }
    }
}

impl EntityAttributeValue {
    #[verifier::type_invariant]
    spec fn attribute_is_valid(&self) -> bool {
        valid_attribute(self.attribute@)
    }

    /// The triple of the three, unless the attribute holds a reserved
    /// character.
    pub fn new(entity: &Entity, attribute: &Attribute, value: &Value) -> (made: Result<
        EntityAttributeValue,
        HolochainError,
    >)
        ensures
            valid_attribute(attribute@) ==> (made matches Ok(triple) && triple@ == (EavView {
                entity: entity@,
                attribute: attribute@,
                value: value@,
            })),
            !valid_attribute(attribute@) ==> (made matches Err(error) && error@
                == attribute_invalid()),
    {
        match validate_attribute(attribute) {
            Err(error) => Err(error),
            Ok(()) => Ok(
                EntityAttributeValue {
                    entity: entity.clone(),
                    attribute: attribute.clone(),
                    value: value.clone(),
                },
            ),
        }
    }

    /// The entity that the triple is about.
    pub fn entity(&self) -> (entity: Entity)
        ensures
            entity@ == self@.entity,
    {
        self.entity.clone()
    }

    /// The triple's attribute. It holds no reserved character.
    pub fn attribute(&self) -> (attribute: Attribute)
        ensures
            attribute@ == self@.attribute,
            valid_attribute(attribute@),
    {
        proof {
            use_type_invariant(self);
        }
        self.attribute.clone()
    }

    /// The triple's value.
    pub fn value(&self) -> (value: Value)
        ensures
            value@ == self@.value,
    {
        self.value.clone()
    }

    /// Whether both are the same triple.
    pub fn same(&self, other: &EntityAttributeValue) -> (equal: bool)
        ensures
            equal == (self@ == other@),
    {
        self.entity.same(&other.entity) && self.attribute == other.attribute && self.value.same(
            &other.value,
        )
    }

    /// Whether the triple meets the constraints.
    pub fn fits(
        &self,
        entity: &Option<Entity>,
        attribute: &Option<Attribute>,
        value: &Option<Value>,
    ) -> (fits: bool)
        ensures
            fits == self@.fits(
                crate::model::option_view(*entity),
                crate::model::option_view(*attribute),
                crate::model::option_view(*value),
            ),
    {
        let entity_fits = match entity {
            Some(wanted) => self.entity.same(wanted),
            None => true,
        };
        let attribute_fits = match attribute {
            Some(wanted) => self.attribute == *wanted,
            None => true,
        };
        let value_fits = match value {
            Some(wanted) => self.value.same(wanted),
            None => true,
        };
        entity_fits && attribute_fits && value_fits
    }
}

impl AddressableContent for EntityAttributeValue {
    open spec fn content_text(&self) -> Seq<char> {
        self@.content()
    }

    fn content(&self) -> (content: Content) {
        let mut content = String::from_str("{\"entity\":");
        content.append(quote(self.entity.hash.as_str()).as_str());
        content.append(",\"attribute\":");
        content.append(quote(self.attribute.as_str()).as_str());
        content.append(",\"value\":");
        content.append(quote(self.value.hash.as_str()).as_str());
        content.append("}");
        content
    }

    open spec fn decoding(content: Seq<char>) -> Option<EavView> {
        decoded_triple(content)
    }

    /// Reads a triple from its serialized form. Content that is no JSON
    /// object, in which one of the three fields is missing or holds no
    /// string, or whose attribute holds a reserved character, is refused.
    fn try_from_content(content: &Content) -> (decoded: Result<Self, HolochainError>) {
        let fields = match parse_object_fields(content.as_str()) {
            Ok(fields) => fields,
            Err(error) => {
                return Err(error);
            },
        };
        let entity = find_field(&fields, "entity");
        let attribute = find_field(&fields, "attribute");
        let value = find_field(&fields, "value");
        match (entity, attribute, value) {
            (Some(entity), Some(attribute), Some(value)) => EntityAttributeValue::new(
                &Address { hash: entity.clone() },
                attribute,
                &Address { hash: value.clone() },
            ),
            _ => Err(
                HolochainError::SerializationError(
                    String::from_str("content lacks a field of a triple"),
                ),
            ),
        }
    }

    fn address(&self) -> (address: Address) {
        Address::encode_from_str(self.content().as_str())
    }
}

/// The set of the triples that a sequence holds.
pub open spec fn triples_of(items: Seq<EntityAttributeValue>) -> Set<EavView> {
    Set::new(|triple: EavView| exists|i: int| 0 <= i < items.len() && (#[trigger] items[i])@ == triple)
}

/// Whether no triple occurs twice in the sequence.
pub open spec fn triples_distinct(items: Seq<EntityAttributeValue>) -> bool {
    forall|i: int, j: int|
        0 <= i < items.len() && 0 <= j < items.len() && i != j ==> (#[trigger] items[i])@ != (
        #[trigger] items[j])@
}

/// A store of triples: add and query, nothing else.
pub trait EntityAttributeValueStorage {
    /// The triples that the store holds.
    spec fn triples(&self) -> Set<EavView>;

    /// Whether the store is one that answers every request. A store that
    /// may fail, as one on a disk may, is none.
    spec fn never_fails(&self) -> bool;

    /// Adds the triple to the store. A triple that is there already is not
    /// added again, and that is no error. A store that fails holds what it
    /// held.
    fn add_eav(&mut self, eav: &EntityAttributeValue) -> (added: Result<(), HolochainError>)
        ensures
            added is Ok ==> final(self).triples() == old(self).triples().insert(eav@),
            added is Err ==> final(self).triples() == old(self).triples(),
            old(self).never_fails() ==> added is Ok,
            final(self).never_fails() == old(self).never_fails(),
    ;

    /// The triples that meet every constraint given. `None` constrains
    /// nothing. What comes back holds no triple twice.
    fn fetch_eav(
        &self,
        entity: Option<Entity>,
        attribute: Option<Attribute>,
        value: Option<Value>,
    ) -> (fetched: Result<Vec<EntityAttributeValue>, HolochainError>)
        ensures
            fetched matches Ok(found) ==> triples_of(found@) == matching(
                self.triples(),
                crate::model::option_view(entity),
                crate::model::option_view(attribute),
                crate::model::option_view(value),
            ) && triples_distinct(found@),
            self.never_fails() ==> fetched is Ok,
    ;
}

/// Whether the sequence holds the triple.
pub fn holds(items: &Vec<EntityAttributeValue>, eav: &EntityAttributeValue) -> (held: bool)
    ensures
        held == triples_of(items@).contains(eav@),
{
    let mut index: usize = 0;
    while index < items.len()
        invariant
            index <= items.len(),
            forall|i: int| 0 <= i < index ==> (#[trigger] items@[i])@ != eav@,
        decreases items.len() - index,
    {
        if items[index].same(eav) {
            return true;
        }
        index += 1;
    }
    false
}

/// Whether every triple of the first sequence is one of the second.
pub fn all_held(items: &Vec<EntityAttributeValue>, others: &Vec<EntityAttributeValue>) -> (held:
    bool)
    ensures
        held == triples_of(items@).subset_of(triples_of(others@)),
{
    let mut index: usize = 0;
    while index < items.len()
        invariant
            index <= items.len(),
            forall|i: int|
                0 <= i < index ==> triples_of(others@).contains((#[trigger] items@[i])@),
        decreases items.len() - index,
    {
        if !holds(others, &items[index]) {
            assert(triples_of(items@).contains(items@[index as int]@));
            return false;
        }
        index += 1;
    }
    assert forall|triple: EavView| triples_of(items@).contains(triple) implies triples_of(
        others@,
    ).contains(triple) by {
        let i = choose|i: int| 0 <= i < items@.len() && (#[trigger] items@[i])@ == triple;
        assert(triples_of(others@).contains(items@[i]@));
    }
    true
}

/// Whether two answers of stores are alike: both hold the same triples, or
/// both are the same error.
pub open spec fn answers_alike(
    one: Result<Vec<EntityAttributeValue>, HolochainError>,
    other: Result<Vec<EntityAttributeValue>, HolochainError>,
) -> bool {
    match (one, other) {
        (Ok(found), Ok(others)) => triples_of(found@) == triples_of(others@),
        (Err(error), Err(other_error)) => error@ == other_error@,
        _ => false,
    }
}

/// Whether two answers of stores are alike: both hold the same triples, or
/// both are the same error.
pub fn same_answers(
    one: &Result<Vec<EntityAttributeValue>, HolochainError>,
    other: &Result<Vec<EntityAttributeValue>, HolochainError>,
) -> (equal: bool)
    ensures
        equal == answers_alike(*one, *other),
{
    match one {
        Ok(found) => match other {
            Ok(others) => {
                let equal = all_held(found, others) && all_held(others, found);
                proof {
                    if equal {
                        assert(triples_of(found@) =~= triples_of(others@));
                    }
                }
                equal
            },
            Err(_) => false,
        },
        Err(error) => match other {
            Ok(_) => false,
            Err(other_error) => error.same(other_error),
        },
    }
}

/// Whether two stores are alike: each is asked for everything it holds, and
/// the answers are compared as `same_answers` compares them. Of stores that
/// never fail, the result is whether both hold the same triples. Of any
/// stores, it is how a pair of answers compares that the stores may give to
/// the query for everything.
pub fn same_storage<A: EntityAttributeValueStorage, B: EntityAttributeValueStorage>(
    one: &A,
    other: &B,
) -> (equal: bool)
    ensures
        one.never_fails() && other.never_fails() ==> equal == (one.triples() == other.triples()),
        exists|
            answer: Result<Vec<EntityAttributeValue>, HolochainError>,
            other_answer: Result<Vec<EntityAttributeValue>, HolochainError>,
        |
            call_ensures(A::fetch_eav, (one, None, None, None), answer) && call_ensures(
                B::fetch_eav,
                (other, None, None, None),
                other_answer,
            ) && equal == answers_alike(answer, other_answer),
{
    let answer = one.fetch_eav(None, None, None);
    let other_answer = other.fetch_eav(None, None, None);
    proof {
        lemma_open_query(one.triples());
        lemma_open_query(other.triples());
    }
    same_answers(&answer, &other_answer)
}

/// A store in memory, for one owner.
#[derive(Debug)]
pub struct ExampleEntityAttributeValueStorageNonSync {
    storage: Vec<EntityAttributeValue>,
}

impl View for ExampleEntityAttributeValueStorageNonSync {
    type V = Set<EavView>;

    closed spec fn view(&self) -> Set<EavView> {
        triples_of(self.storage@)
    }
}

impl Clone for ExampleEntityAttributeValueStorageNonSync {
    fn clone(&self) -> (copy: Self)
        ensures
            copy@ == self@,
    {
        proof {
            use_type_invariant(self);
        }
        let mut storage: Vec<EntityAttributeValue> = Vec::new();
        let mut index: usize = 0;
        while index < self.storage.len()
            invariant
                index <= self.storage.len(),
                storage.len() == index,
                forall|i: int| 0 <= i < index ==> (#[trigger] storage@[i])@ == self.storage@[i]@,
            decreases self.storage.len() - index,
        {
            storage.push(self.storage[index].clone());
            index += 1;
        }
        proof {
            assert forall|triple: EavView|
                triples_of(storage@).contains(triple) == triples_of(self.storage@).contains(
                    triple,
                ) by {
                if triples_of(storage@).contains(triple) {
                    let i = choose|i: int|
                        0 <= i < storage@.len() && (#[trigger] storage@[i])@ == triple;
                    assert(self.storage@[i]@ == triple);
                }
                if triples_of(self.storage@).contains(triple) {
                    let i = choose|i: int|
                        0 <= i < self.storage@.len() && (#[trigger] self.storage@[i])@ == triple;
                    assert(storage@[i]@ == triple);
                }
            }
            assert(triples_of(storage@) =~= triples_of(self.storage@));
        }
        ExampleEntityAttributeValueStorageNonSync { storage }
    }
}

impl ExampleEntityAttributeValueStorageNonSync {
    #[verifier::type_invariant]
    spec fn distinct(&self) -> bool {
        triples_distinct(self.storage@)
    }

    /// An empty store.
    pub fn new() -> (store: ExampleEntityAttributeValueStorageNonSync)
        ensures
            store@ == Set::<EavView>::empty(),
    {
        let store = ExampleEntityAttributeValueStorageNonSync { storage: Vec::new() };
        assert(store@ =~= Set::<EavView>::empty());
        store
    }

    /// Adds the triple, unless the store holds it already.
    pub fn unthreadable_add_eav(&mut self, eav: &EntityAttributeValue) -> (added: Result<
        (),
        HolochainError,
    >)
        ensures
            added is Ok,
            final(self)@ == old(self)@.insert(eav@),
    {
        proof {
            use_type_invariant(&*self);
        }
        let mut taken = ExampleEntityAttributeValueStorageNonSync { storage: Vec::new() };
        core::mem::swap(self, &mut taken);
        let ExampleEntityAttributeValueStorageNonSync { storage } = taken;
        let mut storage = storage;
        let ghost before = storage@;
        let mut index: usize = 0;
        while index < storage.len() && !storage[index].same(eav)
            invariant
                index <= storage.len(),
                storage@ == before,
                forall|i: int| 0 <= i < index ==> (#[trigger] before[i])@ != eav@,
            decreases storage.len() - index,
        {
            index += 1;
        }
        if index == storage.len() {
            storage.push(eav.clone());
        }
        proof {
            let after = storage@;
            let place = index as int;
            assert(after[place]@ == eav@);
            assert forall|triple: EavView|
                triples_of(after).contains(triple) == triples_of(before).insert(eav@).contains(
                    triple,
                ) by {
                if triples_of(after).contains(triple) {
                    let i = choose|i: int|
                        0 <= i < after.len() && (#[trigger] after[i])@ == triple;
                    if i < before.len() {
                        assert(before[i]@ == triple);
                    }
                }
                if triples_of(before).contains(triple) {
                    let i = choose|i: int|
                        0 <= i < before.len() && (#[trigger] before[i])@ == triple;
                    assert(after[i]@ == triple);
                }
            }
            assert(triples_of(after) =~= triples_of(before).insert(eav@));
        }
        *self = ExampleEntityAttributeValueStorageNonSync { storage };
        Ok(())
    }

    /// The triples that meet every constraint given, in the order in which
    /// they were added.
    pub fn unthreadable_fetch_eav(
        &self,
        entity: Option<Entity>,
        attribute: Option<Attribute>,
        value: Option<Value>,
    ) -> (fetched: Result<Vec<EntityAttributeValue>, HolochainError>)
        ensures
            fetched matches Ok(found) && triples_of(found@) == matching(
                self@,
                crate::model::option_view(entity),
                crate::model::option_view(attribute),
                crate::model::option_view(value),
            ) && triples_distinct(found@),
    {
        proof {
            use_type_invariant(self);
        }
        let ghost e = crate::model::option_view(entity);
        let ghost a = crate::model::option_view(attribute);
        let ghost v = crate::model::option_view(value);
        let mut found: Vec<EntityAttributeValue> = Vec::new();
        let mut index: usize = 0;
        while index < self.storage.len()
            invariant
                index <= self.storage.len(),
                triples_distinct(self.storage@),
                e == crate::model::option_view(entity),
                a == crate::model::option_view(attribute),
                v == crate::model::option_view(value),
                triples_distinct(found@),
                forall|k: int|
                    0 <= k < found.len() ==> (#[trigger] found@[k])@.fits(e, a, v) && exists|
                        j: int,
                    |
                        0 <= j < index && (#[trigger] self.storage@[j])@ == found@[k]@,
                forall|j: int|
                    0 <= j < index && (#[trigger] self.storage@[j])@.fits(e, a, v) ==> exists|
                        k: int,
                    |
                        0 <= k < found.len() && (#[trigger] found@[k])@ == self.storage@[j]@,
            decreases self.storage.len() - index,
        {
            let ghost held = found@;
            if self.storage[index].fits(&entity, &attribute, &value) {
                let copy = self.storage[index].clone();
                found.push(copy);
                proof {
                    let grown = found@;
                    let last = held.len() as int;
                    assert(grown[last]@ == self.storage@[index as int]@);
                    assert forall|k: int| 0 <= k < grown.len() implies (#[trigger] grown[k])@.fits(
                        e,
                        a,
                        v,
                    ) && exists|j: int|
                        0 <= j < index + 1 && (#[trigger] self.storage@[j])@ == grown[k]@ by {
                        if k < last {
                            assert(grown[k] == held[k]);
                            let j = choose|j: int|
                                0 <= j < index && (#[trigger] self.storage@[j])@ == held[k]@;
                            assert(self.storage@[j]@ == grown[k]@);
                        } else {
                            assert(self.storage@[index as int]@ == grown[k]@);
                        }
                    }
                    assert forall|j: int|
                        0 <= j < index + 1 && (#[trigger] self.storage@[j])@.fits(
                            e,
                            a,
                            v,
                        ) implies exists|k: int|
                        0 <= k < grown.len() && (#[trigger] grown[k])@ == self.storage@[j]@ by {
                        if j < index {
                            let k = choose|k: int|
                                0 <= k < held.len() && (#[trigger] held[k])@ == self.storage@[j]@;
                            assert(grown[k] == held[k]);
                        } else {
                            assert(grown[last]@ == self.storage@[j]@);
                        }
                    }
                    assert forall|i: int, k: int|
                        0 <= i < grown.len() && 0 <= k < grown.len() && i != k implies (
                    #[trigger] grown[i])@ != (#[trigger] grown[k])@ by {
                        if i < last && k < last {
                            assert(grown[i] == held[i]);
                            assert(grown[k] == held[k]);
                        } else if i < last {
                            assert(grown[i] == held[i]);
                            let j = choose|j: int|
                                0 <= j < index && (#[trigger] self.storage@[j])@ == held[i]@;
                            assert(self.storage@[j]@ != self.storage@[index as int]@);
                        } else {
                            assert(grown[k] == held[k]);
                            let j = choose|j: int|
                                0 <= j < index && (#[trigger] self.storage@[j])@ == held[k]@;
                            assert(self.storage@[j]@ != self.storage@[index as int]@);
                        }
                    }
                }
            }
            index += 1;
        }
        proof {
            assert forall|triple: EavView|
                triples_of(found@).contains(triple) == matching(self@, e, a, v).contains(
                    triple,
                ) by {
                if triples_of(found@).contains(triple) {
                    let k = choose|k: int|
                        0 <= k < found@.len() && (#[trigger] found@[k])@ == triple;
                    let j = choose|j: int|
                        0 <= j < index && (#[trigger] self.storage@[j])@ == found@[k]@;
                    assert(self.storage@[j]@ == triple);
                }
                if matching(self@, e, a, v).contains(triple) {
                    let j = choose|j: int|
                        0 <= j < self.storage@.len() && (#[trigger] self.storage@[j])@ == triple;
                    let k = choose|k: int|
                        0 <= k < found@.len() && (#[trigger] found@[k])@ == self.storage@[j]@;
                    assert(found@[k]@ == triple);
                }
            }
            assert(triples_of(found@) =~= matching(self@, e, a, v));
        }
        Ok(found)
    }
}

impl EntityAttributeValueStorage for ExampleEntityAttributeValueStorageNonSync {
    open spec fn triples(&self) -> Set<EavView> {
        self@
    }

    open spec fn never_fails(&self) -> bool {
        true
    }

    fn add_eav(&mut self, eav: &EntityAttributeValue) -> (added: Result<(), HolochainError>)
        ensures
            added is Ok,
    {
        self.unthreadable_add_eav(eav)
    }

    fn fetch_eav(
        &self,
        entity: Option<Entity>,
        attribute: Option<Attribute>,
        value: Option<Value>,
    ) -> (fetched: Result<Vec<EntityAttributeValue>, HolochainError>)
        ensures
            fetched is Ok,
    {
        self.unthreadable_fetch_eav(entity, attribute, value)
    }
}

/// The example of a store behind the storage trait: a store in memory that
/// belongs to whoever holds it. It cannot be cloned: a copy would be another
/// store, which misses what is added to this one afterwards. The handle that
/// can be cloned, and whose clones all reach one store, is
/// `SharedEntityAttributeValueStorage`.
#[derive(Debug)]
pub struct ExampleEntityAttributeValueStorage {
    content: ExampleEntityAttributeValueStorageNonSync,
}

impl View for ExampleEntityAttributeValueStorage {
    type V = Set<EavView>;

    closed spec fn view(&self) -> Set<EavView> {
        self.content@
    }
}

impl ExampleEntityAttributeValueStorage {
    /// An empty store.
    pub fn new() -> (made: Result<ExampleEntityAttributeValueStorage, HolochainError>)
        ensures
            made matches Ok(store) && store@ == Set::<EavView>::empty(),
    {
        Ok(
            ExampleEntityAttributeValueStorage {
                content: ExampleEntityAttributeValueStorageNonSync::new(),
            },
        )
    }
}

impl EntityAttributeValueStorage for ExampleEntityAttributeValueStorage {
    open spec fn triples(&self) -> Set<EavView> {
        self@
    }

    open spec fn never_fails(&self) -> bool {
        true
    }

    fn add_eav(&mut self, eav: &EntityAttributeValue) -> (added: Result<(), HolochainError>)
        ensures
            added is Ok,
    {
        self.content.unthreadable_add_eav(eav)
    }

    fn fetch_eav(
        &self,
        entity: Option<Entity>,
        attribute: Option<Attribute>,
        value: Option<Value>,
    ) -> (fetched: Result<Vec<EntityAttributeValue>, HolochainError>)
        ensures
            fetched is Ok,
    {
        self.content.unthreadable_fetch_eav(entity, attribute, value)
    }
}

/// A store that holds one triple and nothing else answers every query whose
/// constraints are each absent or that triple's own field with exactly that
/// triple: so it does for the query by all three fields, by any two of them,
/// and by none.
pub proof fn lemma_round_trip(
    triple: EavView,
    entity: Option<Seq<char>>,
    attribute: Option<Seq<char>>,
    value: Option<Seq<char>>,
)
    requires
        entity matches Some(wanted) ==> wanted == triple.entity,
        attribute matches Some(wanted) ==> wanted == triple.attribute,
        value matches Some(wanted) ==> wanted == triple.value,
    ensures
        matching(Set::<EavView>::empty().insert(triple), entity, attribute, value)
            == Set::<EavView>::empty().insert(triple),
{
    assert(matching(Set::<EavView>::empty().insert(triple), entity, attribute, value)
        =~= Set::<EavView>::empty().insert(triple));
}

/// Adding a triple that the store holds already changes nothing.
pub proof fn lemma_add_is_idempotent(triples: Set<EavView>, triple: EavView)
    ensures
        triples.insert(triple).insert(triple) == triples.insert(triple),
{
    assert(triples.insert(triple).insert(triple) =~= triples.insert(triple));
}

/// A query without constraints answers with every triple of the store.
pub proof fn lemma_open_query(triples: Set<EavView>)
    ensures
        matching(triples, None, None, None) == triples,
{
    assert(matching(triples, None, None, None) =~= triples);
}

/// The entry whose address is the entity of the triple to try things on.
pub fn test_eav_entity() -> (entry: Entry)
    ensures
        entry@ == EntryView::App("testEntryTypeA"@, "test entry value a"@),
{
    test_entry_a()
}

/// The attribute of the triple to try things on.
pub fn test_eav_attribute() -> (attribute: String)
    ensures
        attribute@ == "foo-attribute"@,
        valid_attribute(attribute@),
{
    proof {
        reveal_strlit("foo-attribute");
    }
    String::from_str("foo-attribute")
}

/// The entry whose address is the value of the triple to try things on.
pub fn test_eav_value() -> (entry: Entry)
    ensures
        entry@ == EntryView::App("testEntryTypeB"@, "test entry value b"@),
{
    test_entry_b()
}

/// The mathematical value of the triple to try things on.
pub open spec fn test_triple() -> EavView {
    EavView {
        entity: EntryView::App("testEntryTypeA"@, "test entry value a"@).address(),
        attribute: "foo-attribute"@,
        value: EntryView::App("testEntryTypeB"@, "test entry value b"@).address(),
    }
}

/// A triple to try things on.
pub fn test_eav() -> (eav: EntityAttributeValue)
    ensures
        eav@ == test_triple(),
{
    match EntityAttributeValue::new(
        &test_eav_entity().address(),
        &test_eav_attribute(),
        &test_eav_value().address(),
    ) {
        Ok(eav) => eav,
        Err(_) => unreached(),
    }
}

/// The serialized form of the triple to try things on.
pub fn test_eav_content() -> (content: Content)
    ensures
        content@ == test_triple().content(),
{
    test_eav().content()
}

/// The address of the triple to try things on.
pub fn test_eav_address() -> (address: Address)
    ensures
        address@ == content_address(test_triple().content()),
{
    test_eav().address()
}

/// Runs one triple through a fresh store: the store answers with nothing
/// before the triple is added, and afterwards with exactly the triple, to the
/// query by all three fields, by any two of them, and by none. Every answer
/// is checked where this function is verified, so none can fail where it
/// runs.
pub fn eav_round_trip_test_runner(
    entity_content: impl AddressableContent + Clone,
    attribute: String,
    value_content: impl AddressableContent + Clone,
)
    requires
        valid_attribute(attribute@),
{
    let entity = entity_content.address();
    let value = value_content.address();
    let eav = match EntityAttributeValue::new(&entity, &attribute, &value) {
        Ok(eav) => eav,
        Err(_) => unreached(),
    };
    let mut eav_storage = match ExampleEntityAttributeValueStorage::new() {
        Ok(storage) => storage,
        Err(_) => unreached(),
    };
    let ghost triple = eav@;
    let ghost expected = Set::<EavView>::empty().insert(triple);

    let nothing = eav_storage.fetch_eav(
        Some(entity.clone()),
        Some(attribute.clone()),
        Some(value.clone()),
    );
    match nothing {
        Ok(found) => {
            assert(found@.len() == 0) by {
                if found@.len() > 0 {
                    assert(triples_of(found@).contains(found@[0]@));
                }
            }
        },
        Err(_) => {
            assert(false);
        },
    }

    let added = eav_storage.add_eav(&eav);
    assert(added is Ok);
    assert(eav_storage@ =~= expected);

    let by_all = eav_storage.fetch_eav(
        Some(entity.clone()),
        Some(attribute.clone()),
        Some(value.clone()),
    );
    proof {
        lemma_round_trip(triple, Some(entity@), Some(attribute@), Some(value@));
    }
    assert(by_all matches Ok(found) && triples_of(found@) == expected);

    let open_entity = eav_storage.fetch_eav(None, Some(attribute.clone()), Some(value.clone()));
    proof {
        lemma_round_trip(triple, None, Some(attribute@), Some(value@));
    }
    assert(open_entity matches Ok(found) && triples_of(found@) == expected);

    let open_attribute = eav_storage.fetch_eav(Some(entity.clone()), None, Some(value.clone()));
    proof {
        lemma_round_trip(triple, Some(entity@), None, Some(value@));
    }
    assert(open_attribute matches Ok(found) && triples_of(found@) == expected);

    let open_value = eav_storage.fetch_eav(Some(entity.clone()), Some(attribute.clone()), None);
    proof {
        lemma_round_trip(triple, Some(entity@), Some(attribute@), None);
    }
    assert(open_value matches Ok(found) && triples_of(found@) == expected);

    let open = eav_storage.fetch_eav(None, None, None);
    proof {
        lemma_round_trip(triple, None, None, None);
    }
    assert(open matches Ok(found) && triples_of(found@) == expected);
}

} // verus!
