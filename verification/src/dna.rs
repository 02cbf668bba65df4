//! What the core reads of an application's DNA: which zome declares which
//! kinds of entry.

use crate::model::seq_view;
use vstd::prelude::*;

verus! {

/// A zome: a named part of an application, with the kinds of entry it declares.
#[derive(Debug, PartialEq, Eq)]
pub struct Zome {
    pub name: String,
    pub entry_types: Vec<String>,
}

/// The mathematical value of a `Zome`.
pub struct ZomeView {
    pub name: Seq<char>,
    pub entry_types: Seq<Seq<char>>,
}

impl View for Zome {
    type V = ZomeView;

    open spec fn view(&self) -> ZomeView {
        ZomeView { name: self.name@, entry_types: seq_view(self.entry_types@) }
    }
}

impl Clone for Zome {
    fn clone(&self) -> (copy: Self)
        ensures
            copy@ == self@,
    {
        let entry_types = self.entry_types.clone();
        assert(seq_view(entry_types@) =~= seq_view(self.entry_types@));
        Zome { name: self.name.clone(), entry_types }
    }
}

impl Zome {
    /// A zome without entry types.
    pub fn new(name: &str) -> (zome: Zome)
        ensures
            zome@ == (ZomeView { name: name@, entry_types: Seq::empty() }),
    {
        let zome = Zome { name: String::from_str(name), entry_types: Vec::new() };
        assert(zome@.entry_types =~= Seq::<Seq<char>>::empty());
        zome
    }

    /// Declares one more kind of entry.
    pub fn add_entry_type(&mut self, entry_type: &str)
        ensures
            final(self)@ == (ZomeView {
                name: old(self)@.name,
                entry_types: old(self)@.entry_types.push(entry_type@),
            }),
    {
        self.entry_types.push(String::from_str(entry_type));
        assert(seq_view(self.entry_types@) =~= seq_view(old(self).entry_types@).push(entry_type@));
    }

    /// Whether the zome declares the kind of this name.
    pub fn declares(&self, entry_type: &str) -> (declared: bool)
        ensures
            declared == self@.entry_types.contains(entry_type@),
    {
        let wanted = String::from_str(entry_type);
        let mut index: usize = 0;
        while index < self.entry_types.len()
            invariant
                index <= self.entry_types.len(),
                wanted@ == entry_type@,
                forall|i: int| 0 <= i < index ==> seq_view(self.entry_types@)[i] != entry_type@,
            decreases self.entry_types.len() - index,
        {
            if self.entry_types[index] == wanted {
                assert(seq_view(self.entry_types@)[index as int] == entry_type@);
                return true;
            }
            index += 1;
        }
        false
    }
}

/// An application's DNA, as the zomes it is made of.
#[derive(Debug, PartialEq, Eq)]
pub struct Dna {
    pub zomes: Vec<Zome>,
}

/// The name of the first zome that declares the kind, if any does.
pub open spec fn zome_declaring(zomes: Seq<ZomeView>, entry_type: Seq<char>) -> Option<Seq<char>>
    decreases zomes.len(),
{
    if zomes.len() == 0 {
        None
    } else if zomes[0].entry_types.contains(entry_type) {
        Some(zomes[0].name)
    } else {
        zome_declaring(zomes.skip(1), entry_type)
    }
}

impl View for Dna {
    type V = Seq<ZomeView>;

    open spec fn view(&self) -> Seq<ZomeView> {
        seq_view(self.zomes@)
    }
}

impl Clone for Dna {
    fn clone(&self) -> (copy: Self)
        ensures
            copy@ == self@,
    {
        let zomes = self.zomes.clone();
        assert(seq_view(zomes@) =~= seq_view(self.zomes@));
        Dna { zomes }
    }
}

impl Dna {
    /// A DNA without zomes.
    pub fn new() -> (dna: Dna)
        ensures
            dna@ == Seq::<ZomeView>::empty(),
    {
        let dna = Dna { zomes: Vec::new() };
        assert(dna@ =~= Seq::<ZomeView>::empty());
        dna
    }

    /// The name of the first zome that declares the kind of this name.
    pub fn get_zome_name_for_entry_type(&self, entry_type: &str) -> (zome: Option<String>)
        ensures
            crate::model::option_view(zome) == zome_declaring(self@, entry_type@),
    {
        let mut index: usize = 0;
        assert(self@.skip(0) =~= self@);
        while index < self.zomes.len()
            invariant
                index <= self.zomes.len(),
                zome_declaring(self@, entry_type@) == zome_declaring(
                    self@.skip(index as int),
                    entry_type@,
                ),
            decreases self.zomes.len() - index,
        {
            let ghost rest = self@.skip(index as int);
            assert(rest[0] == self.zomes@[index as int]@);
            assert(rest.skip(1) =~= self@.skip(index + 1));
            if self.zomes[index].declares(entry_type) {
                return Some(self.zomes[index].name.clone());
            }
            index += 1;
        }
        None
    }
}

} // verus!
