use std::collections::HashMap;
use vstd::prelude::*;
use vstd::std_specs::iter::IteratorSpec;

use crate::error::RepositoryError;
use crate::ids::{id_after, lemma_i32_keys_bound, lemma_values_listed_once, next_id};
use crate::validation::{check_text_length, text_verdict, TextLengthViolation};

verus! {

broadcast use vstd::std_specs::hash::group_hash_axioms;

/// A label that todos can carry.
#[derive(Debug, PartialEq, Eq)]
pub struct Label {
    pub id: i32,
    pub name: String,
}

impl Label {
    pub fn new(id: i32, name: String) -> (label: Label)
        ensures
            label.id == id,
            label.name == name,
    {
        Label { id, name }
    }
}

impl Clone for Label {
    fn clone(&self) -> (copy: Self)
        ensures
            copy == *self,
    {
        Label { id: self.id, name: self.name.clone() }
    }
}

/// The request body that asks for a new label.
#[derive(Debug, PartialEq, Eq)]
pub struct CreateLabel {
    name: String,
}

impl View for CreateLabel {
    type V = Seq<char>;

    closed spec fn view(&self) -> Seq<char> {
        self.name@
    }
}

impl CreateLabel {
    pub fn new(name: String) -> (req: CreateLabel)
        ensures
            req@ == name@,
    {
        CreateLabel { name }
    }

    /// The name asked for.
    pub fn into_name(self) -> (name: String)
        ensures
            name@ == self@,
    {
        self.name
    }

    /// The name must have between 1 and 100 characters.
    pub fn validate(&self) -> (r: Result<(), TextLengthViolation>)
        ensures
            r == text_verdict(self@),
            r is Ok <==> 1 <= self@.len() <= 100,
            self@.len() == 0 ==> r == Err::<(), TextLengthViolation>(TextLengthViolation::Empty),
            self@.len() > 100 ==> r == Err::<(), TextLengthViolation>(TextLengthViolation::TooLong),
    {
        check_text_length(&self.name)
    }
}

/// `v` lists the labels of `m` (id to name), each one once, in some order.
pub open spec fn lists_labels(v: Seq<Label>, m: Map<i32, Seq<char>>) -> bool {
    &&& v.len() == m.len()
    &&& forall|i: int| 0 <= i < v.len() ==> m.contains_key(#[trigger] v[i].id) && m[v[i].id] == v[i].name@
    &&& forall|i: int, j: int| 0 <= i < j < v.len() ==> #[trigger] v[i].id != #[trigger] v[j].id
    &&& forall|k: i32| #[trigger] m.contains_key(k) ==> exists|i: int| 0 <= i < v.len() && #[trigger] v[i].id == k
}

/// A store of labels, keyed by id.
pub trait LabelRepository: Sized {
    /// The labels held, each id with its name.
    spec fn labels(&self) -> Map<i32, Seq<char>>;

    /// Adds a label with the name given and returns it.
    fn create(&mut self, name: String) -> (r: Result<Label, RepositoryError>)
        ensures
            match r {
                Ok(label) => {
                    &&& label.name@ == name@
                    &&& final(self).labels() == old(self).labels().insert(label.id, name@)
                },
                Err(_) => final(self).labels() == old(self).labels(),
            },
    ;

    /// Every label held.
    fn all(&self) -> (r: Result<Vec<Label>, RepositoryError>)
        ensures
            r matches Ok(v) ==> lists_labels(v@, self.labels()),
    ;

    /// Removes the label `id`; fails with `NotFound(id)` where there is none.
    fn delete(&mut self, id: i32) -> (r: Result<(), RepositoryError>)
        ensures
            r is Ok <==> old(self).labels().contains_key(id),
            r is Ok ==> final(self).labels() == old(self).labels().remove(id),
            r matches Err(e) ==> e == RepositoryError::NotFound(id) && final(self).labels() == old(self).labels(),
    ;
}

/// Labels held in memory, in a hash map from id to label.
pub struct LabelRepositoryForMemory {
    store: HashMap<i32, Label>,
}

impl LabelRepositoryForMemory {
    /// Every label is stored under its own id.
    #[verifier::type_invariant]
    spec fn ids_match_keys(self) -> bool {
        forall|k: i32| #[trigger] self.store@.contains_key(k) ==> self.store@[k].id == k
    }

    /// An empty store.
    pub fn new() -> (repo: Self)
        ensures
            repo.labels() == Map::<i32, Seq<char>>::empty(),
    {
        let repo = LabelRepositoryForMemory { store: HashMap::new() };
        assert(repo.labels() =~= Map::<i32, Seq<char>>::empty());
        repo
    }
}

impl LabelRepository for LabelRepositoryForMemory {
    closed spec fn labels(&self) -> Map<i32, Seq<char>> {
        self.store@.map_values(|l: Label| l.name@)
    }

    /// The new label's id is the number of labels held plus one (cut to 32
    /// bits); a label already stored under that id is replaced. Never fails.
    fn create(&mut self, name: String) -> (r: Result<Label, RepositoryError>)
        ensures
            r matches Ok(label) && label.id == next_id(old(self).labels().len()),
    {
        proof {
            use_type_invariant(&*self);
            lemma_i32_keys_bound(self.store@);
        }
        let count = self.store.len();
        assert(self.labels().dom() =~= self.store@.dom());
        let id = id_after(count);
        let label = Label::new(id, name.clone());
        let mut store = HashMap::new();
        std::mem::swap(&mut store, &mut self.store);
        store.insert(id, label.clone());
        self.store = store;
        assert(self.labels() =~= old(self).labels().insert(id, name@));
        Ok(label)
    }

    /// Never fails.
    fn all(&self) -> (r: Result<Vec<Label>, RepositoryError>)
        ensures
            r is Ok,
    {
        proof {
            use_type_invariant(self);
        }
        let mut out: Vec<Label> = Vec::new();
        let ghost listed = vstd::std_specs::hash::spec_values_iter(&self.store).remaining();
        for label in it: self.store.values()
            invariant
                it.seq() == listed,
                out@.len() == it.index(),
                forall|j: int| 0 <= j < out@.len() ==> out@[j] == *listed[j],
        {
            out.push(label.clone());
        }
        proof {
            let held = self.store@;
            assert(out@ =~= listed.unref());
            lemma_values_listed_once(out@, held, |l: Label| l.id);
            let names = self.labels();
            assert forall|i: int| 0 <= i < out@.len() implies names.contains_key(#[trigger] out@[i].id)
                && names[out@[i].id] == out@[i].name@ by {
                assert(held.contains_key((|l: Label| l.id)(out@[i])));
            }
            assert forall|i: int, j: int| 0 <= i < j < out@.len() implies #[trigger] out@[i].id != #[trigger] out@[j].id by {
                assert((|l: Label| l.id)(out@[i]) != (|l: Label| l.id)(out@[j]));
            }
            assert forall|k: i32| #[trigger] names.contains_key(k) implies exists|i: int| 0 <= i < out@.len() && #[trigger] out@[i].id == k by {
                assert(held.contains_key(k));
                let i = choose|i: int| 0 <= i < out@.len() && (|l: Label| l.id)(#[trigger] out@[i]) == k;
                assert(out@[i].id == k);
            }
            assert(names.dom() =~= held.dom());
        }
        Ok(out)
    }

    fn delete(&mut self, id: i32) -> (r: Result<(), RepositoryError>) {
        proof {
            use_type_invariant(&*self);
        }
        let mut store = HashMap::new();
        std::mem::swap(&mut store, &mut self.store);
        let removed = store.remove(&id);
        self.store = store;
        match removed {
            Some(_) => {
                assert(self.labels() =~= old(self).labels().remove(id));
                Ok(())
            },
            None => {
                assert(self.labels() =~= old(self).labels());
                Err(RepositoryError::NotFound(id))
            },
        }
    }
}

} // verus!
