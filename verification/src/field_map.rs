//! A small map from names to values whose fields can be gone through one by one.
use vstd::prelude::*;

verus! {

/// A map from names to values. No name occurs twice.
#[derive(Debug)]
pub struct FieldMap<V> {
    fields: Vec<(String, V)>,
}

/// The map that a sequence of named values stands for; of two fields with one name the later wins.
pub open spec fn fields_map<V>(fields: Seq<(String, V)>) -> Map<Seq<char>, V>
    decreases fields.len(),
{
    if fields.len() == 0 {
        Map::empty()
    } else {
        fields_map(fields.drop_last()).insert(fields.last().0@, fields.last().1)
    }
}

/// No two fields share a name.
pub open spec fn distinct_names<V>(fields: Seq<(String, V)>) -> bool {
    forall|i: int, j: int|
        0 <= i < j < fields.len() ==> (#[trigger] fields[i]).0@ != (#[trigger] fields[j]).0@
}

/// What a map of fields holds, read off field by field: a name is in the map exactly when a field
/// carries it, and, where names are distinct, it leads to that field's value.
pub proof fn lemma_fields_map<V>(fields: Seq<(String, V)>)
    ensures
        forall|k: Seq<char>| #[trigger]
            fields_map(fields).contains_key(k) <==> exists|i: int|
                0 <= i < fields.len() && (#[trigger] fields[i]).0@ == k,
        distinct_names(fields) ==> forall|i: int|
            0 <= i < fields.len() ==> fields_map(fields)[(#[trigger] fields[i]).0@] == fields[i].1,
    decreases fields.len(),
{
    if fields.len() > 0 {
        let front = fields.drop_last();
        lemma_fields_map(front);
        let whole = fields_map(fields);
        assert forall|k: Seq<char>| #[trigger] whole.contains_key(k) <==> exists|i: int|
            0 <= i < fields.len() && (#[trigger] fields[i]).0@ == k by {
            if whole.contains_key(k) {
                if k == fields.last().0@ {
                    assert(fields[fields.len() - 1].0@ == k);
                } else {
                    assert(fields_map(front).contains_key(k));
                    let i = choose|i: int| 0 <= i < front.len() && (#[trigger] front[i]).0@ == k;
                    assert(fields[i].0@ == k);
                }
            }
            if exists|i: int| 0 <= i < fields.len() && (#[trigger] fields[i]).0@ == k {
                let i = choose|i: int| 0 <= i < fields.len() && (#[trigger] fields[i]).0@ == k;
                if i < front.len() {
                    assert(front[i].0@ == k);
                    assert(fields_map(front).contains_key(k));
                }
            }
        }
        if distinct_names(fields) {
            assert(distinct_names(front)) by {
                assert forall|i: int, j: int| 0 <= i < j < front.len() implies (
                #[trigger] front[i]).0@ != (#[trigger] front[j]).0@ by {
                    assert(fields[i].0@ != fields[j].0@);
                }
            }
            assert forall|i: int| 0 <= i < fields.len() implies whole[(#[trigger] fields[i]).0@]
                == fields[i].1 by {
                if i < front.len() {
                    assert(front[i] == fields[i]);
                    assert(fields[i].0@ != fields[fields.len() - 1].0@);
                }
            }
        }
    }
}

impl<V> View for FieldMap<V> {
    type V = Map<Seq<char>, V>;

    closed spec fn view(&self) -> Map<Seq<char>, V> {
        fields_map(self.fields@)
    }
}

impl<V> FieldMap<V> {
    /// The fields are stored without repeating a name.
    #[verifier::type_invariant]
    spec fn wf(self) -> bool {
        distinct_names(self.fields@)
    }

    /// An empty map.
    pub fn new() -> (map: Self)
        ensures
            map@ == Map::<Seq<char>, V>::empty(),
    {
        FieldMap { fields: Vec::new() }
    }

    /// Whether the map holds no field.
    pub fn is_empty(&self) -> (empty: bool)
        ensures
            empty == (self@ == Map::<Seq<char>, V>::empty()),
    {
        proof {
            lemma_fields_map(self.fields@);
            if self.fields@.len() > 0 {
                assert(self@.contains_key(self.fields@[0].0@));
            }
        }
        self.fields.len() == 0
    }

    /// The fields, each name once, in no particular order.
    pub fn fields(&self) -> (fields: &Vec<(String, V)>)
        ensures
            distinct_names(fields@),
            fields_map(fields@) == self@,
    {
        proof {
            use_type_invariant(self);
        }
        &self.fields
    }

    /// Sets the value of `name`, in place of the one it had.
    pub fn insert(&mut self, name: String, value: V)
        ensures
            final(self)@ == old(self)@.insert(name@, value),
    {
        proof {
            use_type_invariant(&*self);
        }
        let mut fields: Vec<(String, V)> = Vec::new();
        std::mem::swap(&mut fields, &mut self.fields);
        let ghost before = fields@;
        let index = position(&fields, &name);
        if index < fields.len() {
            fields[index] = (name, value);
            proof {
                assert(fields@ == before.update(index as int, (name, value)));
                lemma_update(before, index as int, (name, value));
            }
        } else {
            fields.push((name, value));
            proof {
                assert(fields@.drop_last() == before);
                assert forall|i: int, j: int| 0 <= i < j < fields@.len() implies (
                #[trigger] fields@[i]).0@ != (#[trigger] fields@[j]).0@ by {
                    assert(fields@[i] == before[i]);
                    if j < before.len() {
                        assert(fields@[j] == before[j]);
                    }
                }
            }
        }
        self.fields = fields;
    }
}

/// A copy holds the same names, each with a clone of its value.
impl<V: Clone> Clone for FieldMap<V> {
    fn clone(&self) -> (copy: Self)
        ensures
            copy@.dom() == self@.dom(),
            forall|k: Seq<char>|
                self@.contains_key(k) ==> cloned(self@[k], #[trigger] copy@[k]),
    {
        proof {
            use_type_invariant(self);
        }
        let mut fields: Vec<(String, V)> = Vec::new();
        let mut index: usize = 0;
        while index < self.fields.len()
            invariant
                index <= self.fields@.len(),
                fields@.len() == index,
                forall|i: int|
                    0 <= i < index ==> (#[trigger] fields@[i]).0@ == self.fields@[i].0@ && cloned(
                        self.fields@[i].1,
                        fields@[i].1,
                    ),
            decreases self.fields@.len() - index,
        {
            let name = self.fields[index].0.clone();
            let value = self.fields[index].1.clone();
            fields.push((name, value));
            index = index + 1;
        }
        proof {
            assert forall|i: int, j: int| 0 <= i < j < fields@.len() implies (
            #[trigger] fields@[i]).0@ != (#[trigger] fields@[j]).0@ by {
                assert(self.fields@[i].0@ != self.fields@[j].0@);
            }
            lemma_fields_map(fields@);
            lemma_fields_map(self.fields@);
            let copied = fields_map(fields@);
            assert forall|k: Seq<char>| #[trigger] copied.contains_key(k) <==> self@.contains_key(
                k,
            ) by {
                if copied.contains_key(k) {
                    let i = choose|i: int|
                        0 <= i < fields@.len() && (#[trigger] fields@[i]).0@ == k;
                    assert(self.fields@[i].0@ == k);
                }
                if self@.contains_key(k) {
                    let i = choose|i: int|
                        0 <= i < self.fields@.len() && (#[trigger] self.fields@[i]).0@ == k;
                    assert(fields@[i].0@ == k);
                }
            }
            assert forall|k: Seq<char>| self@.contains_key(k) implies cloned(
                self@[k],
                #[trigger] copied[k],
            ) by {
                let i = choose|i: int|
                    0 <= i < self.fields@.len() && (#[trigger] self.fields@[i]).0@ == k;
                assert(fields@[i].0@ == k);
                assert(self@[k] == self.fields@[i].1);
            }
            assert(copied.dom() =~= self@.dom());
        }
        FieldMap { fields }
    }
}

/// The place of the field called `name`, or the number of fields where there is none.
fn position<V>(fields: &Vec<(String, V)>, name: &String) -> (index: usize)
    ensures
        index <= fields@.len(),
        index < fields@.len() ==> fields@[index as int].0@ == name@,
        forall|i: int| 0 <= i < index ==> (#[trigger] fields@[i]).0@ != name@,
{
    let mut index: usize = 0;
    while index < fields.len()
        invariant
            index <= fields@.len(),
            forall|i: int| 0 <= i < index ==> (#[trigger] fields@[i]).0@ != name@,
        decreases fields@.len() - index,
    {
        if fields[index].0 == *name {
            return index;
        }
        index = index + 1;
    }
    index
}

/// Overwriting the field of a name is inserting the name anew.
proof fn lemma_update<V>(fields: Seq<(String, V)>, index: int, field: (String, V))
    requires
        distinct_names(fields),
        0 <= index < fields.len(),
        fields[index].0@ == field.0@,
    ensures
        distinct_names(fields.update(index, field)),
        fields_map(fields.update(index, field)) == fields_map(fields).insert(field.0@, field.1),
    decreases fields.len(),
{
    let front = fields.drop_last();
    let updated = fields.update(index, field);
    assert forall|i: int, j: int| 0 <= i < j < updated.len() implies (#[trigger] updated[i]).0@ != (
    #[trigger] updated[j]).0@ by {
        assert(fields[i].0@ != fields[j].0@);
    }
    assert forall|i: int, j: int| 0 <= i < j < front.len() implies (#[trigger] front[i]).0@ != (
    #[trigger] front[j]).0@ by {
        assert(fields[i].0@ != fields[j].0@);
    }
    if index == fields.len() - 1 {
        assert(updated.drop_last() == front);
        assert(fields_map(updated) =~= fields_map(fields).insert(field.0@, field.1));
    } else {
        lemma_update(front, index, field);
        assert(updated.drop_last() == front.update(index, field));
        assert(fields[index].0@ != fields[fields.len() - 1].0@);
        assert(fields_map(updated) =~= fields_map(fields).insert(field.0@, field.1));
    }
}

} // verus!
