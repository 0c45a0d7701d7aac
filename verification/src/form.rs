//! What a submitted form holds, and what is fed back to the form when a
//! submission is turned down.

use vstd::prelude::*;

verus! {

/// The fields of a submitted contact form.
pub struct FormData {
    pub name: String,
    pub email: String,
}

/// No two entries of the list have the same key.
pub open spec fn keys_distinct(entries: Seq<(String, String)>) -> bool {
    forall|i: int, j: int|
        0 <= i < j < entries.len() ==> (#[trigger] entries[i]).0@ != (#[trigger] entries[j]).0@
}

/// Some entry of the list has the key `key`.
pub open spec fn has_key(entries: Seq<(String, String)>, key: Seq<char>) -> bool {
    exists|i: int| 0 <= i < entries.len() && (#[trigger] entries[i]).0@ == key
}

/// The position of an entry with the key `key`.
pub open spec fn key_index(entries: Seq<(String, String)>, key: Seq<char>) -> int {
    choose|i: int| 0 <= i < entries.len() && (#[trigger] entries[i]).0@ == key
}

/// The mapping that a list of entries with distinct keys stands for.
pub open spec fn entries_map(entries: Seq<(String, String)>) -> Map<Seq<char>, Seq<char>> {
    Map::new(
        |key: Seq<char>| has_key(entries, key),
        |key: Seq<char>| entries[key_index(entries, key)].1@,
    )
}

/// A mapping from field names to texts, kept as a list without repeated keys.
pub struct FieldMap {
    entries: Vec<(String, String)>,
}

impl View for FieldMap {
    type V = Map<Seq<char>, Seq<char>>;

    closed spec fn view(&self) -> Map<Seq<char>, Seq<char>> {
        entries_map(self.entries@)
    }
}

impl FieldMap {
    /// The entries, in the order in which their keys first came.
    pub closed spec fn entries(&self) -> Seq<(String, String)> {
        self.entries@
    }

    /// What every field map keeps: no key twice, and the view is that of the entries.
    pub open spec fn wf(&self) -> bool {
        &&& keys_distinct(self.entries())
        &&& self@ == entries_map(self.entries())
    }

    /// The mapping without any field.
    pub fn new() -> (fields: FieldMap)
        ensures
            fields.wf(),
            fields@ == Map::<Seq<char>, Seq<char>>::empty(),
    {
        let fields = FieldMap { entries: Vec::new() };
        proof {
            assert(fields@ =~= Map::<Seq<char>, Seq<char>>::empty());
        }
        fields
    }

    /// The number of fields.
    pub fn len(&self) -> (n: usize)
        ensures
            n == self.entries().len(),
            self.wf() ==> self@.dom().finite() && n == self@.len(),
    {
        proof {
            if self.wf() {
                lemma_one_field_per_entry(self.entries@);
            }
        }
        self.entries.len()
    }

    /// The key and the text of the entry at `index`.
    pub fn entry(&self, index: usize) -> (pair: (&str, &str))
        requires
            index < self.entries().len(),
        ensures
            pair.0@ == self.entries()[index as int].0@,
            pair.1@ == self.entries()[index as int].1@,
            self.wf() ==> self@.contains_key(pair.0@) && self@[pair.0@] == pair.1@,
    {
        proof {
            assert(has_key(self.entries@, self.entries@[index as int].0@));
        }
        (self.entries[index].0.as_str(), self.entries[index].1.as_str())
    }

    /// The text stored under `key`, if there is one.
    pub fn get(&self, key: &str) -> (found: Option<&str>)
        requires
            self.wf(),
        ensures
            found is Some == self@.contains_key(key@),
            found is Some ==> found->Some_0@ == self@[key@],
    {
        let wanted = key.to_owned();
        let mut i: usize = 0;
        while i < self.entries.len()
            invariant
                i <= self.entries.len(),
                wanted@ == key@,
                keys_distinct(self.entries@),
                forall|j: int| 0 <= j < i ==> (#[trigger] self.entries@[j]).0@ != key@,
            decreases self.entries.len() - i,
        {
            if self.entries[i].0 == wanted {
                proof {
                    assert(has_key(self.entries@, key@));
                }
                return Some(self.entries[i].1.as_str());
            }
            i += 1;
        }
        None
    }

    /// Stores `value` under `key`, in place of what was there.
    pub fn insert(&mut self, key: &str, value: &str)
        requires
            old(self).wf(),
        ensures
            final(self).wf(),
            final(self)@ == old(self)@.insert(key@, value@),
    {
        let wanted = key.to_owned();
        let mut i: usize = 0;
        while i < self.entries.len()
            invariant
                i <= self.entries.len(),
                wanted@ == key@,
                self.entries@ == old(self).entries@,
                keys_distinct(self.entries@),
                forall|j: int| 0 <= j < i ==> (#[trigger] self.entries@[j]).0@ != key@,
            decreases self.entries.len() - i,
        {
            if self.entries[i].0 == wanted {
                self.entries.set(i, (wanted, value.to_owned()));
                proof {
                    lemma_update_is_insert(old(self).entries@, self.entries@, i as int);
                }
                return ;
            }
            i += 1;
        }
        self.entries.push((wanted, value.to_owned()));
        proof {
            assert(self.entries@.drop_last() =~= old(self).entries@);
            lemma_push_is_insert(old(self).entries@, self.entries@);
        }
    }
}

/// What a form state holds, as plain values.
pub ghost struct FormRejectionView {
    pub values: Map<Seq<char>, Seq<char>>,
    pub errors: Map<Seq<char>, Seq<char>>,
}

/// The state of a form that is shown again: the texts that were submitted and
/// the complaint about each field that was turned down.
pub struct FormRejectionData {
    values: FieldMap,
    errors: FieldMap,
}

impl View for FormRejectionData {
    type V = FormRejectionView;

    closed spec fn view(&self) -> FormRejectionView {
        FormRejectionView { values: self.values@, errors: self.errors@ }
    }
}

/// The state of a form that holds nothing and complains of nothing.
pub open spec fn empty_form() -> FormRejectionView {
    FormRejectionView {
        values: Map::<Seq<char>, Seq<char>>::empty(),
        errors: Map::<Seq<char>, Seq<char>>::empty(),
    }
}

/// The state of the form after a submission whose address was taken: both
/// submitted texts, and the complaint under `email`.
pub open spec fn duplicate_email_form(name: Seq<char>, email: Seq<char>) -> FormRejectionView {
    FormRejectionView {
        values: Map::<Seq<char>, Seq<char>>::empty().insert("name"@, name).insert("email"@, email),
        errors: Map::<Seq<char>, Seq<char>>::empty().insert("email"@, "Email already exists"@),
    }
}

impl FormRejectionData {
    /// What every form state keeps: both of its field maps are well formed.
    pub closed spec fn wf(&self) -> bool {
        self.values.wf() && self.errors.wf()
    }

    /// A form with no values and no errors.
    pub fn new() -> (form: FormRejectionData)
        ensures
            form.wf(),
            form@ == empty_form(),
    {
        FormRejectionData { values: FieldMap::new(), errors: FieldMap::new() }
    }

    /// Records `value` as the text submitted for the field `key`.
    pub fn set_value(&mut self, key: &str, value: &str)
        requires
            old(self).wf(),
        ensures
            final(self).wf(),
            final(self)@.values == old(self)@.values.insert(key@, value@),
            final(self)@.errors == old(self)@.errors,
    {
        self.values.insert(key, value);
    }

    /// Records `error` as the complaint about the field `key`.
    pub fn set_error(&mut self, key: &str, error: &str)
        requires
            old(self).wf(),
        ensures
            final(self).wf(),
            final(self)@.errors == old(self)@.errors.insert(key@, error@),
            final(self)@.values == old(self)@.values,
    {
        self.errors.insert(key, error);
    }

    /// The submitted texts.
    pub fn values(&self) -> (fields: &FieldMap)
        ensures
            self.wf() ==> fields.wf(),
            fields@ == self@.values,
    {
        &self.values
    }

    /// The complaints.
    pub fn errors(&self) -> (fields: &FieldMap)
        ensures
            self.wf() ==> fields.wf(),
            fields@ == self@.errors,
    {
        &self.errors
    }

    /// The form that goes back to a sender whose address is taken: what was
    /// submitted, and under `email` the complaint "Email already exists".
    pub fn duplicate_email(form: &FormData) -> (rejection: FormRejectionData)
        ensures
            rejection.wf(),
            rejection@ == duplicate_email_form(form.name@, form.email@),
    {
        let mut rejection = FormRejectionData::new();
        rejection.set_value("name", form.name.as_str());
        rejection.set_value("email", form.email.as_str());
        rejection.set_error("email", "Email already exists");
        rejection
    }
}

impl Default for FormRejectionData {
    fn default() -> (form: FormRejectionData)
        ensures
            form.wf(),
            form@ == empty_form(),
    {
        FormRejectionData::new()
    }
}

/// Replacing the text of one entry, its key kept, is an insert under that key.
proof fn lemma_update_is_insert(before: Seq<(String, String)>, after: Seq<(String, String)>, at: int)
    requires
        keys_distinct(before),
        0 <= at < before.len(),
        after.len() == before.len(),
        after[at].0@ == before[at].0@,
        forall|j: int| 0 <= j < before.len() && j != at ==> after[j] == before[j],
    ensures
        keys_distinct(after),
        entries_map(after) == entries_map(before).insert(after[at].0@, after[at].1@),
{
    assert forall|j: int| 0 <= j < before.len() implies (#[trigger] after[j]).0@ == before[j].0@ by {}
    assert forall|key: Seq<char>| has_key(after, key) == has_key(before, key) by {
        if has_key(before, key) {
            let j = key_index(before, key);
            assert(after[j].0@ == key);
        }
        if has_key(after, key) {
            let j = key_index(after, key);
            assert(before[j].0@ == key);
        }
    }
    assert forall|key: Seq<char>| has_key(after, key) implies entries_map(after)[key] == entries_map(
        before,
    ).insert(after[at].0@, after[at].1@)[key] by {
        let j = key_index(after, key);
        let k = key_index(before, key);
        assert(before[j].0@ == key);
        assert(j == k);
    }
    assert(has_key(after, after[at].0@));
    assert(entries_map(after) =~= entries_map(before).insert(after[at].0@, after[at].1@));
}

/// A list with distinct keys stands for a mapping with as many fields as the
/// list has entries.
proof fn lemma_one_field_per_entry(entries: Seq<(String, String)>)
    requires
        keys_distinct(entries),
    ensures
        entries_map(entries).dom().finite(),
        entries_map(entries).len() == entries.len(),
    decreases entries.len(),
{
    if entries.len() == 0 {
        assert(entries_map(entries) =~= Map::<Seq<char>, Seq<char>>::empty());
    } else {
        let front = entries.drop_last();
        assert(keys_distinct(front));
        lemma_one_field_per_entry(front);
        if has_key(front, entries.last().0@) {
            let j = key_index(front, entries.last().0@);
            assert(entries[j].0@ == entries[entries.len() - 1].0@);
        }
        lemma_push_is_insert(front, entries);
    }
}

/// Appending an entry whose key is new is an insert under that key.
proof fn lemma_push_is_insert(before: Seq<(String, String)>, after: Seq<(String, String)>)
    requires
        keys_distinct(before),
        after.len() == before.len() + 1,
        after.drop_last() == before,
        !has_key(before, after.last().0@),
    ensures
        keys_distinct(after),
        entries_map(after) == entries_map(before).insert(after.last().0@, after.last().1@),
{
    let last = before.len() as int;
    assert forall|j: int| 0 <= j < before.len() implies #[trigger] after[j] == before[j] by {
        assert(after.drop_last()[j] == after[j]);
    }
    assert forall|i: int, j: int| 0 <= i < j < after.len() implies (#[trigger] after[i]).0@ != (
    #[trigger] after[j]).0@ by {
        if j == last {
            assert(before[i].0@ == after[i].0@);
        } else {
            assert(before[i] == after[i] && before[j] == after[j]);
        }
    }
    assert(has_key(after, after[last].0@));
    assert forall|key: Seq<char>| has_key(after, key) == (has_key(before, key) || key == after[last].0@) by {
        if has_key(before, key) {
            let j = key_index(before, key);
            assert(after[j].0@ == key);
        }
        if has_key(after, key) {
            let j = key_index(after, key);
            if j != last {
                assert(before[j].0@ == key);
            }
        }
    }
    assert forall|key: Seq<char>| has_key(after, key) implies entries_map(after)[key] == entries_map(
        before,
    ).insert(after[last].0@, after[last].1@)[key] by {
        let j = key_index(after, key);
        if key != after[last].0@ {
            let k = key_index(before, key);
            assert(j != last);
            assert(after[k].0@ == key);
            assert(j == k);
        } else {
            assert(j == last);
        }
    }
    assert(entries_map(after) =~= entries_map(before).insert(after[last].0@, after[last].1@));
}

} // verus!
