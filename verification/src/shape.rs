//! What a template reads from a context: numbers, texts, lists and records.
//!
//! The engine has values of its own. This module says, in plain values, which
//! value each context of the library stands for, so that the way from a
//! context to the engine can be held against it.

use vstd::prelude::*;
use crate::contact::ContactView;
use crate::context::ContextView;
use crate::form::FormRejectionView;

verus! {

/// A value as a template reads it.
pub ghost enum Shape {
    /// An unsigned number.
    Number(nat),
    /// A text.
    Text(Seq<char>),
    /// A sequence of values, read by iteration.
    List(Seq<Shape>),
    /// Named values, each read by its name.
    Record(Map<Seq<char>, Shape>),
}

/// `record` has the keys of `fields` and no others, and under each key what
/// one of the pairs with that key holds.
pub open spec fn holds_fields(record: Map<Seq<char>, Shape>, fields: Seq<(Seq<char>, Shape)>) -> bool {
    &&& forall|i: int| 0 <= i < fields.len() ==> record.contains_key((#[trigger] fields[i]).0)
    &&& forall|key: Seq<char>| #[trigger]
        record.contains_key(key) ==> exists|i: int|
            0 <= i < fields.len() && (#[trigger] fields[i]).0 == key && fields[i].1 == record[key]
}

/// No two pairs of the list have the same key.
pub open spec fn field_names_distinct(fields: Seq<(Seq<char>, Shape)>) -> bool {
    forall|i: int, j: int|
        0 <= i < j < fields.len() ==> (#[trigger] fields[i]).0 != (#[trigger] fields[j]).0
}

/// A contact is the record of its name, its address and its id.
pub open spec fn contact_shape(contact: ContactView) -> Shape {
    Shape::Record(
        Map::<Seq<char>, Shape>::empty().insert("name"@, Shape::Text(contact.name)).insert(
            "email"@,
            Shape::Text(contact.email),
        ).insert("id"@, Shape::Number(contact.id as nat)),
    )
}

/// A mapping from field names to texts is the record of these texts.
pub open spec fn field_map_shape(fields: Map<Seq<char>, Seq<char>>) -> Shape {
    Shape::Record(fields.map_values(|text: Seq<char>| Shape::Text(text)))
}

/// A form state is the record of its values and its errors.
pub open spec fn form_shape(formdata: FormRejectionView) -> Shape {
    Shape::Record(
        Map::<Seq<char>, Shape>::empty().insert("values"@, field_map_shape(formdata.values)).insert(
            "errors"@,
            field_map_shape(formdata.errors),
        ),
    )
}

/// A context is the record of the names that its block reads.
pub open spec fn context_shape(context: ContextView) -> Shape {
    match context {
        ContextView::Empty => Shape::Record(Map::<Seq<char>, Shape>::empty()),
        ContextView::Count { count } => Shape::Record(
            Map::<Seq<char>, Shape>::empty().insert("count"@, Shape::Number(count)),
        ),
        ContextView::Contacts { contacts, formdata } => Shape::Record(
            Map::<Seq<char>, Shape>::empty().insert(
                "contacts"@,
                Shape::List(contacts.map_values(|contact: ContactView| contact_shape(contact))),
            ).insert("formdata"@, form_shape(formdata)),
        ),
        ContextView::Form { formdata } => Shape::Record(
            Map::<Seq<char>, Shape>::empty().insert("formdata"@, form_shape(formdata)),
        ),
        ContextView::NewContact { contact } => Shape::Record(
            Map::<Seq<char>, Shape>::empty().insert("contact"@, contact_shape(contact)),
        ),
    }
}

/// Pairs with distinct keys leave no choice: two records that hold them are
/// the same record.
pub proof fn lemma_fields_pin_the_record(
    first: Map<Seq<char>, Shape>,
    second: Map<Seq<char>, Shape>,
    fields: Seq<(Seq<char>, Shape)>,
)
    requires
        holds_fields(first, fields),
        holds_fields(second, fields),
        field_names_distinct(fields),
    ensures
        first == second,
{
    assert forall|key: Seq<char>| first.contains_key(key) implies second.contains_key(key) && first[key]
        == second[key] by {
        let i = choose|i: int| 0 <= i < fields.len() && (#[trigger] fields[i]).0 == key && fields[i].1 == first[key];
        assert(second.contains_key(fields[i].0));
        let j = choose|j: int|
            0 <= j < fields.len() && (#[trigger] fields[j]).0 == key && fields[j].1 == second[key];
        assert(i == j);
    }
    assert forall|key: Seq<char>| second.contains_key(key) implies first.contains_key(key) by {
        let j = choose|j: int|
            0 <= j < fields.len() && (#[trigger] fields[j]).0 == key && fields[j].1 == second[key];
        assert(first.contains_key(fields[j].0));
    }
    assert(first =~= second);
}

} // verus!
