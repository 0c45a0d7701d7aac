//! A contact and the test for an address that is already taken.

use vstd::prelude::*;

verus! {

/// One entry of the contact list.
#[derive(Debug)]
pub struct Contact {
    pub name: String,
    pub email: String,
    pub id: usize,
}

/// What a contact holds, as plain values.
pub ghost struct ContactView {
    pub name: Seq<char>,
    pub email: Seq<char>,
    pub id: usize,
}

impl View for Contact {
    type V = ContactView;

    open spec fn view(&self) -> ContactView {
        ContactView { name: self.name@, email: self.email@, id: self.id }
    }
}

impl Clone for Contact {
    fn clone(&self) -> (copy: Contact)
        ensures
            copy@ == self@,
    {
        Contact { name: self.name.clone(), email: self.email.clone(), id: self.id }
    }
}

/// The contacts of a list, each as plain values, in the list's order.
pub open spec fn views(contacts: Seq<Contact>) -> Seq<ContactView> {
    contacts.map_values(|c: Contact| c@)
}

/// Some contact of the list has exactly this address; upper and lower case differ.
pub open spec fn email_in(email: Seq<char>, contacts: Seq<ContactView>) -> bool {
    exists|i: int| 0 <= i < contacts.len() && #[trigger] contacts[i].email == email
}

impl Contact {
    /// A contact with the given name, address and id.
    pub fn new(name: &str, email: &str, id: usize) -> (contact: Contact)
        ensures
            contact@ == (ContactView { name: name@, email: email@, id }),
    {
        Contact { name: name.to_owned(), email: email.to_owned(), id }
    }
}

/// Whether `email` is the address of one of `contacts`.
pub fn email_exists(email: &str, contacts: &[Contact]) -> (found: bool)
    ensures
        found == email_in(email@, views(contacts@)),
{
    let wanted = email.to_owned();
    let mut i: usize = 0;
    while i < contacts.len()
        invariant
            i <= contacts.len(),
            wanted@ == email@,
            forall|j: int| 0 <= j < i ==> contacts@[j].email@ != email@,
        decreases contacts.len() - i,
    {
        if contacts[i].email == wanted {
            assert(views(contacts@)[i as int].email == email@);
            return true;
        }
        i += 1;
    }
    false
}

} // verus!
