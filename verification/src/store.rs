//! The contact store: contacts in the order of their submission, no address twice.

use vstd::prelude::*;
use crate::contact::{email_exists, email_in, views, Contact, ContactView};

verus! {

/// The refusal of a submission whose address some contact already has.
#[derive(Clone, Copy, Debug, PartialEq, Eq, Structural)]
pub struct DuplicateEmail;

/// No two contacts of the list share an address.
pub open spec fn emails_distinct(contacts: Seq<ContactView>) -> bool {
    forall|i: int, j: int|
        0 <= i < j < contacts.len() ==> (#[trigger] contacts[i]).email != (#[trigger] contacts[j]).email
}

/// Ids grow along the list and stay below `next_id`, so none occurs twice.
pub open spec fn ids_ascend_below(contacts: Seq<ContactView>, next_id: usize) -> bool {
    &&& forall|i: int, j: int|
        0 <= i < j < contacts.len() ==> (#[trigger] contacts[i]).id < (#[trigger] contacts[j]).id
    &&& forall|i: int| 0 <= i < contacts.len() ==> (#[trigger] contacts[i]).id < next_id
}

/// The contact that a store with this `next_id` makes of an accepted submission.
pub open spec fn admitted(name: Seq<char>, email: Seq<char>, next_id: usize) -> ContactView {
    ContactView { name, email, id: next_id }
}

/// The list after the submission of `name` and `email`: unchanged where the
/// address is taken, else longer by the admitted contact.
pub open spec fn after_submission(
    contacts: Seq<ContactView>,
    next_id: usize,
    name: Seq<char>,
    email: Seq<char>,
) -> Seq<ContactView> {
    if email_in(email, contacts) {
        contacts
    } else {
        contacts.push(admitted(name, email, next_id))
    }
}

/// The contacts and the counter that their ids are drawn from.
pub struct ContactStore {
    contacts: Vec<Contact>,
    next_id: usize,
}

impl View for ContactStore {
    type V = Seq<ContactView>;

    closed spec fn view(&self) -> Seq<ContactView> {
        views(self.contacts@)
    }
}

impl ContactStore {
    /// The id that the next accepted submission gets.
    pub closed spec fn next_id(&self) -> usize {
        self.next_id
    }

    /// What every store keeps: no address twice, ids growing and below the counter.
    pub open spec fn wf(&self) -> bool {
        &&& emails_distinct(self@)
        &&& ids_ascend_below(self@, self.next_id())
    }

    /// An empty store whose first contact will get the id 1.
    pub fn new() -> (store: ContactStore)
        ensures
            store.wf(),
            store@ == Seq::<ContactView>::empty(),
            store.next_id() == 1,
    {
        ContactStore { contacts: Vec::new(), next_id: 1 }
    }

    /// The number of contacts.
    pub fn len(&self) -> (n: usize)
        ensures
            n == self@.len(),
    {
        self.contacts.len()
    }

    /// A copy of the contacts as they stand, oldest first.
    pub fn list_all(&self) -> (snapshot: Vec<Contact>)
        ensures
            views(snapshot@) == self@,
    {
        let mut snapshot: Vec<Contact> = Vec::new();
        let mut i: usize = 0;
        while i < self.contacts.len()
            invariant
                i <= self.contacts.len(),
                snapshot@.len() == i,
                forall|k: int| 0 <= k < i ==> (#[trigger] snapshot@[k])@ == self.contacts@[k]@,
            decreases self.contacts.len() - i,
        {
            snapshot.push(self.contacts[i].clone());
            i += 1;
        }
        proof {
            assert(views(snapshot@) =~= views(self.contacts@));
        }
        snapshot
    }

    /// Whether some contact has the address `email`.
    pub fn contains_email(&self, email: &str) -> (found: bool)
        ensures
            found == email_in(email@, self@),
    {
        email_exists(email, self.contacts.as_slice())
    }

    /// Whether the id counter can still hand out an id.
    pub fn has_room(&self) -> (room: bool)
        ensures
            room == (self.next_id() < usize::MAX),
    {
        self.next_id < usize::MAX
    }

    /// Adds a contact unless one with the same address is there.
    pub fn insert_if_absent(&mut self, name: &str, email: &str) -> (outcome: Result<Contact, DuplicateEmail>)
        requires
            old(self).wf(),
            old(self).next_id() < usize::MAX,
        ensures
            final(self).wf(),
            final(self)@ == after_submission(old(self)@, old(self).next_id(), name@, email@),
            email_in(email@, old(self)@) ==> outcome is Err && final(self)@ == old(self)@
                && final(self).next_id() == old(self).next_id(),
            !email_in(email@, old(self)@) ==> outcome is Ok
                && outcome->Ok_0@ == admitted(name@, email@, old(self).next_id())
                && final(self)@ == old(self)@.push(outcome->Ok_0@)
                && final(self).next_id() == old(self).next_id() + 1,
    {
        if email_exists(email, self.contacts.as_slice()) {
            return Err(DuplicateEmail);
        }
        let contact = Contact::new(name, email, self.next_id);
        self.next_id = self.next_id + 1;
        self.contacts.push(contact.clone());
        proof {
            assert(views(self.contacts@) =~= views(old(self).contacts@).push(contact@));
        }
        Ok(contact)
    }
}

/// The address occurs at exactly one place of the list.
pub open spec fn email_once(email: Seq<char>, contacts: Seq<ContactView>) -> bool {
    exists|i: int|
        0 <= i < contacts.len() && (#[trigger] contacts[i]).email == email && forall|j: int|
            0 <= j < contacts.len() && (#[trigger] contacts[j]).email == email ==> j == i
}

/// A submission keeps a well-formed list well formed, whether it is accepted
/// or not, and an accepted one gets an id that no earlier contact has.
pub proof fn lemma_submission_keeps_order(
    contacts: Seq<ContactView>,
    next_id: usize,
    name: Seq<char>,
    email: Seq<char>,
)
    requires
        emails_distinct(contacts),
        ids_ascend_below(contacts, next_id),
        next_id < usize::MAX,
    ensures
        emails_distinct(after_submission(contacts, next_id, name, email)),
        ids_ascend_below(
            after_submission(contacts, next_id, name, email),
            if email_in(email, contacts) {
                next_id
            } else {
                (next_id + 1) as usize
            },
        ),
        forall|i: int| 0 <= i < contacts.len() ==> (#[trigger] contacts[i]).id != next_id,
{
}

/// Of two submissions with the same address that reach the store one after
/// the other, in either order, the first is accepted and the second is turned
/// down. The second changes nothing; afterwards the address occurs exactly
/// once, with the first sender's name and an id that no other contact has.
pub proof fn lemma_one_winner_per_email(
    contacts: Seq<ContactView>,
    next_id: usize,
    first_name: Seq<char>,
    second_name: Seq<char>,
    email: Seq<char>,
)
    requires
        ids_ascend_below(contacts, next_id),
        !email_in(email, contacts),
    ensures
        ({
            let winner = admitted(first_name, email, next_id);
            let between = after_submission(contacts, next_id, first_name, email);
            let after = after_submission(between, (next_id + 1) as usize, second_name, email);
            &&& between == contacts.push(winner)
            &&& email_in(email, between)
            &&& after == between
            &&& after.len() == contacts.len() + 1
            &&& email_once(email, after)
            &&& forall|i: int| 0 <= i < after.len() && (#[trigger] after[i]).id == winner.id ==> after[i] == winner
        }),
{
    let between = after_submission(contacts, next_id, first_name, email);
    let last = contacts.len() as int;
    assert(between[last].email == email);
    assert forall|j: int| 0 <= j < between.len() && (#[trigger] between[j]).email == email implies j
        == last by {
        if j < last {
            assert(contacts[j].email == email);
        }
    }
    assert forall|i: int| 0 <= i < between.len() && (#[trigger] between[i]).id == next_id implies i
        == last by {
        if i < last {
            assert(contacts[i].id < next_id);
        }
    }
}

/// A submission whose address is taken leaves the list as it was, and so as
/// long as it was.
pub proof fn lemma_duplicate_changes_nothing(
    contacts: Seq<ContactView>,
    next_id: usize,
    name: Seq<char>,
    email: Seq<char>,
)
    requires
        email_in(email, contacts),
    ensures
        after_submission(contacts, next_id, name, email) == contacts,
        after_submission(contacts, next_id, name, email).len() == contacts.len(),
{
}

/// The list is shown backwards, so a contact that was just accepted comes
/// first, above the others in the order in which they were shown before.
pub proof fn lemma_newest_shown_first(
    contacts: Seq<ContactView>,
    next_id: usize,
    name: Seq<char>,
    email: Seq<char>,
)
    requires
        !email_in(email, contacts),
    ensures
        after_submission(contacts, next_id, name, email).reverse() == seq![
            admitted(name, email, next_id),
        ] + contacts.reverse(),
{
    assert(after_submission(contacts, next_id, name, email).reverse() =~= seq![
        admitted(name, email, next_id),
    ] + contacts.reverse());
}

/// Whatever was submitted in whatever order, the list shown is the stored
/// list backwards: its ids fall, so a contact stands above every contact
/// that was accepted before it.
pub proof fn lemma_shown_ids_descend(contacts: Seq<ContactView>, next_id: usize)
    requires
        ids_ascend_below(contacts, next_id),
    ensures
        forall|i: int, j: int|
            0 <= i < j < contacts.len() ==> (#[trigger] contacts.reverse()[i]).id > (
            #[trigger] contacts.reverse()[j]).id,
{
    assert forall|i: int, j: int| 0 <= i < j < contacts.len() implies (#[trigger] contacts.reverse()[i]).id
        > (#[trigger] contacts.reverse()[j]).id by {
        let a = contacts.len() - 1 - i;
        let b = contacts.len() - 1 - j;
        assert(contacts[b].id < contacts[a].id);
    }
}

} // verus!
