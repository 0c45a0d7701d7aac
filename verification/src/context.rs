//! Which block of which template each request renders, and with what.
//!
//! Every page is one template whose named blocks can be rendered alone. A
//! request names the template, the block and a context that holds exactly
//! what that block reads.

use vstd::prelude::*;
use crate::contact::{views, Contact, ContactView};
use crate::form::{duplicate_email_form, empty_form, FormData, FormRejectionData, FormRejectionView};

verus! {

/// What a block is rendered with, one variant for each shape that is in use.
pub enum Context {
    /// Nothing at all.
    Empty,
    /// The counter's value, under `count`.
    Count { count: usize },
    /// The contacts in the order of display, under `contacts`, and the state
    /// of the form, under `formdata`.
    Contacts { contacts: Vec<Contact>, formdata: FormRejectionData },
    /// The state of the form, under `formdata`.
    Form { formdata: FormRejectionData },
    /// One contact, under `contact`.
    NewContact { contact: Contact },
}

/// What a context holds, as plain values.
pub ghost enum ContextView {
    Empty,
    Count { count: nat },
    Contacts { contacts: Seq<ContactView>, formdata: FormRejectionView },
    Form { formdata: FormRejectionView },
    NewContact { contact: ContactView },
}

impl View for Context {
    type V = ContextView;

    open spec fn view(&self) -> ContextView {
        match *self {
            Context::Empty => ContextView::Empty,
            Context::Count { count } => ContextView::Count { count: count as nat },
            Context::Contacts { contacts, formdata } => ContextView::Contacts {
                contacts: views(contacts@),
                formdata: formdata@,
            },
            Context::Form { formdata } => ContextView::Form { formdata: formdata@ },
            Context::NewContact { contact } => ContextView::NewContact { contact: contact@ },
        }
    }
}

impl Context {
    /// The form state that the context carries, if it carries one, is well formed.
    pub open spec fn wf(&self) -> bool {
        match *self {
            Context::Contacts { contacts, formdata } => formdata.wf(),
            Context::Form { formdata } => formdata.wf(),
            _ => true,
        }
    }
}

/// One block of one template, and the context to render it with.
pub struct BlockRequest {
    pub template: &'static str,
    pub block: &'static str,
    pub context: Context,
}

/// What a request asks for, as plain values.
pub ghost struct BlockRequestView {
    pub template: Seq<char>,
    pub block: Seq<char>,
    pub context: ContextView,
}

impl View for BlockRequest {
    type V = BlockRequestView;

    open spec fn view(&self) -> BlockRequestView {
        BlockRequestView { template: self.template@, block: self.block@, context: self.context@ }
    }
}

/// The request for the start page.
pub open spec fn index_block() -> BlockRequestView {
    BlockRequestView { template: "base.html"@, block: "index"@, context: ContextView::Empty }
}

/// The request for the whole counter, showing `count`.
pub open spec fn counter_block(count: nat) -> BlockRequestView {
    BlockRequestView {
        template: "counter.html"@,
        block: "counter"@,
        context: ContextView::Count { count },
    }
}

/// The request for the counter's numeral alone, showing `count`.
pub open spec fn count_block(count: nat) -> BlockRequestView {
    BlockRequestView {
        template: "counter.html"@,
        block: "count"@,
        context: ContextView::Count { count },
    }
}

/// The request for the contact list with an empty form: the contacts are
/// shown newest first, which is the stored order backwards.
pub open spec fn contacts_block(stored: Seq<ContactView>) -> BlockRequestView {
    BlockRequestView {
        template: "contacts.html"@,
        block: "contacts"@,
        context: ContextView::Contacts { contacts: stored.reverse(), formdata: empty_form() },
    }
}

/// The request for the form alone, in the state `formdata`.
pub open spec fn form_block(formdata: FormRejectionView) -> BlockRequestView {
    BlockRequestView {
        template: "contacts.html"@,
        block: "form"@,
        context: ContextView::Form { formdata },
    }
}

/// The request for the fragment that adds `contact` to a list already shown.
pub open spec fn oob_contact_block(contact: ContactView) -> BlockRequestView {
    BlockRequestView {
        template: "contacts.html"@,
        block: "oob_contact"@,
        context: ContextView::NewContact { contact },
    }
}

/// The contacts of `stored`, last one first.
pub fn newest_first(stored: &[Contact]) -> (shown: Vec<Contact>)
    ensures
        views(shown@) == views(stored@).reverse(),
{
    let mut shown: Vec<Contact> = Vec::new();
    let mut left: usize = stored.len();
    while left > 0
        invariant
            left <= stored.len(),
            shown@.len() == stored.len() - left,
            forall|k: int| 0 <= k < shown@.len() ==> (#[trigger] shown@[k])@ == stored@[stored.len() - 1 - k]@,
        decreases left,
    {
        left -= 1;
        shown.push(stored[left].clone());
    }
    proof {
        assert(views(shown@) =~= views(stored@).reverse());
    }
    shown
}

/// Asks for the start page.
pub fn index_request() -> (request: BlockRequest)
    ensures
        request@ == index_block(),
        request.context.wf(),
{
    BlockRequest { template: "base.html", block: "index", context: Context::Empty }
}

/// Asks for the whole counter.
pub fn counter_request(count: usize) -> (request: BlockRequest)
    ensures
        request@ == counter_block(count as nat),
        request.context.wf(),
{
    BlockRequest { template: "counter.html", block: "counter", context: Context::Count { count } }
}

/// Asks for the numeral alone: after an increment nothing else has changed.
pub fn count_request(count: usize) -> (request: BlockRequest)
    ensures
        request@ == count_block(count as nat),
        request.context.wf(),
{
    BlockRequest { template: "counter.html", block: "count", context: Context::Count { count } }
}

/// Asks for the contact list, newest contact first, above an empty form.
pub fn contacts_request(stored: &[Contact]) -> (request: BlockRequest)
    ensures
        request@ == contacts_block(views(stored@)),
        request.context.wf(),
{
    BlockRequest {
        template: "contacts.html",
        block: "contacts",
        context: Context::Contacts { contacts: newest_first(stored), formdata: FormRejectionData::new() },
    }
}

/// Asks for the form with nothing in it, as it is shown after a submission
/// that was accepted.
pub fn cleared_form_request() -> (request: BlockRequest)
    ensures
        request@ == form_block(empty_form()),
        request.context.wf(),
{
    form_request(FormRejectionData::new())
}

/// Asks for the form as it goes back to a sender whose address is taken: with
/// the name and the address as submitted, and the complaint under `email`.
pub fn rejected_form_request(form: &FormData) -> (request: BlockRequest)
    ensures
        request@ == form_block(duplicate_email_form(form.name@, form.email@)),
        request.context.wf(),
{
    form_request(FormRejectionData::duplicate_email(form))
}

/// Asks for the form in the state `formdata`.
pub fn form_request(formdata: FormRejectionData) -> (request: BlockRequest)
    ensures
        request@ == form_block(formdata@),
        formdata.wf() ==> request.context.wf(),
{
    BlockRequest { template: "contacts.html", block: "form", context: Context::Form { formdata } }
}

/// Asks for the fragment that carries a contact just added into the list
/// that the sender already shows.
pub fn oob_contact_request(contact: Contact) -> (request: BlockRequest)
    ensures
        request@ == oob_contact_block(contact@),
        request.context.wf(),
{
    BlockRequest {
        template: "contacts.html",
        block: "oob_contact",
        context: Context::NewContact { contact },
    }
}

/// Reading the counter twice with no increment in between asks for the same
/// block with the same context: the request depends on the value alone.
pub proof fn lemma_counter_request_repeats(first: BlockRequest, second: BlockRequest, count: nat)
    requires
        first@ == counter_block(count),
        second@ == counter_block(count),
    ensures
        first@ == second@,
{
}

} // verus!
