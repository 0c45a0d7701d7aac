//! One handler for each route: it reads or changes one store, asks for the
//! blocks that have changed and puts the fragments into a reply.
//!
//! Each handler comes in two parts. The store operation is the critical
//! section: a caller that shares the store holds its lock for that call and
//! no longer. The `render_*` function then takes what the store answered and
//! renders without any store. The `*_handler` functions do both in a row for
//! a caller that has the store to itself.

use vstd::prelude::*;
use vstd::string::StringExecFns;
use crate::contact::{email_in, Contact};
use crate::context::{
    cleared_form_request,
    contacts_request,
    count_request,
    counter_request,
    index_request,
    oob_contact_request,
    rejected_form_request,
};
use crate::counter::{incremented, CounterStore};
use crate::form::FormData;
use crate::render::{render_request, AppState, RenderError};
use crate::store::{after_submission, ContactStore, DuplicateEmail};

verus! {

/// The outcome that a reply reports.
#[derive(Clone, Copy, Debug, PartialEq, Eq, Structural)]
pub enum Status {
    /// The request was served.
    Success,
    /// The submission was turned down and nothing was stored.
    UnprocessableEntity,
    /// No route matches.
    NotFound,
}

impl Status {
    /// The HTTP status code of the outcome.
    pub open spec fn spec_code(self) -> u16 {
        match self {
            Status::Success => 200,
            Status::UnprocessableEntity => 422,
            Status::NotFound => 404,
        }
    }

    /// The HTTP status code of the outcome.
    #[verifier::when_used_as_spec(spec_code)]
    pub fn code(self) -> (code: u16)
        ensures
            code == self.spec_code(),
    {
        match self {
            Status::Success => 200,
            Status::UnprocessableEntity => 422,
            Status::NotFound => 404,
        }
    }
}

/// What goes back to the sender: a status and the fragments as one text.
#[derive(Debug)]
pub struct Reply {
    pub status: Status,
    pub body: String,
}

/// What a reply holds, as plain values.
pub ghost struct ReplyView {
    pub status: Status,
    pub body: Seq<char>,
}

impl View for Reply {
    type V = ReplyView;

    open spec fn view(&self) -> ReplyView {
        ReplyView { status: self.status, body: self.body@ }
    }
}

/// The status of the reply to a submission: served where the address was
/// free, turned down where it was taken.
pub open spec fn submission_status(taken: bool) -> Status {
    if taken {
        Status::UnprocessableEntity
    } else {
        Status::Success
    }
}

/// The reply that serves one fragment.
pub fn fragment_reply(fragment: String) -> (reply: Reply)
    ensures
        reply@ == (ReplyView { status: Status::Success, body: fragment@ }),
{
    Reply { status: Status::Success, body: fragment }
}

/// The reply to an accepted submission: the cleared form, and behind it the
/// fragment that carries the new contact into the list already shown.
pub fn accepted_reply(form_fragment: String, contact_fragment: String) -> (reply: Reply)
    ensures
        reply@ == (ReplyView { status: Status::Success, body: form_fragment@ + contact_fragment@ }),
{
    Reply { status: Status::Success, body: form_fragment.concat(contact_fragment.as_str()) }
}

/// The reply to a submission that was turned down: the form alone, with what
/// was submitted and the complaint.
pub fn rejected_reply(form_fragment: String) -> (reply: Reply)
    ensures
        reply@ == (ReplyView { status: Status::UnprocessableEntity, body: form_fragment@ }),
{
    Reply { status: Status::UnprocessableEntity, body: form_fragment }
}

/// The reply to a request that no route matches.
pub fn not_found_handler() -> (reply: Reply)
    ensures
        reply@ == (ReplyView { status: Status::NotFound, body: "This site does not exist :("@ }),
{
    Reply { status: Status::NotFound, body: "This site does not exist :(".to_owned() }
}

/// Serves the start page.
pub fn index_handler(state: &AppState) -> (outcome: Result<Reply, RenderError>)
    ensures
        outcome is Ok ==> outcome->Ok_0.status == Status::Success,
{
    match render_request(state, &index_request()) {
        Ok(fragment) => Ok(fragment_reply(fragment)),
        Err(error) => Err(error),
    }
}

/// Serves the whole counter for the value `count`.
pub fn render_counter(state: &AppState, count: usize) -> (outcome: Result<Reply, RenderError>)
    ensures
        outcome is Ok ==> outcome->Ok_0.status == Status::Success,
{
    match render_request(state, &counter_request(count)) {
        Ok(fragment) => Ok(fragment_reply(fragment)),
        Err(error) => Err(error),
    }
}

/// Serves the numeral alone for the value `count`.
pub fn render_count(state: &AppState, count: usize) -> (outcome: Result<Reply, RenderError>)
    ensures
        outcome is Ok ==> outcome->Ok_0.status == Status::Success,
{
    match render_request(state, &count_request(count)) {
        Ok(fragment) => Ok(fragment_reply(fragment)),
        Err(error) => Err(error),
    }
}

/// Serves the contact list for the contacts `stored`, newest first, above
/// an empty form.
pub fn render_contacts(state: &AppState, stored: &[Contact]) -> (outcome: Result<Reply, RenderError>)
    ensures
        outcome is Ok ==> outcome->Ok_0.status == Status::Success,
{
    match render_request(state, &contacts_request(stored)) {
        Ok(fragment) => Ok(fragment_reply(fragment)),
        Err(error) => Err(error),
    }
}

/// Answers a submission by what the store made of it.
///
/// Accepted: the cleared form and the fragment for the new contact, served.
/// Turned down: the form with what was submitted and the complaint, as a
/// submission that cannot be processed.
pub fn render_submission(state: &AppState, form: &FormData, verdict: Result<Contact, DuplicateEmail>) -> (outcome:
    Result<Reply, RenderError>)
    ensures
        outcome is Ok ==> outcome->Ok_0.status == submission_status(verdict is Err),
{
    match verdict {
        Ok(contact) => {
            let form_fragment = match render_request(state, &cleared_form_request()) {
                Ok(fragment) => fragment,
                Err(error) => {
                    return Err(error);
                },
            };
            let contact_fragment = match render_request(state, &oob_contact_request(contact)) {
                Ok(fragment) => fragment,
                Err(error) => {
                    return Err(error);
                },
            };
            Ok(accepted_reply(form_fragment, contact_fragment))
        },
        Err(_) => {
            match render_request(state, &rejected_form_request(form)) {
                Ok(fragment) => Ok(rejected_reply(fragment)),
                Err(error) => Err(error),
            }
        },
    }
}

/// Reads the counter and serves it whole. The counter stays as it is.
pub fn counter_handler(state: &AppState, count: &CounterStore) -> (outcome: Result<Reply, RenderError>)
    ensures
        outcome is Ok ==> outcome->Ok_0.status == Status::Success,
{
    render_counter(state, count.read())
}

/// Adds one to the counter and serves the new numeral. The increment stands
/// whether or not the numeral could be rendered.
pub fn increment_handler(state: &AppState, count: &mut CounterStore) -> (outcome: Result<Reply, RenderError>)
    requires
        old(count)@ < usize::MAX,
    ensures
        final(count)@ == incremented(old(count)@),
        outcome is Ok ==> outcome->Ok_0.status == Status::Success,
{
    let value = count.increment();
    render_count(state, value)
}

/// Reads the contacts and serves the list. The store stays as it is.
pub fn contacts_handler(state: &AppState, contacts: &ContactStore) -> (outcome: Result<Reply, RenderError>)
    ensures
        outcome is Ok ==> outcome->Ok_0.status == Status::Success,
{
    let stored = contacts.list_all();
    render_contacts(state, stored.as_slice())
}

/// Submits the form to the store and answers by the verdict. What the store
/// holds afterwards stands whether or not the answer could be rendered.
pub fn add_contact_handler(state: &AppState, contacts: &mut ContactStore, form: &FormData) -> (outcome: Result<
    Reply,
    RenderError,
>)
    requires
        old(contacts).wf(),
        old(contacts).next_id() < usize::MAX,
    ensures
        final(contacts).wf(),
        final(contacts)@ == after_submission(
            old(contacts)@,
            old(contacts).next_id(),
            form.name@,
            form.email@,
        ),
        outcome is Ok ==> outcome->Ok_0.status == submission_status(
            email_in(form.email@, old(contacts)@),
        ),
{
    let verdict = contacts.insert_if_absent(form.name.as_str(), form.email.as_str());
    render_submission(state, form, verdict)
}

} // verus!
