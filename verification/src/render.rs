//! Rendering one named block of a template with minijinja.
//!
//! The engine is used as it stands: it finds the template, evaluates it and
//! renders the block. Verus reads none of it. What is verified here is the
//! way to the engine and back: that the value handed to the engine holds what
//! the context stands for, in which order the engine is asked, and which
//! failure each step stands for.

use vstd::prelude::*;
use crate::contact::{views, Contact, ContactView};
use crate::context::{BlockRequest, Context};
use crate::form::{has_key, key_index, FieldMap, FormRejectionData};
use crate::shape::{
    contact_shape,
    context_shape,
    field_map_shape,
    field_names_distinct,
    form_shape,
    holds_fields,
    lemma_fields_pin_the_record,
    Shape,
};

verus! {

/// `minijinja::Environment`: the engine with its templates, carried as it is.
#[verifier::external_type_specification]
#[verifier::external_body]
pub struct ExEnvironment<'source>(minijinja::Environment<'source>);

/// `minijinja::Template`: a template that the engine has found, carried as it is.
#[verifier::external_type_specification]
#[verifier::external_body]
pub struct ExTemplate<'env: 'source, 'source>(minijinja::Template<'env, 'source>);

/// `minijinja::State`: a template after its evaluation, carried as it is.
#[verifier::external_type_specification]
#[verifier::external_body]
pub struct ExState<'template, 'env>(minijinja::State<'template, 'env>);

/// `minijinja::Value`: a value as the engine's templates read it, carried as it is.
#[verifier::external_type_specification]
#[verifier::external_body]
pub struct ExValue(minijinja::Value);

/// `minijinja::Error`: what the engine reports when a step fails, carried as it is.
#[verifier::external_type_specification]
#[verifier::external_body]
pub struct ExError(minijinja::Error);

/// Why a block could not be rendered. Each of these is a fault of the
/// deployment or of the program, never of what a user sent.
#[derive(Clone, Copy, Debug, PartialEq, Eq, Structural)]
pub enum RenderError {
    /// The template could not be loaded.
    TemplateNotFound,
    /// The template has no block of that name.
    BlockNotFound,
    /// An expression of the template could not be evaluated with the context.
    RenderEvaluationError,
}

/// What all handlers share: the engine with its templates.
pub struct AppState {
    tpl_env: minijinja::Environment<'static>,
}

impl AppState {
    /// The engine that the blocks are rendered with.
    pub closed spec fn engine(&self) -> minijinja::Environment<'static> {
        self.tpl_env
    }

    /// The shared state around the engine `tpl_env`.
    pub fn new(tpl_env: minijinja::Environment<'static>) -> (state: AppState)
        ensures
            state.engine() == tpl_env,
    {
        AppState { tpl_env }
    }
}

/// `Environment::get_template`: looks the template up by name, loading it
/// where the engine has a loader. Nothing is claimed of the outcome.
#[verifier::external_body]
fn get_template<'a>(env: &'a minijinja::Environment<'static>, name: &str) -> (found: Result<
    minijinja::Template<'a, 'a>,
    minijinja::Error,
>) {
    env.get_template(name)
}

/// `Template::eval_to_state`: evaluates the template with `ctx` as its root
/// and drops the output. Nothing is claimed of the outcome.
#[verifier::external_body]
#[allow(deprecated)]
fn eval_to_state<'t, 'e>(tpl: &'t minijinja::Template<'e, 'e>, ctx: &minijinja::Value) -> (state: Result<
    minijinja::State<'t, 'e>,
    minijinja::Error,
>) {
    tpl.eval_to_state(ctx)
}

/// `State::render_block`: renders the named block of an evaluated template
/// into a string. Nothing is claimed of the outcome.
#[verifier::external_body]
fn render_state_block(state: &mut minijinja::State<'_, '_>, block: &str) -> (fragment: Result<
    String,
    minijinja::Error,
>) {
    state.render_block(block)
}

/// `Error::kind`, held against `ErrorKind::UnknownBlock`. Nothing is claimed
/// of the answer.
#[verifier::external_body]
fn is_unknown_block(error: &minijinja::Error) -> (unknown: bool) {
    matches!(error.kind(), minijinja::ErrorKind::UnknownBlock)
}

/// What a value of the engine holds, as a template reads it.
pub uninterp spec fn shape_of(value: minijinja::Value) -> Shape;

/// What each value of a list holds, in the list's order.
pub open spec fn item_shapes(items: Seq<minijinja::Value>) -> Seq<Shape> {
    items.map_values(|item: minijinja::Value| shape_of(item))
}

/// The key of each pair and what its value holds, in the list's order.
pub open spec fn field_shapes(fields: Seq<(String, minijinja::Value)>) -> Seq<(Seq<char>, Shape)> {
    fields.map_values(|field: (String, minijinja::Value)| (field.0@, shape_of(field.1)))
}

/// `Value::from` on a `usize`: the value is that number.
#[verifier::external_body]
fn number_value(number: usize) -> (value: minijinja::Value)
    ensures
        shape_of(value) == Shape::Number(number as nat),
{
    minijinja::Value::from(number)
}

/// `Value::from` on a `&str`: the value is that text.
#[verifier::external_body]
fn text_value(text: &str) -> (value: minijinja::Value)
    ensures
        shape_of(value) == Shape::Text(text@),
{
    minijinja::Value::from(text)
}

/// `Value::from` on a `Vec<Value>`: the value is the sequence of the items,
/// in their order.
#[verifier::external_body]
fn list_value(items: Vec<minijinja::Value>) -> (value: minijinja::Value)
    ensures
        shape_of(value) == Shape::List(item_shapes(items@)),
{
    minijinja::Value::from(items)
}

/// `Value::from_iter` on pairs of key and value: the value is a record with
/// the keys of the pairs. The engine collects the pairs into a sorted map,
/// and which of two pairs with the same key stays is left open there: under
/// each key the record has the value of one of them.
#[verifier::external_body]
fn record_value(fields: Vec<(String, minijinja::Value)>) -> (value: minijinja::Value)
    ensures
        shape_of(value) is Record,
        holds_fields(shape_of(value)->Record_0, field_shapes(fields@)),
{
    minijinja::Value::from_iter(fields)
}

/// What the engine answered to the three steps of rendering a block.
pub enum EngineAnswer {
    /// The lookup of the template failed.
    NoTemplate,
    /// The template was found, and its evaluation with the context failed.
    NoEvaluation,
    /// The template was evaluated, and it has no block of the name asked for.
    NoBlock,
    /// The block is there, and rendering it failed.
    BlockFailed,
    /// The block was rendered to this text.
    Rendered(String),
}

/// What an answer of the engine means to a handler, as plain values.
pub open spec fn meaning(answer: EngineAnswer) -> Result<Seq<char>, RenderError> {
    match answer {
        EngineAnswer::NoTemplate => Err(RenderError::TemplateNotFound),
        EngineAnswer::NoEvaluation => Err(RenderError::RenderEvaluationError),
        EngineAnswer::NoBlock => Err(RenderError::BlockNotFound),
        EngineAnswer::BlockFailed => Err(RenderError::RenderEvaluationError),
        EngineAnswer::Rendered(fragment) => Ok(fragment@),
    }
}

/// The same result with its fragment as plain values.
pub open spec fn fragment_view(fragment: Result<String, RenderError>) -> Result<Seq<char>, RenderError> {
    match fragment {
        Ok(text) => Ok(text@),
        Err(error) => Err(error),
    }
}

/// The fragment or the failure that an answer of the engine stands for.
pub fn fragment_or_error(answer: EngineAnswer) -> (fragment: Result<String, RenderError>)
    ensures
        fragment_view(fragment) == meaning(answer),
{
    match answer {
        EngineAnswer::NoTemplate => Err(RenderError::TemplateNotFound),
        EngineAnswer::NoEvaluation => Err(RenderError::RenderEvaluationError),
        EngineAnswer::NoBlock => Err(RenderError::BlockNotFound),
        EngineAnswer::BlockFailed => Err(RenderError::RenderEvaluationError),
        EngineAnswer::Rendered(fragment) => Ok(fragment),
    }
}

impl RenderError {
    /// The failure in words.
    pub fn message(&self) -> (text: &'static str)
        ensures
            text@ == match *self {
                RenderError::TemplateNotFound => "Failed to get template"@,
                RenderError::BlockNotFound => "Failed to render block"@,
                RenderError::RenderEvaluationError => "Failed to evaluate template"@,
            },
    {
        match self {
            RenderError::TemplateNotFound => "Failed to get template",
            RenderError::BlockNotFound => "Failed to render block",
            RenderError::RenderEvaluationError => "Failed to evaluate template",
        }
    }
}

/// A contact as the record `{name, email, id}`.
fn contact_value(contact: &Contact) -> (value: minijinja::Value)
    ensures
        shape_of(value) == contact_shape(contact@),
{
    let mut fields: Vec<(String, minijinja::Value)> = Vec::new();
    fields.push(("name".to_owned(), text_value(contact.name.as_str())));
    fields.push(("email".to_owned(), text_value(contact.email.as_str())));
    fields.push(("id".to_owned(), number_value(contact.id)));
    let ghost pairs = field_shapes(fields@);
    let value = record_value(fields);
    proof {
        reveal_strlit("name");
        reveal_strlit("email");
        reveal_strlit("id");
        assert("name"@.len() == 4 && "email"@.len() == 5 && "id"@.len() == 2);
        let expected = contact_shape(contact@)->Record_0;
        assert(pairs[0] == ("name"@, Shape::Text(contact.name@)));
        assert(pairs[1] == ("email"@, Shape::Text(contact.email@)));
        assert(pairs[2] == ("id"@, Shape::Number(contact.id as nat)));
        assert(holds_fields(expected, pairs));
        lemma_fields_pin_the_record(shape_of(value)->Record_0, expected, pairs);
    }
    value
}

/// A field map as a record with one text for each key.
fn field_map_value(map: &FieldMap) -> (value: minijinja::Value)
    ensures
        shape_of(value) is Record,
        map.wf() ==> shape_of(value) == field_map_shape(map@),
{
    let mut fields: Vec<(String, minijinja::Value)> = Vec::new();
    let mut i: usize = 0;
    while i < map.len()
        invariant
            i <= map.entries().len(),
            fields@.len() == i,
            forall|j: int|
                0 <= j < i ==> (#[trigger] fields@[j]).0@ == map.entries()[j].0@ && shape_of(fields@[j].1)
                    == Shape::Text(map.entries()[j].1@),
        decreases map.entries().len() - i,
    {
        let (key, text) = map.entry(i);
        fields.push((key.to_owned(), text_value(text)));
        i += 1;
    }
    let ghost pairs = field_shapes(fields@);
    let value = record_value(fields);
    proof {
        if map.wf() {
            let entries = map.entries();
            let expected = field_map_shape(map@)->Record_0;
            assert forall|j: int| 0 <= j < pairs.len() implies expected.contains_key((#[trigger] pairs[j]).0) by {
                assert(has_key(entries, entries[j].0@));
            }
            assert forall|key: Seq<char>| #[trigger] expected.contains_key(key) implies exists|j: int|
                0 <= j < pairs.len() && (#[trigger] pairs[j]).0 == key && pairs[j].1 == expected[key] by {
                let j = key_index(entries, key);
                assert(pairs[j].0 == key);
            }
            assert forall|j: int, k: int| 0 <= j < k < pairs.len() implies (#[trigger] pairs[j]).0 != (
            #[trigger] pairs[k]).0 by {
                assert(entries[j].0@ != entries[k].0@);
            }
            lemma_fields_pin_the_record(shape_of(value)->Record_0, expected, pairs);
        }
    }
    value
}

/// A form state as the record `{values, errors}`.
fn form_value(formdata: &FormRejectionData) -> (value: minijinja::Value)
    ensures
        shape_of(value) is Record,
        formdata.wf() ==> shape_of(value) == form_shape(formdata@),
{
    let mut fields: Vec<(String, minijinja::Value)> = Vec::new();
    fields.push(("values".to_owned(), field_map_value(formdata.values())));
    fields.push(("errors".to_owned(), field_map_value(formdata.errors())));
    let ghost pairs = field_shapes(fields@);
    let value = record_value(fields);
    proof {
        if formdata.wf() {
            reveal_strlit("values");
            reveal_strlit("errors");
            assert("values"@[0] == 'v' && "errors"@[0] == 'e');
            let expected = form_shape(formdata@)->Record_0;
            assert(pairs[0] == ("values"@, field_map_shape(formdata@.values)));
            assert(pairs[1] == ("errors"@, field_map_shape(formdata@.errors)));
            assert(holds_fields(expected, pairs));
            lemma_fields_pin_the_record(shape_of(value)->Record_0, expected, pairs);
        }
    }
    value
}

/// The contacts as the list of their records, in the order given.
fn contact_list_value(contacts: &Vec<Contact>) -> (value: minijinja::Value)
    ensures
        shape_of(value) == Shape::List(
            views(contacts@).map_values(|contact: ContactView| contact_shape(contact)),
        ),
{
    let mut items: Vec<minijinja::Value> = Vec::new();
    let mut i: usize = 0;
    while i < contacts.len()
        invariant
            i <= contacts.len(),
            items@.len() == i,
            forall|j: int| 0 <= j < i ==> shape_of(#[trigger] items@[j]) == contact_shape(contacts@[j]@),
        decreases contacts.len() - i,
    {
        items.push(contact_value(&contacts[i]));
        i += 1;
    }
    proof {
        assert(item_shapes(items@) =~= views(contacts@).map_values(
            |contact: ContactView| contact_shape(contact),
        ));
    }
    list_value(items)
}

/// A context as the record that the block reads its names from.
fn context_value(context: &Context) -> (value: minijinja::Value)
    ensures
        shape_of(value) is Record,
        context.wf() ==> shape_of(value) == context_shape(context@),
{
    let mut fields: Vec<(String, minijinja::Value)> = Vec::new();
    match context {
        Context::Empty => {},
        Context::Count { count } => {
            fields.push(("count".to_owned(), number_value(*count)));
        },
        Context::Contacts { contacts, formdata } => {
            fields.push(("contacts".to_owned(), contact_list_value(contacts)));
            fields.push(("formdata".to_owned(), form_value(formdata)));
        },
        Context::Form { formdata } => {
            fields.push(("formdata".to_owned(), form_value(formdata)));
        },
        Context::NewContact { contact } => {
            fields.push(("contact".to_owned(), contact_value(contact)));
        },
    }
    let ghost pairs = field_shapes(fields@);
    let value = record_value(fields);
    proof {
        if context.wf() {
            reveal_strlit("contacts");
            reveal_strlit("formdata");
            assert("contacts"@[0] == 'c' && "formdata"@[0] == 'f');
            let expected = context_shape(context@)->Record_0;
            assert(holds_fields(expected, pairs)) by {
                match *context {
                    Context::Empty => {},
                    Context::Count { count } => {
                        assert(pairs[0] == ("count"@, Shape::Number(count as nat)));
                    },
                    Context::Contacts { contacts, formdata } => {
                        assert(pairs[0].0 == "contacts"@);
                        assert(pairs[1] == ("formdata"@, form_shape(formdata@)));
                    },
                    Context::Form { formdata } => {
                        assert(pairs[0] == ("formdata"@, form_shape(formdata@)));
                    },
                    Context::NewContact { contact } => {
                        assert(pairs[0] == ("contact"@, contact_shape(contact@)));
                    },
                }
            }
            lemma_fields_pin_the_record(shape_of(value)->Record_0, expected, pairs);
        }
    }
    value
}

/// Asks the engine for the block, step by step, and says how far it came.
fn ask_engine(state: &AppState, tpl_name: &str, tpl_ctx: &Context, tpl_blk: &str) -> EngineAnswer {
    let tpl = match get_template(&state.tpl_env, tpl_name) {
        Ok(tpl) => tpl,
        Err(_) => {
            return EngineAnswer::NoTemplate;
        },
    };
    let root = context_value(tpl_ctx);
    let mut tpl_state = match eval_to_state(&tpl, &root) {
        Ok(tpl_state) => tpl_state,
        Err(_) => {
            return EngineAnswer::NoEvaluation;
        },
    };
    match render_state_block(&mut tpl_state, tpl_blk) {
        Ok(fragment) => EngineAnswer::Rendered(fragment),
        Err(error) => if is_unknown_block(&error) {
            EngineAnswer::NoBlock
        } else {
            EngineAnswer::BlockFailed
        },
    }
}

/// Renders the block `tpl_blk` of the template `tpl_name` with `tpl_ctx`.
///
/// The engine decides the outcome, and nothing is proved of it: the result is
/// what `fragment_or_error` makes of the engine's answer.
pub fn render_block(state: &AppState, tpl_name: &str, tpl_ctx: &Context, tpl_blk: &str) -> (fragment: Result<
    String,
    RenderError,
>) {
    fragment_or_error(ask_engine(state, tpl_name, tpl_ctx, tpl_blk))
}

/// Renders what `request` asks for.
pub fn render_request(state: &AppState, request: &BlockRequest) -> (fragment: Result<String, RenderError>) {
    render_block(state, request.template, &request.context, request.block)
}

} // verus!
