use fragments::contact::Contact;
use fragments::context::{
    cleared_form_request, contacts_request, count_request, counter_request, form_request, index_request,
    newest_first, oob_contact_request, rejected_form_request, Context,
};
use fragments::form::{FormData, FormRejectionData};
use fragments::render::{fragment_or_error, render_block, render_request, AppState, EngineAnswer, RenderError};
use minijinja::Environment;

const BASE: &str = "<html><body>{% block index %}<h1>Welcome</h1>{% endblock %}</body></html>";

const COUNTER: &str = "{% block counter %}<div id=\"counter\"><span id=\"count\">\
{% block count %}{{ count }}{% endblock %}</span><button>+</button></div>{% endblock %}";

const CONTACTS: &str = "{% block contacts %}<div id=\"contacts\">\
{% block form %}{% if formdata %}<form>\
<input name=\"name\" value=\"{{ formdata.values.name }}\">\
<input name=\"email\" value=\"{{ formdata.values.email }}\">\
{% if formdata.errors.email %}<p class=\"error\">{{ formdata.errors.email }}</p>{% endif %}\
</form>{% endif %}{% endblock %}\
<ul id=\"list\">{% for contact in contacts %}\
<li id=\"contact-{{ contact.id }}\">{{ contact.name }} ({{ contact.email }})</li>\
{% endfor %}</ul></div>{% endblock %}\
{% block oob_contact %}{% if contact %}<ul hx-swap-oob=\"afterbegin:#list\">\
<li id=\"contact-{{ contact.id }}\">{{ contact.name }} ({{ contact.email }})</li></ul>{% endif %}{% endblock %}";

const BROKEN: &str = "{% block shown %}{{ missing.field }}{% endblock %}";

const GUARDED: &str = "{% if flag %}{% block guarded %}{{ missing.field }}{% endblock %}{% endif %}";

const FIELDS: &str = "{% block all %}{% if formdata %}\
{% for key, value in formdata.values|items %}[{{ key }}={{ value }}]{% endfor %}\
{% for key, value in formdata.errors|items %}<{{ key }}={{ value }}>{% endfor %}{% endif %}{% endblock %}";

fn app_state() -> AppState {
    let mut env = Environment::new();
    env.add_template("base.html", BASE).unwrap();
    env.add_template("counter.html", COUNTER).unwrap();
    env.add_template("contacts.html", CONTACTS).unwrap();
    env.add_template("broken.html", BROKEN).unwrap();
    env.add_template("guarded.html", GUARDED).unwrap();
    env.add_template("fields.html", FIELDS).unwrap();
    AppState::new(env)
}

const EMPTY_FORM: &str = "<form><input name=\"name\" value=\"\"><input name=\"email\" value=\"\"></form>";

#[test]
fn count_block_shows_the_numeral_alone() {
    let state = app_state();
    let fragment = render_block(&state, "counter.html", &Context::Count { count: 1 }, "count");
    assert_eq!(fragment, Ok("1".to_string()));
}

#[test]
fn counter_block_shows_the_whole_counter() {
    let state = app_state();
    let fragment = render_block(&state, "counter.html", &Context::Count { count: 5 }, "counter").unwrap();
    assert_eq!(fragment, "<div id=\"counter\"><span id=\"count\">5</span><button>+</button></div>");
    assert!(fragment.contains("5"));
}

#[test]
fn count_block_shows_large_values() {
    let state = app_state();
    let fragment = render_block(&state, "counter.html", &Context::Count { count: usize::MAX }, "count");
    assert_eq!(fragment, Ok(usize::MAX.to_string()));
}

#[test]
fn index_block_needs_no_context() {
    let state = app_state();
    let fragment = render_block(&state, "base.html", &Context::Empty, "index");
    assert_eq!(fragment, Ok("<h1>Welcome</h1>".to_string()));
}

#[test]
fn only_the_named_block_is_rendered() {
    let state = app_state();
    let fragment = render_block(&state, "base.html", &Context::Empty, "index").unwrap();
    assert!(!fragment.contains("<html>"));
    assert!(!fragment.contains("<body>"));
}

#[test]
fn unknown_template_is_template_not_found() {
    let state = app_state();
    let fragment = render_block(&state, "nowhere.html", &Context::Empty, "index");
    assert_eq!(fragment, Err(RenderError::TemplateNotFound));
}

#[test]
fn unknown_block_is_block_not_found() {
    let state = app_state();
    let fragment = render_block(&state, "counter.html", &Context::Count { count: 1 }, "nowhere");
    assert_eq!(fragment, Err(RenderError::BlockNotFound));
}

#[test]
fn failing_expression_is_render_evaluation_error() {
    let state = app_state();
    let fragment = render_block(&state, "broken.html", &Context::Empty, "shown");
    assert_eq!(fragment, Err(RenderError::RenderEvaluationError));
}

#[test]
fn failing_block_is_render_evaluation_error() {
    let state = app_state();
    let fragment = render_block(&state, "guarded.html", &Context::Empty, "guarded");
    assert_eq!(fragment, Err(RenderError::RenderEvaluationError));
}

#[test]
fn template_is_looked_up_before_the_block() {
    let state = app_state();
    let fragment = render_block(&state, "nowhere.html", &Context::Empty, "nowhere");
    assert_eq!(fragment, Err(RenderError::TemplateNotFound));
}

#[test]
fn engine_answers_map_to_fragment_or_failure() {
    assert_eq!(fragment_or_error(EngineAnswer::NoTemplate), Err(RenderError::TemplateNotFound));
    assert_eq!(fragment_or_error(EngineAnswer::NoEvaluation), Err(RenderError::RenderEvaluationError));
    assert_eq!(fragment_or_error(EngineAnswer::NoBlock), Err(RenderError::BlockNotFound));
    assert_eq!(fragment_or_error(EngineAnswer::BlockFailed), Err(RenderError::RenderEvaluationError));
    assert_eq!(
        fragment_or_error(EngineAnswer::Rendered("<p>x</p>".to_string())),
        Ok("<p>x</p>".to_string())
    );
}

#[test]
fn render_error_messages() {
    assert_eq!(RenderError::TemplateNotFound.message(), "Failed to get template");
    assert_eq!(RenderError::BlockNotFound.message(), "Failed to render block");
    assert_eq!(RenderError::RenderEvaluationError.message(), "Failed to evaluate template");
}

#[test]
fn form_block_with_empty_state_is_cleared() {
    let state = app_state();
    let fragment = render_request(&state, &form_request(FormRejectionData::new()));
    assert_eq!(fragment, Ok(EMPTY_FORM.to_string()));
}

#[test]
fn form_block_shows_values_and_error() {
    let state = app_state();
    let form = FormData { name: "Jane R2".to_string(), email: "jane@example.com".to_string() };
    let fragment = render_request(&state, &form_request(FormRejectionData::duplicate_email(&form))).unwrap();
    assert_eq!(
        fragment,
        "<form><input name=\"name\" value=\"Jane R2\"><input name=\"email\" value=\"jane@example.com\">\
<p class=\"error\">Email already exists</p></form>"
    );
}

#[test]
fn every_field_of_a_form_state_reaches_the_template() {
    let state = app_state();
    let mut formdata = FormRejectionData::new();
    formdata.set_value("b", "2");
    formdata.set_value("a", "1");
    formdata.set_value("b", "3");
    formdata.set_error("c", "bad");
    let fragment = render_block(&state, "fields.html", &Context::Form { formdata }, "all");
    assert_eq!(fragment, Ok("[a=1][b=3]<c=bad>".to_string()));
}

#[test]
fn oob_contact_block_shows_the_contact() {
    let state = app_state();
    let contact = Contact::new("Jane Roe", "jane@example.com", 2);
    let fragment = render_request(&state, &oob_contact_request(contact));
    assert_eq!(
        fragment,
        Ok("<ul hx-swap-oob=\"afterbegin:#list\"><li id=\"contact-2\">Jane Roe (jane@example.com)</li></ul>"
            .to_string())
    );
}

#[test]
fn contacts_block_lists_newest_first() {
    let state = app_state();
    let stored = vec![
        Contact::new("John Doe", "johndoe@hotmail.com", 1),
        Contact::new("Jane Roe", "jane@example.com", 2),
        Contact::new("Max Mustermann", "max@example.com", 3),
    ];
    let fragment = render_request(&state, &contacts_request(&stored)).unwrap();
    let expected = format!(
        "<div id=\"contacts\">{}<ul id=\"list\">\
<li id=\"contact-3\">Max Mustermann (max@example.com)</li>\
<li id=\"contact-2\">Jane Roe (jane@example.com)</li>\
<li id=\"contact-1\">John Doe (johndoe@hotmail.com)</li></ul></div>",
        EMPTY_FORM
    );
    assert_eq!(fragment, expected);
}

#[test]
fn contacts_block_of_no_contacts_has_an_empty_list() {
    let state = app_state();
    let fragment = render_request(&state, &contacts_request(&[])).unwrap();
    assert_eq!(fragment, format!("<div id=\"contacts\">{}<ul id=\"list\"></ul></div>", EMPTY_FORM));
}

#[test]
fn text_is_escaped_by_the_engine() {
    let state = app_state();
    let contact = Contact::new("<b>Jane</b>", "jane@example.com", 2);
    let fragment = render_request(&state, &oob_contact_request(contact)).unwrap();
    assert!(fragment.contains("&lt;b&gt;Jane&lt;"));
    assert!(!fragment.contains("<b>"));
}

#[test]
fn newest_first_reverses_the_stored_order() {
    let stored = vec![
        Contact::new("a", "a@example.com", 1),
        Contact::new("b", "b@example.com", 2),
        Contact::new("c", "c@example.com", 3),
    ];
    let shown = newest_first(&stored);
    let names: Vec<&str> = shown.iter().map(|c| c.name.as_str()).collect();
    let ids: Vec<usize> = shown.iter().map(|c| c.id).collect();
    assert_eq!(names, vec!["c", "b", "a"]);
    assert_eq!(ids, vec![3, 2, 1]);
    assert!(newest_first(&[]).is_empty());
}

#[test]
fn newest_first_does_not_sort() {
    let stored = vec![
        Contact::new("b", "b@example.com", 2),
        Contact::new("c", "c@example.com", 3),
        Contact::new("a", "a@example.com", 1),
    ];
    let ids: Vec<usize> = newest_first(&stored).iter().map(|c| c.id).collect();
    assert_eq!(ids, vec![1, 3, 2]);
}

#[test]
fn requests_name_template_and_block() {
    let index = index_request();
    assert_eq!((index.template, index.block), ("base.html", "index"));
    assert!(matches!(index.context, Context::Empty));

    let counter = counter_request(5);
    assert_eq!((counter.template, counter.block), ("counter.html", "counter"));
    assert!(matches!(counter.context, Context::Count { count: 5 }));

    let count = count_request(6);
    assert_eq!((count.template, count.block), ("counter.html", "count"));
    assert!(matches!(count.context, Context::Count { count: 6 }));

    let form = form_request(FormRejectionData::new());
    assert_eq!((form.template, form.block), ("contacts.html", "form"));
    assert!(matches!(form.context, Context::Form { .. }));

    let oob = oob_contact_request(Contact::new("Jane Roe", "jane@example.com", 2));
    assert_eq!((oob.template, oob.block), ("contacts.html", "oob_contact"));
    match oob.context {
        Context::NewContact { contact } => {
            assert_eq!(contact.name, "Jane Roe");
            assert_eq!(contact.email, "jane@example.com");
            assert_eq!(contact.id, 2);
        }
        _ => panic!("the request for a new contact carries the contact"),
    }
}

#[test]
fn cleared_form_request_carries_an_empty_form() {
    let request = cleared_form_request();
    assert_eq!((request.template, request.block), ("contacts.html", "form"));
    match request.context {
        Context::Form { formdata } => {
            assert_eq!(formdata.values().len(), 0);
            assert_eq!(formdata.errors().len(), 0);
        }
        _ => panic!("the request for the form carries the form state"),
    }
}

#[test]
fn rejected_form_request_carries_the_submission_and_the_complaint() {
    let form = FormData { name: "Jane R2".to_string(), email: "jane@example.com".to_string() };
    let request = rejected_form_request(&form);
    assert_eq!((request.template, request.block), ("contacts.html", "form"));
    match request.context {
        Context::Form { formdata } => {
            assert_eq!(formdata.values().get("name"), Some("Jane R2"));
            assert_eq!(formdata.values().get("email"), Some("jane@example.com"));
            assert_eq!(formdata.values().len(), 2);
            assert_eq!(formdata.errors().get("email"), Some("Email already exists"));
            assert_eq!(formdata.errors().len(), 1);
        }
        _ => panic!("the request for the form carries the form state"),
    }
}

#[test]
fn contacts_request_carries_the_list_backwards_and_an_empty_form() {
    let stored = vec![
        Contact::new("John Doe", "johndoe@hotmail.com", 1),
        Contact::new("Jane Roe", "jane@example.com", 2),
    ];
    let request = contacts_request(&stored);
    assert_eq!((request.template, request.block), ("contacts.html", "contacts"));
    match request.context {
        Context::Contacts { contacts, formdata } => {
            assert_eq!(contacts.len(), 2);
            assert_eq!(contacts[0].name, "Jane Roe");
            assert_eq!(contacts[1].name, "John Doe");
            assert_eq!(formdata.values().len(), 0);
            assert_eq!(formdata.errors().len(), 0);
        }
        _ => panic!("the request for the list carries the contacts"),
    }
}
