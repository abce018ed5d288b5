//! E-mails from templates: the named templates of the service, the names
//! of a message's title and content templates, and the message itself.
use vstd::prelude::*;
use handlebars::Handlebars;
use lettre::message::header::ContentType;
use lettre::address::AddressError;
use lettre::message::Mailbox;
use lettre::Message;
use std::collections::BTreeMap;
use crate::config::{Config, opt_view, config_string};
use crate::error::AppError;
use crate::text::{owned, push_char};

verus! {

/// The key that selects the templates of an e-mail.
pub type EmailKey = &'static str;

/// The e-mail sent when a user signs up.
pub const EMAIL_KEY_USER_REGISTER: EmailKey = "user_register";

/// An e-mail ready to be sent.
#[derive(Clone, Debug)]
pub struct EmailBody {
    pub from: String,
    pub to: String,
    pub title: String,
    pub content: String,
}

/// An e-mail to be made from templates: who gets it, the values the
/// templates are filled with, and the key of the templates.
#[derive(Clone, Debug)]
pub struct EmailRequest {
    pub receiver: String,
    pub data: Vec<(String, String)>,
    pub key: String,
}

/// A template source as the template file holds it: a table of named
/// entries, a text, or anything else.
#[derive(Debug)]
pub enum TemplateSource {
    Table(Vec<(String, TemplateSource)>),
    Text(String),
    Other,
}

/// `key`, an underscore, and `field`.
pub open spec fn joined(key: Seq<char>, field: Seq<char>) -> Seq<char> {
    key + seq!['_'] + field
}

/// The named templates of one table: one for every text entry, named by
/// the table's key and the entry's name.
pub open spec fn table_templates(key: Seq<char>, fields: Seq<(String, TemplateSource)>) -> Seq<(Seq<char>, Seq<char>)>
    decreases fields.len(),
{
    if fields.len() == 0 {
        Seq::empty()
    } else {
        let rest = table_templates(key, fields.drop_last());
        match fields.last().1 {
            TemplateSource::Text(t) => rest.push((joined(key, fields.last().0@), t@)),
            _ => rest,
        }
    }
}

/// The named templates of a template file: for every table, in order, the
/// templates of its text entries; entries that are not tables, and table
/// entries that are not texts, give none.
pub open spec fn flat_templates(entries: Seq<(String, TemplateSource)>) -> Seq<(Seq<char>, Seq<char>)>
    decreases entries.len(),
{
    if entries.len() == 0 {
        Seq::empty()
    } else {
        let rest = flat_templates(entries.drop_last());
        match entries.last().1 {
            TemplateSource::Table(fields) => rest + table_templates(entries.last().0@, fields@),
            _ => rest,
        }
    }
}

/// The views of a list of named templates.
pub open spec fn pairs_view(v: Seq<(String, String)>) -> Seq<(Seq<char>, Seq<char>)> {
    v.map_values(|p: (String, String)| (p.0@, p.1@))
}

fn join_name(key: &str, field: &str) -> (r: String)
    ensures
        r@ == joined(key@, field@),
{
    let mut s = owned(key);
    push_char(&mut s, '_');
    s.append(field);
    s
}

/// The named templates of a template file, in order.
pub fn flatten_templates(entries: &Vec<(String, TemplateSource)>) -> (r: Vec<(String, String)>)
    ensures
        pairs_view(r@) == flat_templates(entries@),
{
    let mut out: Vec<(String, String)> = Vec::new();
    let mut i: usize = 0;
    while i < entries.len()
        invariant
            i <= entries@.len(),
            pairs_view(out@) == flat_templates(entries@.take(i as int)),
        decreases entries.len() - i,
    {
        assert(entries@.take(i + 1).drop_last() =~= entries@.take(i as int));
        let key = entries[i].0.as_str();
        match &entries[i].1 {
            TemplateSource::Table(fields) => {
                let ghost before = pairs_view(out@);
                let mut j: usize = 0;
                while j < fields.len()
                    invariant
                        j <= fields@.len(),
                        key@ == entries@[i as int].0@,
                        pairs_view(out@) == before + table_templates(key@, fields@.take(j as int)),
                    decreases fields.len() - j,
                {
                    assert(fields@.take(j + 1).drop_last() =~= fields@.take(j as int));
                    match &fields[j].1 {
                        TemplateSource::Text(t) => {
                            let name = join_name(key, fields[j].0.as_str());
                            let text = t.clone();
                            let ghost out_before = out@;
                            let ghost item = (name@, text@);
                            out.push((name, text));
                            assert(fields@.take(j + 1).last() == fields@[j as int]);
                            assert(table_templates(key@, fields@.take(j + 1)) == table_templates(key@, fields@.take(j as int)).push(item));
                            assert(pairs_view(out@) =~= pairs_view(out_before).push(item));
                            assert(pairs_view(out@) =~= before + table_templates(key@, fields@.take(j + 1)));
                        },
                        _ => {
                            assert(pairs_view(out@) =~= before + table_templates(key@, fields@.take(j + 1)));
                        },
                    }
                    j = j + 1;
                }
                assert(fields@.take(fields@.len() as int) =~= fields@);
                assert(pairs_view(out@) =~= flat_templates(entries@.take(i + 1)));
            },
            _ => {
                assert(pairs_view(out@) =~= flat_templates(entries@.take(i + 1)));
            },
        }
        i = i + 1;
    }
    assert(entries@.take(entries@.len() as int) =~= entries@);
    out
}

/// A parsed TOML value.
#[verifier::external_type_specification]
#[verifier::external_body]
pub struct ExTomlValue(toml::Value);

/// The entries of a template file, or nothing when the text is not TOML.
pub uninterp spec fn template_file(text: Seq<char>) -> Option<Seq<(String, TemplateSource)>>;

/// Turns a parsed TOML value into a template source, variant for variant:
/// a table into its entries in order, a string into a text, anything else
/// into `Other`. This is the conversion of `parse_template_file`, and
/// claims nothing.
#[verifier::external_body]
fn toml_source(v: toml::Value) -> TemplateSource {
    match v {
        toml::Value::Table(t) => TemplateSource::Table(t.into_iter().map(|(k, x)| (k, toml_source(x))).collect()),
        toml::Value::String(s) => TemplateSource::Text(s),
        _ => TemplateSource::Other,
    }
}

/// The entries of a template file.
///
/// Calls `toml::from_str` into `toml::Table` and converts each value with
/// `toml_source`, keeping the table's order. The parse is a function of
/// the text alone.
#[verifier::external_body]
fn parse_template_file(text: &str) -> (r: Option<Vec<(String, TemplateSource)>>)
    ensures
        match template_file(text@) {
            Some(es) => r matches Some(v) && v@ == es,
            None => r is None,
        },
{
    let table: toml::Table = toml::from_str(text).ok()?;
    Some(table.into_iter().map(|(k, v)| (k, toml_source(v))).collect())
}

/// The named templates of a template file, or nothing when the text is not
/// TOML.
pub fn read_email_template(text: &str) -> (r: Option<Vec<(String, String)>>)
    ensures
        match template_file(text@) {
            Some(es) => r matches Some(v) && pairs_view(v@) == flat_templates(es),
            None => r is None,
        },
{
    match parse_template_file(text) {
        Some(entries) => Some(flatten_templates(&entries)),
        None => None,
    }
}

/// The names of the title and content templates of an e-mail:
/// `<key>_title_cn` and `<key>_content_cn`.
pub open spec fn template_names(key: Seq<char>) -> (Seq<char>, Seq<char>) {
    (key + "_title_cn"@, key + "_content_cn"@)
}

/// The names of the title and content templates of an e-mail.
pub fn email_template_names(key: &str) -> (r: (String, String))
    ensures
        r.0@ == template_names(key@).0,
        r.1@ == template_names(key@).1,
{
    let mut title = owned(key);
    title.append("_title_cn");
    let mut content = owned(key);
    content.append("_content_cn");
    (title, content)
}

/// The registry of named templates.
#[verifier::external_type_specification]
#[verifier::external_body]
pub struct ExHandlebars<'reg>(Handlebars<'reg>);

/// A registry of named templates that lives as long as the program.
pub type Registry = Handlebars<'static>;

/// The sources a template registry holds, by template name.
pub uninterp spec fn registry_templates(registry: Registry) -> Map<Seq<char>, Seq<char>>;

/// The text of the error with which the template parser refuses a source
/// registered under a name, or nothing when it takes the source.
pub uninterp spec fn template_parse_error(name: Seq<char>, source: Seq<char>) -> Option<Seq<char>>;

/// What rendering the named template of a registry that holds these
/// sources gives with these values: the text, or the text of the error.
pub uninterp spec fn rendered(
    templates: Map<Seq<char>, Seq<char>>,
    name: Seq<char>,
    data: Seq<(Seq<char>, Seq<char>)>,
) -> Result<Seq<char>, Seq<char>>;

/// An empty template registry.
///
/// Calls `Handlebars::new`, which makes a registry with no templates (and
/// only the built-in helpers, no strict mode and no development mode).
#[verifier::external_body]
fn new_registry() -> (r: Registry)
    ensures
        registry_templates(r).is_empty(),
{
    Handlebars::new()
}

/// Adds a named template to a registry.
///
/// Calls `Handlebars::register_template_string`, which compiles the source
/// and, when the parser takes it, stores it under the name (replacing a
/// template of that name); when the parser refuses it, the registry is
/// left as it was and the error is turned into its text.
#[verifier::external_body]
fn register_template(registry: &mut Registry, name: &str, source: &str) -> (r: Result<(), String>)
    ensures
        match template_parse_error(name@, source@) {
            None => r is Ok && registry_templates(*final(registry)) == registry_templates(*old(registry)).insert(
                name@,
                source@,
            ),
            Some(m) => r matches Err(e) && e@ == m && registry_templates(*final(registry)) == registry_templates(
                *old(registry),
            ),
        },
{
    registry.register_template_string(name, source).map_err(|e| e.to_string())
}

/// Whether a character may stand between the `{{` and the `>` of a
/// partial call: the template grammar's white space, the `~` that trims
/// white space, or the `#` of a partial block.
pub open spec fn partial_lead(c: char) -> bool {
    c == ' ' || c == '\t' || c == '\n' || c == '\r' || c == '~' || c == '#'
}

/// Whether, just before position `k` of a source, a `{{` stands followed
/// by lead characters only.
pub open spec fn opened_before(s: Seq<char>, k: int) -> bool {
    exists|i: int|
        0 <= i && i + 2 <= k && #[trigger] s[i] == '{' && s[i + 1] == '{' && (forall|m: int|
            i + 2 <= m < k ==> partial_lead(#[trigger] s[m]))
}

/// Whether a template source may call a partial: somewhere in it a `{{`
/// is followed, past lead characters only, by `>`. Every partial call and
/// every partial block of the template grammar has this form (text that
/// only looks like one, such as an escaped `\\{{>`, is counted too).
pub open spec fn calls_partial(s: Seq<char>) -> bool {
    exists|j: int| 0 <= j < s.len() && s[j] == '>' && #[trigger] opened_before(s, j)
}

/// Whether none of the sources may call a partial.
pub open spec fn partial_free(templates: Map<Seq<char>, Seq<char>>) -> bool {
    forall|n: Seq<char>| templates.dom().contains(n) ==> !calls_partial(#[trigger] templates[n])
}

proof fn lemma_opened_step(s: Seq<char>, k: int)
    requires
        0 <= k < s.len(),
    ensures
        opened_before(s, k + 1) == (if partial_lead(s[k]) {
            opened_before(s, k)
        } else if s[k] == '{' {
            k >= 1 && s[k - 1] == '{'
        } else {
            false
        }),
{
    if opened_before(s, k + 1) {
        let i = choose|i: int|
            0 <= i && i + 2 <= k + 1 && #[trigger] s[i] == '{' && s[i + 1] == '{' && (forall|m: int|
                i + 2 <= m < k + 1 ==> partial_lead(#[trigger] s[m]));
        if i + 2 <= k {
            assert(partial_lead(s[k]));
            assert(opened_before(s, k));
        } else {
            assert(i == k - 1);
        }
    }
    if partial_lead(s[k]) && opened_before(s, k) {
        let i = choose|i: int|
            0 <= i && i + 2 <= k && #[trigger] s[i] == '{' && s[i + 1] == '{' && (forall|m: int|
                i + 2 <= m < k ==> partial_lead(#[trigger] s[m]));
        assert(forall|m: int| i + 2 <= m < k + 1 ==> partial_lead(#[trigger] s[m]));
        assert(opened_before(s, k + 1));
    }
    if s[k] == '{' && k >= 1 && s[k - 1] == '{' {
        let i = k - 1;
        assert(s[i] == '{');
        assert(forall|m: int| i + 2 <= m < k + 1 ==> partial_lead(#[trigger] s[m]));
        assert(opened_before(s, k + 1));
    }
}

fn is_partial_lead(c: char) -> (r: bool)
    ensures
        r == partial_lead(c),
{
    c == ' ' || c == '\t' || c == '\n' || c == '\r' || c == '~' || c == '#'
}

/// Whether a template source may call a partial.
pub fn source_calls_partial(source: &str) -> (r: bool)
    ensures
        r == calls_partial(source@),
{
    let n = source.unicode_len();
    let mut open = false;
    let mut i: usize = 0;
    assert(!opened_before(source@, 0));
    while i < n
        invariant
            i <= n,
            n == source@.len(),
            open == opened_before(source@, i as int),
            forall|j: int| 0 <= j < i ==> !(source@[j] == '>' && #[trigger] opened_before(source@, j)),
        decreases n - i,
    {
        let c = source.get_char(i);
        if c == '>' && open {
            assert(source@[i as int] == '>' && opened_before(source@, i as int));
            return true;
        }
        proof {
            lemma_opened_step(source@, i as int);
        }
        if is_partial_lead(c) {
        } else if c == '{' {
            open = i >= 1 && source.get_char(i - 1) == '{';
        } else {
            open = false;
        }
        i = i + 1;
    }
    false
}

/// The refusal of a template that may call a partial.
pub open spec fn partial_refusal(name: Seq<char>) -> Seq<char> {
    "partials are not supported: "@ + name
}

/// Fills the named template of a registry with the given values.
///
/// Calls `Handlebars::render` with the values as a map from names to texts
/// (a later value replaces an earlier one of the same name) and turns its
/// error into the error's text. A name that no template is registered
/// under is refused (`TemplateNotFound`). The contract claims that the outcome is a
/// function of the registered sources, the name and the values; the
/// registries of this module are made by `new_registry` and
/// `register_template` alone, so no other setting of the registry enters.
/// Rendering recurses into partials with no bound (two templates that call
/// each other exhaust the stack and abort the process), so `requires`
/// leaves out registries with a source that may call a partial; without
/// partial calls the built-in helpers recurse no deeper than the
/// template's own nesting.
#[verifier::external_body]
fn render_registered(registry: &Registry, name: &str, data: &Vec<(String, String)>) -> (r: Result<String, String>)
    requires
        partial_free(registry_templates(*registry)),
    ensures
        match rendered(registry_templates(*registry), name@, pairs_view(data@)) {
            Ok(s) => r matches Ok(t) && t@ == s,
            Err(m) => r matches Err(e) && e@ == m,
        },
        !registry_templates(*registry).dom().contains(name@) ==> r is Err,
{
    let values: BTreeMap<&str, &str> = data.iter().map(|(k, v)| (k.as_str(), v.as_str())).collect();
    registry.render(name, &values).map_err(|e| e.to_string())
}

/// The sources a registry holds once the named templates are registered in
/// order, or the error of the first source that is refused: one that may
/// call a partial, or one the parser refuses.
pub open spec fn registered(templates: Seq<(Seq<char>, Seq<char>)>) -> Result<Map<Seq<char>, Seq<char>>, Seq<char>>
    decreases templates.len(),
{
    if templates.len() == 0 {
        Ok(Map::empty())
    } else {
        match registered(templates.drop_last()) {
            Err(m) => Err(m),
            Ok(held) => if calls_partial(templates.last().1) {
                Err(partial_refusal(templates.last().0))
            } else {
                match template_parse_error(templates.last().0, templates.last().1) {
                    None => Ok(held.insert(templates.last().0, templates.last().1)),
                    Some(m) => Err(m),
                }
            },
        }
    }
}

/// Whether an outcome of the service is the outcome of a template step:
/// the same text on success, an error carrying the same text otherwise.
pub open spec fn is_template_outcome(r: Result<String, AppError>, o: Result<Seq<char>, Seq<char>>) -> bool {
    match o {
        Ok(s) => r matches Ok(t) && t@ == s,
        Err(m) => r matches Err(e) && e matches AppError::Other(x) && x@ == m,
    }
}

/// The named templates e-mails are made from.
pub struct Template {
    registry: Registry,
}

impl Template {
    /// The sources of the templates, by name.
    pub closed spec fn sources(&self) -> Map<Seq<char>, Seq<char>> {
        registry_templates(self.registry)
    }

    /// No template of the registry may call a partial.
    #[verifier::type_invariant]
    spec fn holds_no_partials(self) -> bool {
        partial_free(registry_templates(self.registry))
    }
}

/// A registry holding the given named templates, registered in order (a
/// later template replaces an earlier one of the same name); the first
/// source that may call a partial, or that the template parser refuses,
/// makes it fail with that refusal.
pub fn template(templates: &Vec<(String, String)>) -> (r: Result<Template, AppError>)
    ensures
        match registered(pairs_view(templates@)) {
            Ok(held) => r matches Ok(t) && t.sources() == held,
            Err(m) => r matches Err(e) && e matches AppError::Other(x) && x@ == m,
        },
{
    let mut registry = new_registry();
    assert(registry_templates(registry).dom() =~= Set::<Seq<char>>::empty());
    assert(registry_templates(registry) =~= Map::<Seq<char>, Seq<char>>::empty());
    assert(pairs_view(templates@).take(0) =~= Seq::<(Seq<char>, Seq<char>)>::empty());
    let mut i: usize = 0;
    while i < templates.len()
        invariant
            i <= templates@.len(),
            registered(pairs_view(templates@).take(i as int)) == Ok::<Map<Seq<char>, Seq<char>>, Seq<char>>(
                registry_templates(registry),
            ),
            partial_free(registry_templates(registry)),
        decreases templates.len() - i,
    {
        let ghost all = pairs_view(templates@);
        assert(all.take(i + 1).drop_last() =~= all.take(i as int));
        assert(all.take(i + 1).last() == all[i as int]);
        if source_calls_partial(templates[i].1.as_str()) {
            let mut msg = String::from_str("partials are not supported: ");
            msg.append(templates[i].0.as_str());
            proof {
                lemma_registered_fails_after(all, i as int + 1);
            }
            return Err(AppError::Other(msg));
        }
        match register_template(&mut registry, templates[i].0.as_str(), templates[i].1.as_str()) {
            Ok(()) => {},
            Err(msg) => {
                proof {
                    lemma_registered_fails_after(all, i as int + 1);
                }
                return Err(AppError::Other(msg));
            },
        }
        i = i + 1;
    }
    assert(pairs_view(templates@).take(templates@.len() as int) =~= pairs_view(templates@));
    Ok(Template { registry })
}

/// Once a prefix of the templates fails to register, the whole list fails
/// with the same error.
proof fn lemma_registered_fails_after(templates: Seq<(Seq<char>, Seq<char>)>, n: int)
    requires
        0 <= n <= templates.len(),
        registered(templates.take(n)) is Err,
    ensures
        registered(templates) == registered(templates.take(n)),
    decreases templates.len() - n,
{
    if n < templates.len() {
        assert(templates.take(n + 1).drop_last() =~= templates.take(n));
        lemma_registered_fails_after(templates, n + 1);
    } else {
        assert(templates.take(n) =~= templates);
    }
}

impl Template {
    /// Fills the named template with the given values; a name that no
    /// template is registered under is an error.
    pub fn render_template(&self, template: &str, data: &Vec<(String, String)>) -> (r: Result<String, AppError>)
        ensures
            is_template_outcome(r, rendered(self.sources(), template@, pairs_view(data@))),
            !self.sources().dom().contains(template@) ==> r is Err,
    {
        proof {
            use_type_invariant(self);
        }
        match render_registered(&self.registry, template, data) {
            Ok(s) => Ok(s),
            Err(msg) => Err(AppError::Other(msg)),
        }
    }
}

/// The sender address of the service's e-mails: `email.address` in the
/// configuration, or the empty text.
pub open spec fn sender_address(c: Config) -> Seq<char> {
    match c.lookup("email.address"@) {
        Some(v) => match config_string(v) {
            Some(s) => s,
            None => Seq::empty(),
        },
        None => Seq::empty(),
    }
}

/// The e-mail made from a request and its rendered title and content.
pub open spec fn composed(body: EmailBody, c: Config, req: EmailRequest, title: Seq<char>, content: Seq<char>) -> bool {
    &&& body.from@ == sender_address(c)
    &&& body.to@ == req.receiver@
    &&& body.title@ == title
    &&& body.content@ == content
}

/// The outcome of making an e-mail: the error of rendering the title
/// template, else the error of rendering the content template, else the
/// e-mail with both rendered texts.
pub open spec fn email_outcome(
    r: Result<EmailBody, AppError>,
    c: Config,
    templates: Map<Seq<char>, Seq<char>>,
    req: EmailRequest,
) -> bool {
    let names = template_names(req.key@);
    let values = pairs_view(req.data@);
    match rendered(templates, names.0, values) {
        Err(m) => r matches Err(e) && e matches AppError::Other(x) && x@ == m,
        Ok(title) => match rendered(templates, names.1, values) {
            Err(m) => r matches Err(e) && e matches AppError::Other(x) && x@ == m,
            Ok(content) => r matches Ok(body) && composed(body, c, req, title, content),
        },
    }
}

/// Makes an e-mail from its templates: renders the title template, then
/// the content template (both named after the request's key), and
/// addresses the message from the configured sender to the receiver. A
/// failed rendering is the error.
pub fn send_email_by_template(config: &Config, templates: &Template, req: &EmailRequest) -> (r: Result<EmailBody, AppError>)
    ensures
        email_outcome(r, *config, templates.sources(), *req),
{
    let (title_name, content_name) = email_template_names(req.key.as_str());
    let title = match templates.render_template(title_name.as_str(), &req.data) {
        Ok(t) => t,
        Err(e) => {
            return Err(e);
        },
    };
    let content = match templates.render_template(content_name.as_str(), &req.data) {
        Ok(c) => c,
        Err(e) => {
            return Err(e);
        },
    };
    let from = match config.get_string("email.address") {
        Some(a) => a,
        None => String::new(),
    };
    Ok(EmailBody { from, to: req.receiver.clone(), title, content })
}

/// A message ready for the mail transport.
#[verifier::external_type_specification]
#[verifier::external_body]
pub struct ExMessage(Message);

/// Whether a text parses as a mailbox (an address with an optional
/// display name).
pub uninterp spec fn mailbox_parses(text: Seq<char>) -> bool;

/// The text of the mailbox that a text parses as, as the mailbox prints
/// itself: the address, after the display name in angle brackets when it
/// has one.
pub uninterp spec fn mailbox_text(text: Seq<char>) -> Seq<char>;

/// The headers of a built message that say where it goes and what it is,
/// each as the message holds it.
#[derive(Clone, Debug)]
pub struct MessageHeaders {
    pub to: String,
    pub from: String,
    pub subject: String,
    pub content_type: String,
}

/// The content type of the service's e-mails.
pub open spec fn html_content_type() -> Seq<char> {
    "text/html; charset=utf-8"@
}

/// The HTML message from `from` to `to` with the given subject and HTML
/// body, and the headers the message holds.
///
/// Parses both addresses with `Mailbox::from_str`, the receiver first, and
/// builds the message with `Message::builder`: `to`, `from`, `subject`,
/// the `ContentType::TEXT_HTML` header and `body`. With one sender and one
/// receiver the builder does not fail, so the message is made exactly when
/// both addresses parse; the error of the first address that does not
/// parse is turned into its text. The headers are read back from the
/// message with `Headers::get_raw`: `To` and `From` hold the printed
/// mailbox, `Subject` the subject as given, `Content-Type` the printed
/// MIME type. The body is stored encoded, and the `Date` header is the
/// current time, so nothing more is said of the message.
#[verifier::external_body]
fn build_message(to: &str, from: &str, subject: &str, html: &str) -> (r: Result<(Message, MessageHeaders), String>)
    ensures
        (r is Ok) == (mailbox_parses(to@) && mailbox_parses(from@)),
        r matches Ok(p) ==> p.1.to@ == mailbox_text(to@) && p.1.from@ == mailbox_text(from@) && p.1.subject@
            == subject@ && p.1.content_type@ == html_content_type(),
{
    let to_box: Mailbox = to.parse().map_err(|e: AddressError| e.to_string())?;
    let from_box: Mailbox = from.parse().map_err(|e: AddressError| e.to_string())?;
    let m = Message::builder().to(to_box).from(from_box).subject(subject).header(ContentType::TEXT_HTML)
        .body(html.to_string()).map_err(|e| e.to_string())?;
    let raw = |n: &str| m.headers().get_raw(n).unwrap_or("").to_string();
    let h = MessageHeaders { to: raw("To"), from: raw("From"), subject: raw("Subject"), content_type: raw("Content-Type") };
    Ok((m, h))
}

/// The client that sends the service's e-mails through the configured
/// SMTP relay.
pub struct SmtpClient {
    private: (),
}

/// The mail client.
pub fn smtp_client() -> (c: SmtpClient) {
    SmtpClient { private: () }
}

impl SmtpClient {
    /// The HTML message of an e-mail, with the headers it holds: to the
    /// e-mail's receiver, from its sender, with its title as the subject
    /// and its content as the HTML body. It is made exactly when the sender
    /// and the receiver parse as mailboxes; otherwise the error carries the
    /// text of the address error.
    pub fn message(&self, body: &EmailBody) -> (r: Result<(Message, MessageHeaders), AppError>)
        ensures
            r is Ok <==> mailbox_parses(body.to@) && mailbox_parses(body.from@),
            r matches Ok(p) ==> p.1.to@ == mailbox_text(body.to@) && p.1.from@ == mailbox_text(body.from@)
                && p.1.subject@ == body.title@ && p.1.content_type@ == html_content_type(),
            r matches Err(e) ==> e is Other,
    {
        match build_message(body.to.as_str(), body.from.as_str(), body.title.as_str(), body.content.as_str()) {
            Ok(p) => Ok(p),
            Err(text) => Err(AppError::Other(text)),
        }
    }
}

} // verus!
