use user_service::cache::user_cache;
use user_service::config::{config, ConfigValue};
use user_service::email::{
    email_template_names, smtp_client, EmailBody, flatten_templates, send_email_by_template, template, EmailRequest,
    TemplateSource, EMAIL_KEY_USER_REGISTER,
};

fn text(x: &str) -> TemplateSource {
    TemplateSource::Text(x.to_string())
}

#[test]
fn template_file_flattens_to_named_templates() {
    let entries = vec![
        (
            "user_register".to_string(),
            TemplateSource::Table(vec![
                ("title_cn".to_string(), text("Welcome {{username}}")),
                ("content_cn".to_string(), text("Visit {{url}}")),
                ("broken".to_string(), TemplateSource::Other),
            ]),
        ),
        ("loose".to_string(), text("not in a table")),
        ("other".to_string(), TemplateSource::Table(vec![("a".to_string(), text("b"))])),
    ];
    let flat = flatten_templates(&entries);
    let expected = vec![
        ("user_register_title_cn".to_string(), "Welcome {{username}}".to_string()),
        ("user_register_content_cn".to_string(), "Visit {{url}}".to_string()),
        ("other_a".to_string(), "b".to_string()),
    ];
    assert_eq!(flat, expected);
}

#[test]
fn template_names_of_a_key() {
    assert_eq!(
        email_template_names(EMAIL_KEY_USER_REGISTER),
        ("user_register_title_cn".to_string(), "user_register_content_cn".to_string())
    );
}

#[test]
fn email_from_templates() {
    let templates = template(&vec![
        ("user_register_title_cn".to_string(), "Welcome {{username}}".to_string()),
        ("user_register_content_cn".to_string(), "Go to {{url}}".to_string()),
    ])
    .ok()
    .expect("templates register");
    let cfg = config(ConfigValue::Mapping(vec![(
        ConfigValue::String("email".to_string()),
        ConfigValue::Mapping(vec![(
            ConfigValue::String("address".to_string()),
            ConfigValue::String("noreply@example.com".to_string()),
        )]),
    )]));
    let req = EmailRequest {
        receiver: "bob@example.com".to_string(),
        data: vec![
            ("username".to_string(), "bob".to_string()),
            ("url".to_string(), "https://www.baidu.com".to_string()),
        ],
        key: "user_register".to_string(),
    };
    let body = send_email_by_template(&cfg, &templates, &req).ok().expect("rendered");
    assert_eq!(body.from, "noreply@example.com");
    assert_eq!(body.to, "bob@example.com");
    assert_eq!(body.title, "Welcome bob");
    assert_eq!(body.content, "Go to https://www.baidu.com");

    let no_sender = config(ConfigValue::Null);
    let body = send_email_by_template(&no_sender, &templates, &req).ok().expect("rendered");
    assert_eq!(body.from, "");

    let unknown = EmailRequest { key: "missing".to_string(), ..req };
    assert!(send_email_by_template(&cfg, &templates, &unknown).is_err());
}

#[test]
fn bad_template_is_refused() {
    assert!(template(&vec![("t".to_string(), "{{#if}}".to_string())]).is_err());
}

#[test]
fn cache_keeps_secrets_by_user() {
    let mut cache = user_cache();
    assert_eq!(cache.load(1), None);
    cache.store(1, "s1".to_string());
    cache.store(2, "s2".to_string());
    assert_eq!(cache.load(1).as_deref(), Some("s1"));
    cache.store(1, "s3".to_string());
    assert_eq!(cache.load(1).as_deref(), Some("s3"));
    assert_eq!(cache.remove(2).as_deref(), Some("s2"));
    assert_eq!(cache.load(2), None);
}

#[test]
fn later_template_of_a_name_replaces_earlier() {
    let templates = template(&vec![
        ("greet".to_string(), "Hi {{username}}".to_string()),
        ("greet".to_string(), "Hello {{username}}!".to_string()),
    ])
    .ok()
    .expect("templates register");
    let data = vec![("username".to_string(), "amy".to_string())];
    assert_eq!(templates.render_template("greet", &data).ok().as_deref(), Some("Hello amy!"));
    assert!(templates.render_template("absent", &data).is_err());
}

#[test]
fn later_value_of_a_name_is_used() {
    let templates = template(&vec![("greet".to_string(), "Hi {{username}}".to_string())])
        .ok()
        .expect("templates register");
    let data = vec![
        ("username".to_string(), "amy".to_string()),
        ("username".to_string(), "ben".to_string()),
    ];
    assert_eq!(templates.render_template("greet", &data).ok().as_deref(), Some("Hi ben"));
}

#[test]
fn message_needs_parsable_addresses() {
    let client = smtp_client();
    let good = EmailBody {
        from: "Service <noreply@example.com>".to_string(),
        to: "bob@example.com".to_string(),
        title: "Welcome".to_string(),
        content: "<p>hi</p>".to_string(),
    };
    let (_, headers) = client.message(&good).ok().expect("both addresses parse");
    assert_eq!(headers.to, "bob@example.com");
    assert_eq!(headers.from, "Service <noreply@example.com>");
    assert_eq!(headers.subject, "Welcome");
    assert_eq!(headers.content_type, "text/html; charset=utf-8");
    let bad_to = EmailBody { to: "not an address".to_string(), ..good.clone() };
    assert!(client.message(&bad_to).is_err());
    let bad_from = EmailBody { from: "".to_string(), ..good };
    assert!(client.message(&bad_from).is_err());
}

#[test]
fn clock_is_after_the_epoch() {
    assert!(user_service::clock::now_timestamp() > 1_600_000_000);
}

#[test]
fn template_file_text_to_named_templates() {
    use_template_file();
}

fn use_template_file() {
    let text = "loose = \"x\"\n\n[user_register]\ntitle_cn = \"Welcome {{username}}\"\ncontent_cn = \"Go to {{url}}\"\ncount = 3\n";
    let templates = user_service::email::read_email_template(text).expect("TOML text");
    assert!(templates.contains(&("user_register_title_cn".to_string(), "Welcome {{username}}".to_string())));
    assert!(templates.contains(&("user_register_content_cn".to_string(), "Go to {{url}}".to_string())));
    assert_eq!(templates.len(), 2);
    assert!(user_service::email::read_email_template("[unclosed").is_none());
}

#[test]
fn templates_that_call_partials_are_refused() {
    assert!(template(&vec![
        ("a".to_string(), "{{> b}}".to_string()),
        ("b".to_string(), "{{> a}}".to_string()),
    ])
    .is_err());
    assert!(template(&vec![("c".to_string(), "x {{~ #> layout}}y{{/layout}}".to_string())]).is_err());
    let ok = template(&vec![("d".to_string(), "<p>{{username}}</p> a > b".to_string())]);
    assert!(ok.is_ok());
}

#[test]
fn removed_secret_is_gone() {
    let mut cache = user_cache();
    cache.store(7, "first".to_string());
    cache.store(7, "second".to_string());
    assert_eq!(cache.load(7).as_deref(), Some("second"));
    assert_eq!(cache.remove(7).as_deref(), Some("second"));
    assert_eq!(cache.load(7), None);
    assert_eq!(cache.remove(7), None);
}

#[test]
fn partial_calls_are_spotted() {
    use_partial_checks();
}

fn use_partial_checks() {
    use_one("{{> header}}", true);
    use_one("{{~> header}}", true);
    use_one("{{ #> layout}}x{{/layout}}", true);
    use_one("{{{> x}}}", true);
    use_one("{{name}} > {{other}}", false);
    use_one("{ {> x}}", false);
    use_one("", false);
}

fn use_one(source: &str, expected: bool) {
    assert_eq!(user_service::email::source_calls_partial(source), expected, "source {:?}", source);
}
