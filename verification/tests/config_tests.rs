use trigger_mqtt::config::{
    route_config_from_fields, trigger_metadata_from_fields, MqttTrigger,
};
use trigger_mqtt::errors::{ConfigFault, TemplateFault, TriggerError};
use trigger_mqtt::parse::{parse_i32, parse_u64};
use trigger_mqtt::template::resolve_template;

fn fields(pairs: &[(&str, &str)]) -> Vec<(String, String)> {
    pairs.iter().map(|(k, v)| (k.to_string(), v.to_string())).collect()
}

fn trigger_fields() -> Vec<(String, String)> {
    fields(&[
        ("type", "mqtt"),
        ("address", "tcp://{{host}}:1883"),
        ("username", "user"),
        ("password", "{{secret}}"),
        ("keep_alive_interval", "30"),
    ])
}

fn vars() -> Vec<(String, String)> {
    fields(&[("host", "localhost"), ("secret", "hunter2")])
}

#[test]
fn parse_u64_accepts_plain_numerals() {
    assert_eq!(parse_u64("0"), Some(0));
    assert_eq!(parse_u64("30"), Some(30));
    assert_eq!(parse_u64("18446744073709551615"), Some(u64::MAX));
}

#[test]
fn parse_u64_rejects_non_numerals_and_overflow() {
    assert_eq!(parse_u64(""), None);
    assert_eq!(parse_u64("12a"), None);
    assert_eq!(parse_u64("-1"), None);
    assert_eq!(parse_u64("18446744073709551616"), None);
}

#[test]
fn parse_i32_covers_the_signed_range() {
    assert_eq!(parse_i32("0"), Some(0));
    assert_eq!(parse_i32("1"), Some(1));
    assert_eq!(parse_i32("-1"), Some(-1));
    assert_eq!(parse_i32("2147483647"), Some(i32::MAX));
    assert_eq!(parse_i32("-2147483648"), Some(i32::MIN));
    assert_eq!(parse_i32("2147483648"), None);
    assert_eq!(parse_i32("-2147483649"), None);
    assert_eq!(parse_i32("two"), None);
}

#[test]
fn templates_substitute_placeholders() {
    let r = resolve_template("tcp://{{host}}:1883", &vars()).unwrap();
    assert_eq!(r, "tcp://localhost:1883");
}

#[test]
fn templates_pass_plain_text_through() {
    assert_eq!(resolve_template("", &vars()).unwrap(), "");
    assert_eq!(resolve_template("a{b}c}}d", &vars()).unwrap(), "a{b}c}}d");
}

#[test]
fn templates_substitute_adjacent_placeholders() {
    let r = resolve_template("{{host}}{{secret}}", &vars()).unwrap();
    assert_eq!(r, "localhosthunter2");
}

#[test]
fn templates_take_the_first_binding_of_a_name() {
    let shadowed = fields(&[("host", "first"), ("host", "second")]);
    assert_eq!(resolve_template("{{host}}", &shadowed).unwrap(), "first");
}

#[test]
fn undefined_placeholder_is_reported_by_name() {
    let r = resolve_template("tcp://{{missing}}:1883", &vars());
    match r {
        Err(TemplateFault::UndefinedVariable { name }) => assert_eq!(name, "missing"),
        other => panic!("expected an undefined-variable fault, got {:?}", other),
    }
}

#[test]
fn unclosed_placeholder_is_a_fault() {
    let r = resolve_template("tcp://{{host:1883", &vars());
    assert!(matches!(r, Err(TemplateFault::UnclosedPlaceholder)));
}

#[test]
fn trigger_metadata_resolves_from_well_formed_fields() {
    let m = trigger_metadata_from_fields(&trigger_fields()).unwrap();
    assert_eq!(m.trigger_type, "mqtt");
    assert_eq!(m.address, "tcp://{{host}}:1883");
    assert_eq!(m.username, "user");
    assert_eq!(m.password, "{{secret}}");
    assert_eq!(m.keep_alive_interval, "30");
}

#[test]
fn unknown_trigger_field_fails_resolution() {
    let mut f = trigger_fields();
    f.push(("keepalive".to_string(), "30".to_string()));
    let r = trigger_metadata_from_fields(&f);
    match r {
        Err(TriggerError::Config(ConfigFault::UnknownField { name })) => {
            assert_eq!(name, "keepalive")
        },
        other => panic!("expected an unknown-field fault, got {:?}", other),
    }
}

#[test]
fn missing_and_duplicate_trigger_fields_fail_resolution() {
    let mut missing = trigger_fields();
    missing.retain(|(k, _)| k != "password");
    assert!(matches!(
        trigger_metadata_from_fields(&missing),
        Err(TriggerError::Config(ConfigFault::MissingField { .. }))
    ));

    let mut duplicated = trigger_fields();
    duplicated.push(("address".to_string(), "tcp://other:1883".to_string()));
    assert!(matches!(
        trigger_metadata_from_fields(&duplicated),
        Err(TriggerError::Config(ConfigFault::DuplicateField { .. }))
    ));
}

#[test]
fn route_config_resolves_from_well_formed_fields() {
    let c = route_config_from_fields(&fields(&[
        ("component", "echo"),
        ("topic", "sensors/+/temp"),
        ("qos", "1"),
    ]))
    .unwrap();
    assert_eq!(c.component, "echo");
    assert_eq!(c.topic, "sensors/+/temp");
    assert_eq!(c.qos, "1");
}

#[test]
fn unknown_route_field_fails_resolution() {
    let r = route_config_from_fields(&fields(&[
        ("component", "echo"),
        ("topic", "sensors/+/temp"),
        ("qos", "1"),
        ("retain", "true"),
    ]));
    match r {
        Err(TriggerError::Config(ConfigFault::UnknownField { name })) => {
            assert_eq!(name, "retain")
        },
        other => panic!("expected an unknown-field fault, got {:?}", other),
    }
}

fn route_fields(component: &str, topic: &str, qos: &str) -> Vec<(String, String)> {
    fields(&[("component", component), ("topic", topic), ("qos", qos)])
}

#[test]
fn configuration_resolves_all_fields_and_routes() {
    let m = trigger_metadata_from_fields(&trigger_fields()).unwrap();
    let routes = vec![
        route_config_from_fields(&route_fields("echo", "{{host}}/in", "1")).unwrap(),
        route_config_from_fields(&route_fields("audit", "audit/#", "2")).unwrap(),
    ];
    let t = MqttTrigger::new(&m, &routes, &vars()).unwrap();
    assert_eq!(t.address, "tcp://localhost:1883");
    assert_eq!(t.username, "user");
    assert_eq!(t.password, "hunter2");
    assert_eq!(t.keep_alive_interval, 30);
    assert_eq!(t.component_configs.len(), 2);
    assert_eq!(t.component_configs[0].component_id, "echo");
    assert_eq!(t.component_configs[0].qos, 1);
    assert_eq!(t.component_configs[0].topic, "localhost/in");
    assert_eq!(t.component_configs[1].component_id, "audit");
    assert_eq!(t.component_configs[1].qos, 2);
    assert_eq!(t.component_configs[1].topic, "audit/#");
}

#[test]
fn resolution_is_deterministic_on_identical_raw_input() {
    let m = trigger_metadata_from_fields(&trigger_fields()).unwrap();
    let routes = vec![route_config_from_fields(&route_fields("echo", "{{host}}/in", "1")).unwrap()];
    let a = MqttTrigger::new(&m, &routes, &vars()).unwrap();
    let b = MqttTrigger::new(&m, &routes, &vars()).unwrap();
    assert_eq!(a.address, b.address);
    assert_eq!(a.username, b.username);
    assert_eq!(a.password, b.password);
    assert_eq!(a.keep_alive_interval, b.keep_alive_interval);
    assert_eq!(a.component_configs.len(), b.component_configs.len());
    for (x, y) in a.component_configs.iter().zip(b.component_configs.iter()) {
        assert_eq!(x.component_id, y.component_id);
        assert_eq!(x.qos, y.qos);
        assert_eq!(x.topic, y.topic);
    }
}

#[test]
fn undefined_topic_placeholder_aborts_the_whole_startup() {
    let m = trigger_metadata_from_fields(&trigger_fields()).unwrap();
    let routes = vec![
        route_config_from_fields(&route_fields("echo", "{{host}}/in", "1")).unwrap(),
        route_config_from_fields(&route_fields("audit", "{{undefined_zone}}/x", "1")).unwrap(),
    ];
    let r = MqttTrigger::new(&m, &routes, &vars());
    match r {
        Err(TriggerError::Template(TemplateFault::UndefinedVariable { name })) => {
            assert_eq!(name, "undefined_zone")
        },
        other => panic!("expected a template fault, got {:?}", other),
    }
}

#[test]
fn bad_numerals_abort_the_whole_startup() {
    let mut bad_keepalive = trigger_fields();
    bad_keepalive.retain(|(k, _)| k != "keep_alive_interval");
    bad_keepalive.push(("keep_alive_interval".to_string(), "soon".to_string()));
    let m = trigger_metadata_from_fields(&bad_keepalive).unwrap();
    let r = MqttTrigger::new(&m, &vec![], &vars());
    match r {
        Err(TriggerError::Parse { field }) => assert_eq!(field, "keep_alive_interval"),
        other => panic!("expected a parse error, got {:?}", other),
    }

    let m = trigger_metadata_from_fields(&trigger_fields()).unwrap();
    let routes = vec![route_config_from_fields(&route_fields("echo", "t", "one")).unwrap()];
    let r = MqttTrigger::new(&m, &routes, &vars());
    match r {
        Err(TriggerError::Parse { field }) => assert_eq!(field, "qos"),
        other => panic!("expected a parse error, got {:?}", other),
    }
}

#[test]
fn build_info_formats_the_three_parts() {
    let line = trigger_mqtt::build_info("0.1.0", "2be4034", "2022-03-31");
    assert_eq!(line, "0.1.0 (2be4034 2022-03-31)");
}
