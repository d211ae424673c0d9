use wakedev::cli::{ConfigSetArgs, ForwardState, RemoteForwardArgs};
use wakedev::document::{
    codex_notify_command, document_text, handle_config_set, install_codex, parse_config_value,
    parse_document, set_toml_key, split_key, ConfigValue,
};
use wakedev::error::NotifallError;
use wakedev::forward::{
    forward_enabled, handle_remote_forward, remote_host_from_doc, remote_port_from_doc,
    remote_url_from_doc, set_default_provider, set_remote_field, switch_forwarding,
    ForwardOutcome,
};

fn doc(text: &str) -> toml_edit::DocumentMut {
    parse_document(text).unwrap()
}

fn forward(state: ForwardState, host: Option<&str>, port: Option<u16>) -> RemoteForwardArgs {
    RemoteForwardArgs { state, host: host.map(|h| h.to_string()), port }
}

#[test]
fn values_are_read_as_booleans_integers_or_text() {
    assert_eq!(parse_config_value("true"), ConfigValue::Bool(true));
    assert_eq!(parse_config_value("TRUE"), ConfigValue::Bool(true));
    assert_eq!(parse_config_value("False"), ConfigValue::Bool(false));
    assert_eq!(parse_config_value("4280"), ConfigValue::Integer(4280));
    assert_eq!(parse_config_value("-1"), ConfigValue::Integer(-1));
    assert_eq!(parse_config_value("+1"), ConfigValue::Integer(1));
    assert_eq!(parse_config_value("mba"), ConfigValue::Text("mba".to_string()));
    assert_eq!(parse_config_value("1.5"), ConfigValue::Text("1.5".to_string()));
    assert_eq!(parse_config_value(" true"), ConfigValue::Text(" true".to_string()));
    assert_eq!(parse_config_value(""), ConfigValue::Text("".to_string()));
    assert_eq!(
        parse_config_value("9223372036854775808"),
        ConfigValue::Text("9223372036854775808".to_string())
    );
}

#[test]
fn keys_are_split_at_dots() {
    assert_eq!(split_key("remote.host"), vec!["remote", "host"]);
    assert_eq!(split_key("default_provider"), vec!["default_provider"]);
    assert_eq!(split_key("a.b.c"), vec!["a", "b", "c"]);
    assert_eq!(split_key(""), vec![""]);
    assert_eq!(split_key("a..b"), vec!["a", "", "b"]);
    assert_eq!(split_key(".a."), vec!["", "a", ""]);
    for key in ["x", "a.b", "..", "remote.host.name."] {
        let expected: Vec<String> = key.split('.').map(|p| p.to_string()).collect();
        assert_eq!(split_key(key), expected);
    }
}

#[test]
fn not_toml_is_a_config_edit_error() {
    match parse_document("a = ") {
        Err(NotifallError::ConfigEdit(text)) => assert!(!text.is_empty()),
        other => panic!("unexpected: {:?}", other.map(|d| d.to_string())),
    }
    let args = ConfigSetArgs { key: "a".to_string(), value: "1".to_string() };
    assert!(matches!(handle_config_set("[a", &args), Err(NotifallError::ConfigEdit(_))));
    assert!(matches!(install_codex("= 1", "/bin/w"), Err(NotifallError::ConfigEdit(_))));
    let args = forward(ForwardState::Status, None, None);
    assert!(matches!(
        handle_remote_forward("x", args, true, "p"),
        Err(NotifallError::ConfigEdit(_))
    ));
}

#[test]
fn setting_a_key_makes_the_tables_on_its_way() {
    let mut d = doc("");
    assert_eq!(set_toml_key(&mut d, "remote.host", ConfigValue::Text("mba".to_string())), Ok(()));
    assert_eq!(document_text(&d), "[remote]\nhost = \"mba\"\n");
    assert_eq!(remote_host_from_doc(&d), Some("mba".to_string()));
    assert_eq!(set_toml_key(&mut d, "remote.port", ConfigValue::Integer(9)), Ok(()));
    assert_eq!(remote_port_from_doc(&d), Some(9));
    assert_eq!(set_toml_key(&mut d, "a.b.c", ConfigValue::Bool(true)), Ok(()));
    let again = doc(&document_text(&d));
    assert_eq!(again["a"]["b"]["c"].as_bool(), Some(true));
    assert_eq!(again["remote"]["host"].as_str(), Some("mba"));
    assert_eq!(again["remote"]["port"].as_integer(), Some(9));
}

#[test]
fn setting_a_key_replaces_what_is_no_table() {
    let mut d = doc("remote = 5\nkeep = 1\n");
    assert_eq!(set_toml_key(&mut d, "remote.host", ConfigValue::Text("h".to_string())), Ok(()));
    let again = doc(&document_text(&d));
    assert_eq!(again["remote"]["host"].as_str(), Some("h"));
    assert_eq!(again["keep"].as_integer(), Some(1));
    let mut d = doc("[remote]\nhost = \"old\"\n# note\nport = 1\n");
    assert_eq!(set_toml_key(&mut d, "remote.host", ConfigValue::Text("new".to_string())), Ok(()));
    assert_eq!(document_text(&d), "[remote]\nhost = \"new\"\n# note\nport = 1\n");
    assert_eq!(set_toml_key(&mut d, "remote", ConfigValue::Integer(3)), Ok(()));
    assert_eq!(doc(&document_text(&d))["remote"].as_integer(), Some(3));
}

#[test]
fn config_set_edits_the_text() {
    let args = ConfigSetArgs { key: "remote.retries".to_string(), value: "3".to_string() };
    assert_eq!(
        handle_config_set("default_provider = \"macos\"\n", &args),
        Ok("default_provider = \"macos\"\n\n[remote]\nretries = 3\n".to_string())
    );
    let args = ConfigSetArgs { key: "listener.require_token".to_string(), value: "TRUE".to_string() };
    let text = handle_config_set("", &args).unwrap();
    assert_eq!(doc(&text)["listener"]["require_token"].as_bool(), Some(true));
}

#[test]
fn forwarding_is_read_from_flag_then_default_provider() {
    assert!(!forward_enabled(&doc("")));
    assert!(forward_enabled(&doc("default_provider = \"remote\"\n")));
    assert!(!forward_enabled(&doc("default_provider = \"macos\"\n")));
    assert!(forward_enabled(&doc("[remote]\nforward_enabled = true\n")));
    assert!(!forward_enabled(&doc(
        "default_provider = \"remote\"\n[remote]\nforward_enabled = false\n"
    )));
    assert!(forward_enabled(&doc(
        "default_provider = \"remote\"\n[remote]\nforward_enabled = \"no\"\n"
    )));
    assert!(forward_enabled(&doc("remote = { forward_enabled = true }\n")));
}

#[test]
fn host_and_port_come_from_fields_then_url() {
    let d = doc("[remote]\nhost = \"h\"\nport = 9\nurl = \"http://u:2/notify\"\n");
    assert_eq!(remote_host_from_doc(&d), Some("h".to_string()));
    assert_eq!(remote_port_from_doc(&d), Some(9));
    assert_eq!(remote_url_from_doc(&d), Some("http://u:2/notify".to_string()));
    let d = doc("[remote]\nurl = \"http://u:2/notify\"\n");
    assert_eq!(remote_host_from_doc(&d), Some("u".to_string()));
    assert_eq!(remote_port_from_doc(&d), Some(2));
    let d = doc("[remote]\nhost = 5\nport = 70000\nurl = \"u:3\"\n");
    assert_eq!(remote_host_from_doc(&d), Some("u".to_string()));
    assert_eq!(remote_port_from_doc(&d), Some(3));
    let d = doc("[remote]\nport = -1\n");
    assert_eq!(remote_host_from_doc(&d), None);
    assert_eq!(remote_port_from_doc(&d), None);
    assert_eq!(remote_url_from_doc(&d), None);
    let d = doc("[remote]\nport = 65535\nurl = \"nonsense\"\n");
    assert_eq!(remote_port_from_doc(&d), Some(65535));
    assert_eq!(remote_host_from_doc(&d), None);
}

#[test]
fn remote_field_is_set_in_a_table_only() {
    let mut d = doc("");
    set_remote_field(&mut d, "host", &ConfigValue::Text("h".to_string()));
    assert_eq!(document_text(&d), "[remote]\nhost = \"h\"\n");
    set_remote_field(&mut d, "port", &ConfigValue::Integer(9));
    set_remote_field(&mut d, "forward_enabled", &ConfigValue::Bool(true));
    assert_eq!(remote_port_from_doc(&d), Some(9));
    assert!(forward_enabled(&d));
    let mut d = doc("remote = 5\n");
    set_remote_field(&mut d, "host", &ConfigValue::Text("h".to_string()));
    assert_eq!(document_text(&d), "remote = 5\n");
}

#[test]
fn status_only_asks() {
    for (text, enabled) in [("", false), ("default_provider = \"remote\"\n", true)] {
        let mut d = doc(text);
        let args = forward(ForwardState::Status, Some("h"), Some(1));
        assert_eq!(switch_forwarding(&mut d, args, true, "p"), Ok(ForwardOutcome::Status(enabled)));
        assert_eq!(document_text(&d), text);
    }
    let args = forward(ForwardState::Status, None, None);
    let report = handle_remote_forward("default_provider = \"remote\"\n", args, true, "p").unwrap();
    assert_eq!(report.line, "on");
    assert_eq!(report.contents, None);
    let args = forward(ForwardState::Status, None, None);
    let report = handle_remote_forward("", args, true, "p").unwrap();
    assert_eq!(report.line, "off");
    assert_eq!(report.contents, None);
}

#[test]
fn switching_on_without_a_host_is_refused() {
    let expected = "Remote forwarding needs a remote host.\n\nSet it with:\n  wakedev remote forward on --host mba --port 4280\nor:\n  wakedev config set remote.host mba\n  wakedev config set remote.port 4280\n\nConfig file: /etc/w.toml\nIf missing, run: wakedev config init";
    let error = NotifallError::RemoteForwardMissingHost(expected.to_string());
    assert_eq!(error.message(), expected);
    for (text, state, host) in [
        ("", ForwardState::On, None),
        ("[remote]\nport = 9\n", ForwardState::Toggle, None),
        ("remote = 5\n", ForwardState::On, Some("h")),
        ("remote = { port = 9 }\n", ForwardState::On, Some("h")),
    ] {
        let mut d = doc(text);
        let r = switch_forwarding(&mut d, forward(state, host, Some(9)), true, "/etc/w.toml");
        assert_eq!(r, Err(error.clone()));
        assert_eq!(document_text(&d), text);
        let r = handle_remote_forward(text, forward(state, host, Some(9)), true, "/etc/w.toml");
        assert_eq!(r, Err(error.clone()));
    }
}

#[test]
fn switching_on_sets_host_port_provider_and_flag() {
    let mut d = doc("default_provider = \"macos\"\n");
    let r = switch_forwarding(&mut d, forward(ForwardState::On, Some("h"), None), true, "p");
    assert_eq!(r, Ok(ForwardOutcome::Switched(true)));
    assert_eq!(
        document_text(&d),
        "default_provider = \"remote\"\n\n[remote]\nhost = \"h\"\nport = 4280\nprevious_provider = \"macos\"\nforward_enabled = true\n"
    );
    let mut d = doc(
        "default_provider = \"remote\"\nkeep = 1\n[remote]\nhost = \"old\"\nport = 1\nurl = \"u:2\"\n",
    );
    let r = switch_forwarding(&mut d, forward(ForwardState::Toggle, None, Some(9)), false, "p");
    assert_eq!(r, Ok(ForwardOutcome::Switched(false)));
    let mut d = doc("keep = 1\n[remote]\nhost = \"old\"\nport = 1\nurl = \"u:2\"\n");
    let r = switch_forwarding(&mut d, forward(ForwardState::Toggle, None, Some(9)), false, "p");
    assert_eq!(r, Ok(ForwardOutcome::Switched(true)));
    let d = doc(&document_text(&d));
    assert_eq!(d["keep"].as_integer(), Some(1));
    assert_eq!(d["default_provider"].as_str(), Some("remote"));
    assert_eq!(d["remote"]["host"].as_str(), Some("old"));
    assert_eq!(d["remote"]["port"].as_integer(), Some(9));
    assert_eq!(d["remote"]["url"].as_str(), Some("u:2"));
    assert_eq!(d["remote"]["forward_enabled"].as_bool(), Some(true));
    assert!(d["remote"].get("previous_provider").is_none());
}

#[test]
fn switching_on_keeps_a_port_that_is_named() {
    for text in ["[remote]\nhost = \"h\"\nport = 7\n", "[remote]\nurl = \"http://h:7\"\n"] {
        let mut d = doc(text);
        let r = switch_forwarding(&mut d, forward(ForwardState::On, None, None), true, "p");
        assert_eq!(r, Ok(ForwardOutcome::Switched(true)));
        assert_eq!(remote_port_from_doc(&d), Some(7));
        assert_eq!(remote_host_from_doc(&d), Some("h".to_string()));
        assert!(forward_enabled(&d));
    }
    let mut d = doc("[remote]\nhost = \"h\"\nport = 70000\n");
    let r = switch_forwarding(&mut d, forward(ForwardState::On, None, None), true, "p");
    assert_eq!(r, Ok(ForwardOutcome::Switched(true)));
    assert_eq!(remote_port_from_doc(&d), Some(4280));
}

#[test]
fn switching_on_leaves_an_inline_table_alone() {
    let text = "remote = { host = \"h\" }\n";
    let mut d = doc(text);
    let r = switch_forwarding(&mut d, forward(ForwardState::On, Some("x"), Some(9)), true, "p");
    assert_eq!(r, Ok(ForwardOutcome::Switched(true)));
    let d = doc(&document_text(&d));
    assert_eq!(d["default_provider"].as_str(), Some("remote"));
    assert_eq!(remote_host_from_doc(&d), Some("h".to_string()));
    assert_eq!(remote_port_from_doc(&d), None);
    assert!(forward_enabled(&d));
}

#[test]
fn switching_off_restores_the_previous_provider() {
    let mut d = doc(
        "default_provider = \"remote\"\n[remote]\nforward_enabled = true\nprevious_provider = \"macos\"\n",
    );
    let r = switch_forwarding(&mut d, forward(ForwardState::Toggle, None, None), false, "p");
    assert_eq!(r, Ok(ForwardOutcome::Switched(false)));
    assert_eq!(
        document_text(&d),
        "default_provider = \"macos\"\n[remote]\nforward_enabled = false\nprevious_provider = \"macos\"\n"
    );
    let mut d = doc("default_provider = \"remote\"\n[remote]\nprevious_provider = \"remote\"\n");
    let r = switch_forwarding(&mut d, forward(ForwardState::Off, Some("h"), Some(1)), true, "p");
    assert_eq!(r, Ok(ForwardOutcome::Switched(false)));
    assert_eq!(d["default_provider"].as_str(), Some("remote"));
    assert!(!forward_enabled(&d));
    assert_eq!(remote_host_from_doc(&d), None);
}

#[test]
fn switching_off_without_previous_provider_goes_by_the_platform() {
    let mut d = doc("default_provider = \"remote\"\n");
    let r = switch_forwarding(&mut d, forward(ForwardState::Off, None, None), true, "p");
    assert_eq!(r, Ok(ForwardOutcome::Switched(false)));
    assert_eq!(d["default_provider"].as_str(), Some("macos"));
    assert_eq!(d["remote"]["forward_enabled"].as_bool(), Some(false));
    let mut d = doc("default_provider = \"remote\"\nkeep = true\n");
    let r = switch_forwarding(&mut d, forward(ForwardState::Off, None, None), false, "p");
    assert_eq!(r, Ok(ForwardOutcome::Switched(false)));
    assert!(d.get("default_provider").is_none());
    assert_eq!(d["keep"].as_bool(), Some(true));
    assert_eq!(d["remote"]["forward_enabled"].as_bool(), Some(false));
}

#[test]
fn default_provider_is_set_at_the_top() {
    let mut d = doc("[remote]\nhost = \"h\"\n");
    set_default_provider(&mut d, "macos");
    let d = doc(&document_text(&d));
    assert_eq!(d["default_provider"].as_str(), Some("macos"));
    assert_eq!(d["remote"]["host"].as_str(), Some("h"));
    let mut d = doc("default_provider = 5\n");
    set_default_provider(&mut d, "remote");
    assert_eq!(document_text(&d), "default_provider = \"remote\"\n");
}

#[test]
fn forwarding_round_trips_through_the_file() {
    let args = forward(ForwardState::On, Some("mba"), None);
    let report =
        handle_remote_forward("default_provider = \"macos\"\n", args, true, "p").unwrap();
    assert_eq!(report.line, "remote forwarding enabled");
    let on = report.contents.unwrap();
    let d = doc(&on);
    assert!(forward_enabled(&d));
    assert_eq!(d["default_provider"].as_str(), Some("remote"));
    assert_eq!(d["remote"]["host"].as_str(), Some("mba"));
    assert_eq!(d["remote"]["port"].as_integer(), Some(4280));
    assert_eq!(d["remote"]["previous_provider"].as_str(), Some("macos"));
    let args = forward(ForwardState::Toggle, None, None);
    let report = handle_remote_forward(&on, args, false, "p").unwrap();
    assert_eq!(report.line, "remote forwarding disabled");
    let off = report.contents.unwrap();
    let d = doc(&off);
    assert!(!forward_enabled(&d));
    assert_eq!(d["default_provider"].as_str(), Some("macos"));
    assert_eq!(d["remote"]["host"].as_str(), Some("mba"));
    let args = forward(ForwardState::Off, None, None);
    let report = handle_remote_forward("", args, false, "p").unwrap();
    let d = doc(&report.contents.unwrap());
    assert!(d.get("default_provider").is_none());
    assert_eq!(d["remote"]["forward_enabled"].as_bool(), Some(false));
}

#[test]
fn setting_a_key_keeps_its_neighbours() {
    let mut d = doc("[remote]\nhost = \"h\"\nport = 9\n[remote.extra]\nx = 1\n[other]\ny = 2\n");
    assert_eq!(set_toml_key(&mut d, "remote.host", ConfigValue::Text("new".to_string())), Ok(()));
    assert_eq!(
        document_text(&d),
        "[remote]\nhost = \"new\"\nport = 9\n[remote.extra]\nx = 1\n[other]\ny = 2\n"
    );
    assert_eq!(set_toml_key(&mut d, "remote.extra.z", ConfigValue::Bool(false)), Ok(()));
    let d = doc(&document_text(&d));
    assert_eq!(d["remote"]["port"].as_integer(), Some(9));
    assert_eq!(d["remote"]["extra"]["x"].as_integer(), Some(1));
    assert_eq!(d["remote"]["extra"]["z"].as_bool(), Some(false));
    assert_eq!(d["other"]["y"].as_integer(), Some(2));
}

#[test]
fn forwarding_on_then_off_gives_the_provider_back() {
    let start = "default_provider = \"macos\"\nkeep = 1\n";
    let args = forward(ForwardState::On, Some("h"), Some(9));
    let on = handle_remote_forward(start, args, true, "p").unwrap().contents.unwrap();
    let args = forward(ForwardState::Off, None, None);
    let off = handle_remote_forward(&on, args, false, "p").unwrap().contents.unwrap();
    let d = doc(&off);
    assert_eq!(d["default_provider"].as_str(), Some("macos"));
    assert_eq!(d["keep"].as_integer(), Some(1));
    assert_eq!(d["remote"]["forward_enabled"].as_bool(), Some(false));
    assert_eq!(d["remote"]["host"].as_str(), Some("h"));
    assert_eq!(d["remote"]["port"].as_integer(), Some(9));
    assert!(!forward_enabled(&d));
}

#[test]
fn codex_install_keeps_the_other_settings() {
    let text = install_codex("# note\nmodel = \"x\"\n\n[profile]\na = 1\n", "w").unwrap();
    let d = doc(&text);
    assert_eq!(d["model"].as_str(), Some("x"));
    assert_eq!(d["profile"]["a"].as_integer(), Some(1));
    assert!(text.starts_with("# note\nmodel = \"x\"\n"));
}

#[test]
fn codex_is_told_to_call_this_program() {
    assert_eq!(codex_notify_command("/bin/w"), vec!["/bin/w", "hook", "codex"]);
    let text = install_codex("model = \"x\"\n", "/bin/w").unwrap();
    let d = doc(&text);
    assert_eq!(d["model"].as_str(), Some("x"));
    let notify: Vec<&str> =
        d["notify"].as_array().unwrap().iter().map(|v| v.as_str().unwrap()).collect();
    assert_eq!(notify, vec!["/bin/w", "hook", "codex"]);
    let text = install_codex("notify = 1\n", "w").unwrap();
    assert_eq!(doc(&text)["notify"].as_array().unwrap().len(), 3);
}
