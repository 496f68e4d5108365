use discord_controls::args::Args;
use discord_controls::registry::Registry;

fn argv(xs: &[&str]) -> Vec<String> {
    xs.iter().map(|x| x.to_string()).collect()
}

#[test]
fn command_line_is_read() {
    let args = Args::parse(&argv(&["plugin", "-port", "28196", "-pluginUUID", "uuid", "-registerEvent", "registerPlugin", "-info", "{}"]))
        .ok()
        .unwrap();
    assert_eq!(args.port, 28196);
    assert_eq!(args.plugin_uuid, "uuid");
    assert_eq!(args.register_event, "registerPlugin");
}

#[test]
fn later_flags_replace_earlier_ones() {
    let args = Args::parse(&argv(&["p", "-port", "1", "-pluginUUID", "a", "-registerEvent", "e", "-port", "2", "-unknown", "x"]))
        .ok()
        .unwrap();
    assert_eq!(args.port, 2);
}

#[test]
fn command_line_errors() {
    assert_eq!(Args::parse(&argv(&["p", "-port"])).err().unwrap().message, "missing value for argument: -port");
    let bad_digit = Args::parse(&argv(&["p", "-port", "x"])).err().unwrap();
    assert_eq!(bad_digit.message, "invalid port");
    assert_eq!(bad_digit.detail, "invalid port: invalid digit found in string");
    let too_large = Args::parse(&argv(&["p", "-port", "70000"])).err().unwrap();
    assert_eq!(too_large.message, "invalid port");
    assert_eq!(too_large.detail, "invalid port: number too large to fit in target type");
    assert_eq!(
        Args::parse(&argv(&["p", "-port", ""])).err().unwrap().detail,
        "invalid port: cannot parse integer from empty string"
    );
    assert_eq!(Args::parse(&argv(&["p"])).err().unwrap().message, "missing -port");
    assert_eq!(Args::parse(&argv(&[])).err().unwrap().message, "missing -port");
    assert_eq!(Args::parse(&argv(&["p", "-port", "1"])).err().unwrap().message, "missing -pluginUUID");
    assert_eq!(
        Args::parse(&argv(&["p", "-port", "1", "-pluginUUID", "u"])).err().unwrap().message,
        "missing -registerEvent"
    );
    assert_eq!(
        Args::parse(&argv(&["p", "-pluginUUID", "u", "-info"])).err().unwrap().message,
        "missing value for argument: -info"
    );
}

#[test]
fn registry_keeps_one_value_per_key() {
    let mut r: Registry<u32> = Registry::new();
    assert!(!r.contains_key("a"));
    r.insert("a".to_string(), 1);
    r.insert("b".to_string(), 2);
    r.insert("a".to_string(), 3);
    assert_eq!(r.get("a"), Some(&3));
    assert_eq!(r.get("b"), Some(&2));
    assert_eq!(r.remove("a"), Some(3));
    assert_eq!(r.remove("a"), None);
    assert_eq!(r.get("a"), None);
    assert!(r.contains_key("b"));
    r.clear();
    assert!(!r.contains_key("b"));
}
