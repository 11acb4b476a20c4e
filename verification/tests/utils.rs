use noughts_and_crosses::error::{ConfigFault, Error};
use noughts_and_crosses::utils::{get_config, get_keypair_path, get_rpc_url, single_document, text_field};
use yaml_rust::Yaml;

const CONFIG: &str = "---\njson_rpc_url: \"http://localhost:8899\"\nwebsocket_url: \"\"\nkeypair_path: /home/user/.config/solana/id.json\nkeypair_1_path: /home/user/one.json\ncommitment: confirmed\nretries: 3\n";

#[test]
fn the_url_of_the_ledger_is_read() {
    assert_eq!(get_rpc_url(CONFIG), Ok("http://localhost:8899".to_string()));
}

#[test]
fn the_path_of_a_keypair_is_read() {
    assert_eq!(
        get_keypair_path(CONFIG, "keypair_path"),
        Ok("/home/user/.config/solana/id.json".to_string())
    );
    assert_eq!(get_keypair_path(CONFIG, "keypair_1_path"), Ok("/home/user/one.json".to_string()));
    assert_eq!(get_keypair_path(CONFIG, "websocket_url"), Ok(String::new()));
}

#[test]
fn a_field_that_is_missing_is_named() {
    assert_eq!(
        get_keypair_path(CONFIG, "keypair_2_path"),
        Err(Error::InvalidConfig(ConfigFault::MissingField("keypair_2_path".to_string())))
    );
    assert_eq!(
        get_rpc_url("keypair_path: here\n"),
        Err(Error::InvalidConfig(ConfigFault::MissingField("json_rpc_url".to_string())))
    );
}

#[test]
fn a_field_that_is_no_text_is_missing() {
    assert_eq!(
        get_keypair_path(CONFIG, "retries"),
        Err(Error::InvalidConfig(ConfigFault::MissingField("retries".to_string())))
    );
    assert_eq!(
        get_rpc_url("json_rpc_url: [a, b]\n"),
        Err(Error::InvalidConfig(ConfigFault::MissingField("json_rpc_url".to_string())))
    );
    assert_eq!(
        get_rpc_url("- json_rpc_url\n- other\n"),
        Err(Error::InvalidConfig(ConfigFault::MissingField("json_rpc_url".to_string())))
    );
}

#[test]
fn one_document_is_expected() {
    assert_eq!(get_rpc_url(""), Err(Error::InvalidConfig(ConfigFault::DocumentCount(0))));
    assert_eq!(
        get_rpc_url("json_rpc_url: a\n---\njson_rpc_url: b\n"),
        Err(Error::InvalidConfig(ConfigFault::DocumentCount(2)))
    );
    assert_eq!(get_config("").err(), Some(Error::InvalidConfig(ConfigFault::DocumentCount(0))));
}

#[test]
fn text_that_is_not_yaml_is_refused() {
    assert!(matches!(
        get_rpc_url("json_rpc_url: \"unclosed\n"),
        Err(Error::InvalidConfig(ConfigFault::Syntax(_)))
    ));
    assert!(matches!(
        get_config("a: [1, 2\n"),
        Err(Error::InvalidConfig(ConfigFault::Syntax(_)))
    ));
}

#[test]
fn the_document_of_a_configuration_is_handed_out() {
    let document = get_config(CONFIG).unwrap();
    assert_eq!(document["commitment"].as_str(), Some("confirmed"));
    assert_eq!(document["retries"].as_i64(), Some(3));
    assert_eq!(text_field(&document, "commitment"), Ok("confirmed".to_string()));
}

#[test]
fn a_single_document_is_picked() {
    let one = Yaml::String("one".to_string());
    let two = Yaml::Integer(2);
    assert_eq!(single_document(vec![one.clone()]), Ok(one.clone()));
    assert_eq!(
        single_document(vec![one, two]),
        Err(Error::InvalidConfig(ConfigFault::DocumentCount(2)))
    );
    assert_eq!(single_document(vec![]), Err(Error::InvalidConfig(ConfigFault::DocumentCount(0))));
}

#[test]
fn a_text_is_read_from_a_mapping_only() {
    assert_eq!(
        text_field(&Yaml::String("json_rpc_url".to_string()), "json_rpc_url"),
        Err(Error::InvalidConfig(ConfigFault::MissingField("json_rpc_url".to_string())))
    );
    assert_eq!(
        text_field(&Yaml::Null, "a"),
        Err(Error::InvalidConfig(ConfigFault::MissingField("a".to_string())))
    );
}
