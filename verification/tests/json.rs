//! Reading members of JSON documents.

use x0rs::json::{flag_member, present_member, text_member, unsigned_member};
use x0rs::model::info::{Info, NamespaceIdRules, Settings};
use x0rs::model::namespace::Namespace;

fn document(text: &str) -> serde_json::Value {
    serde_json::from_str(text).unwrap()
}

#[test]
fn members_are_read_by_name_and_type() {
    let value = document("{\"a\":\"x\",\"b\":true,\"c\":7}");
    assert_eq!(text_member(&value, "a"), Some("x".to_string()));
    assert_eq!(flag_member(&value, "b"), Some(true));
    assert_eq!(unsigned_member(&value, "c"), Some(7));
    assert_eq!(text_member(&value, "b"), None);
    assert_eq!(text_member(&value, "c"), None);
    assert_eq!(flag_member(&value, "a"), None);
    assert_eq!(unsigned_member(&value, "a"), None);
    assert_eq!(unsigned_member(&value, "missing"), None);
    assert_eq!(flag_member(&value, "B"), None);
}

#[test]
fn values_that_are_no_objects_have_no_members() {
    for text in ["null", "true", "7", "\"a\"", "[{\"a\":\"x\"}]"] {
        let value = document(text);
        assert_eq!(text_member(&value, "a"), None);
        assert_eq!(flag_member(&value, "a"), None);
        assert_eq!(unsigned_member(&value, "a"), None);
        assert!(present_member(&value, "a").is_none());
    }
}

#[test]
fn unsigned_members_are_the_integers_from_zero_that_fit() {
    let value = document(
        "{\"zero\":0,\"max\":18446744073709551615,\"over\":18446744073709551616,\
         \"negative\":-1,\"fraction\":1.0,\"exponent\":1e2}",
    );
    assert_eq!(unsigned_member(&value, "zero"), Some(0));
    assert_eq!(unsigned_member(&value, "max"), Some(u64::MAX));
    assert_eq!(unsigned_member(&value, "over"), None);
    assert_eq!(unsigned_member(&value, "negative"), None);
    assert_eq!(unsigned_member(&value, "fraction"), None);
    assert_eq!(unsigned_member(&value, "exponent"), None);
}

#[test]
fn a_null_member_counts_as_absent() {
    let value = document("{\"a\":null,\"b\":false,\"c\":{}}");
    assert!(present_member(&value, "a").is_none());
    assert!(present_member(&value, "missing").is_none());
    assert_eq!(present_member(&value, "b"), Some(&document("false")));
    assert_eq!(present_member(&value, "c"), Some(&document("{}")));
}

#[test]
fn texts_are_read_with_their_escapes_resolved() {
    let value = document("{\"a\":\"line\\nbreak \\u00e9 \\\"q\\\"\",\"\":\"empty name\"}");
    assert_eq!(text_member(&value, "a"), Some("line\nbreak é \"q\"".to_string()));
    assert_eq!(text_member(&value, ""), Some("empty name".to_string()));
}

#[test]
fn rules_settings_info_and_namespace_are_read_from_values() {
    let rules = document("{\"min_length\":1,\"max_length\":32,\"allowed_characters\":\"a-z\"}");
    assert_eq!(
        NamespaceIdRules::from_json(&rules),
        Some(NamespaceIdRules {
            min_length: 1,
            max_length: 32,
            allowed_characters: "a-z".to_string()
        })
    );
    assert_eq!(NamespaceIdRules::from_json(&document("{\"min_length\":1}")), None);
    let settings = document(
        "{\"invites\":true,\"namespace_id_rules\":{\"min_length\":2,\"max_length\":3,\
         \"allowed_characters\":\"\"}}",
    );
    assert_eq!(
        Settings::from_json(&settings),
        Some(Settings {
            invites: true,
            namespace_id_rules: NamespaceIdRules {
                min_length: 2,
                max_length: 3,
                allowed_characters: String::new()
            },
        })
    );
    assert_eq!(Settings::from_json(&rules), None);
    assert_eq!(
        Info::from_json(&document("{\"version\":\"v\",\"production\":true}")),
        Some(Info { version: "v".to_string(), production: true, settings: None })
    );
    assert_eq!(Info::from_json(&settings), None);
    assert_eq!(
        Namespace::from_json(&document("{\"id\":\"n\",\"active\":true,\"created\":5}")),
        Some(Namespace { id: "n".to_string(), active: true, created: Some(5) })
    );
    assert_eq!(Namespace::from_json(&rules), None);
}
