use s3_client::analysis::Computation;
use s3_client::number::{decimal_string, parse_u32};
use s3_client::path::{diamonds_path, key_to_filename, ObjectPath};
use s3_client::Error;
use s3_client::Kind;

#[test]
fn a_path_under_the_diamonds_of_a_bucket() {
    let path = ObjectPath::new("alpha", "/etlObj.json").with_diamonds().with_bucket("bucket").build();
    assert_eq!(path, "bucket/alpha/shared/diamonds/alpha/etlObj.json");
    let plain = ObjectPath::new("alpha", "dir/x.json");
    assert_eq!(plain.as_str(), "alpha/dir/x.json");
}

#[test]
fn the_diamonds_prefix_of_a_project() {
    assert_eq!(diamonds_path("beta"), "beta/shared/diamonds/beta");
}

#[test]
fn file_names_of_keys() {
    assert_eq!(key_to_filename("a/b/c.json"), "c.json");
    assert_eq!(key_to_filename("c.json"), "c.json");
    assert_eq!(key_to_filename("a/b/"), "");
    assert_eq!(key_to_filename(""), "");
}

#[test]
fn decimal_forms() {
    assert_eq!(decimal_string(0), "0");
    assert_eq!(decimal_string(52418), "52418");
    assert_eq!(parse_u32("4294967295"), Some(4294967295));
    assert_eq!(parse_u32("4294967296"), None);
    assert_eq!(parse_u32(""), None);
    assert_eq!(parse_u32("1e3"), None);
    assert_eq!(parse_u32("007"), Some(7));
}

#[test]
fn errors_carry_kind_key_and_message() {
    let e = Error::about(Kind::MalformedData, "idx", "an integer").within("field");
    assert!(e.is_malformed_data());
    assert!(!e.is_timedout());
    assert_eq!(e.key.as_deref(), Some("field/idx"));
    assert_eq!(e.msg.as_deref(), Some("an integer"));
    let e = e.without_key().with_msg("other");
    assert_eq!(e.key, None);
    assert_eq!(e.msg.as_deref(), Some("other"));
    assert!(Error::new(Kind::TimedOut).is_timedout());
}

#[test]
fn a_computation_is_always_made() {
    assert!(Computation::new(3u8).is_ok());
}

#[test]
fn an_error_describes_itself() {
    let e = Error::about(Kind::MissingParameter, "idx", "a required key is absent").within("etlFields/npi");
    assert_eq!(e.describe(), "missing parameter at etlFields/npi/idx: a required key is absent");
    assert_eq!(Error::new(Kind::TimedOut).describe(), "timed-out");
}
