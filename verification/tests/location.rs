use s3_bulk_move::errors::MoveError;
use s3_bulk_move::location::{parse_location, serialize_location};

#[test]
fn parse_with_prefix() {
    let loc = parse_location("s3://bucket/a/b/").unwrap();
    assert_eq!(loc.container, "bucket");
    assert_eq!(loc.key_prefix.as_deref(), Some("a/b/"));
}

#[test]
fn parse_without_prefix() {
    let loc = parse_location("s3://bucket/").unwrap();
    assert_eq!(loc.container, "bucket");
    assert_eq!(loc.key_prefix, None);
}

#[test]
fn parse_deep_key_path() {
    let loc = parse_location("s3://b/p/q/r.txt").unwrap();
    assert_eq!(loc.container, "b");
    assert_eq!(loc.key_prefix.as_deref(), Some("p/q/r.txt"));
}

#[test]
fn parse_rejects_wrong_scheme() {
    assert_eq!(parse_location("http://bucket/a").err(), Some(MoveError::MalformedLocation));
    assert_eq!(parse_location("s3:/bucket/a").err(), Some(MoveError::MalformedLocation));
    assert_eq!(parse_location("bucket/a").err(), Some(MoveError::MalformedLocation));
    assert_eq!(parse_location("").err(), Some(MoveError::MalformedLocation));
}

#[test]
fn parse_rejects_empty_container() {
    assert_eq!(parse_location("s3:///a/b").err(), Some(MoveError::MalformedLocation));
}

#[test]
fn parse_rejects_container_without_slash() {
    assert_eq!(parse_location("s3://bucket").err(), Some(MoveError::MalformedLocation));
}

#[test]
fn serialize_round_trips_prefix() {
    let loc = parse_location("s3://bucket/logs/2020/").unwrap();
    let text = serialize_location(&loc);
    assert_eq!(text, "s3://bucket/logs/2020/");
    let again = parse_location(&text).unwrap();
    assert_eq!(again.container, loc.container);
    assert_eq!(again.key_prefix, loc.key_prefix);
}

#[test]
fn serialize_round_trips_without_prefix() {
    let loc = parse_location("s3://bucket/").unwrap();
    let text = serialize_location(&loc);
    assert_eq!(text, "s3://bucket/");
    let again = parse_location(&text).unwrap();
    assert_eq!(again.container, "bucket");
    assert_eq!(again.key_prefix, None);
}

#[test]
fn error_messages() {
    assert!(MoveError::MalformedLocation.message().contains("malformed location"));
    assert!(MoveError::UnknownRegion.message().contains("region"));
    assert!(MoveError::InvalidPattern.message().contains("pattern"));
    assert!(MoveError::StorageApi.message().contains("storage"));
}
