use kvstore::key::compose_key;

#[test]
fn key_joins_environment_and_application() {
    assert_eq!(compose_key("dev", "app1"), "dev/app1");
    assert_eq!(compose_key("", ""), "/");
    assert_eq!(compose_key("prod", ""), "prod/");
}

#[test]
fn separator_in_a_segment_collides() {
    assert_eq!(compose_key("a/b", "c"), compose_key("a", "b/c"));
    assert_eq!(compose_key("a/b", "c"), "a/b/c");
}

#[test]
fn plain_environments_give_distinct_keys() {
    assert_ne!(compose_key("a", "b"), compose_key("ab", ""));
    assert_ne!(compose_key("a", "b/c"), compose_key("ab", "c"));
    assert_ne!(compose_key("dev", "app1"), compose_key("dev", "app2"));
}
