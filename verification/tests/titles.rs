use servo_backend::servo_integration::ServoInstance;
use servo_backend::title::extract_title_from_url;

#[test]
fn title_is_the_host_component() {
    assert_eq!(extract_title_from_url("http://example.com"), "example.com");
    assert_eq!(extract_title_from_url("https://example.com:8080/a/b?q=1"), "example.com");
    assert_eq!(extract_title_from_url("http://sub.domain.test/path"), "sub.domain.test");
}

#[test]
fn unresolvable_urls_fall_back_to_the_sentinel() {
    assert_eq!(extract_title_from_url("not a url"), "New Tab");
    assert_eq!(extract_title_from_url(""), "New Tab");
    // Parses, but has no host component.
    assert_eq!(extract_title_from_url("mailto:someone@example.com"), "New Tab");
}

#[test]
fn engine_handle_operations_are_accepted() {
    let mut engine = ServoInstance::new();
    engine.navigate("http://example.com");
    engine.go_back();
    engine.go_forward();
    engine.refresh();
    let _other = ServoInstance::default();
}
