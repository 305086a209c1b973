use page_responder::greeting::greeting;

#[test]
fn greet_alert_ee() {
    assert_eq!(greeting("alert-ee"), "Hello, alert-ee!");
}

#[test]
fn greet_empty_subject() {
    assert_eq!(greeting(""), "Hello, !");
}

#[test]
fn greet_other_subject() {
    assert_eq!(greeting("world"), "Hello, world!");
}
