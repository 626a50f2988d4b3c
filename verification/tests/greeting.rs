use window_menu::greeting::greet;

#[test]
fn greet_wraps_the_name() {
    assert_eq!(
        greet("name"),
        "Hello, name! You've been greeted from Rust!"
    );
}

#[test]
fn greet_empty_name() {
    assert_eq!(greet(""), "Hello, ! You've been greeted from Rust!");
}
