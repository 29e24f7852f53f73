use eliza_desktop::greeting::greet;

#[test]
fn greets_by_name() {
    assert_eq!(greet("World"), "Hello, World! You've been greeted from Rust!");
}

#[test]
fn greets_an_empty_name() {
    assert_eq!(greet(""), "Hello, ! You've been greeted from Rust!");
}

#[test]
fn greeting_keeps_the_name_as_it_is() {
    assert_eq!(
        greet("Zo\u{eb} {} %s"),
        "Hello, Zo\u{eb} {} %s! You've been greeted from Rust!"
    );
}

#[test]
fn greeting_matches_the_formatted_text() {
    let name = "Ada";
    assert_eq!(greet(name), format!("Hello, {}! You've been greeted from Rust!", name));
}
