use desktop_shell::greeting::greet;

#[test]
fn greets_ada() {
    assert_eq!(greet("Ada"), "Hello, Ada! You've been greeted from Rust!");
}

#[test]
fn greets_an_empty_name() {
    assert_eq!(greet(""), "Hello, ! You've been greeted from Rust!");
}

#[test]
fn keeps_the_name_as_given() {
    assert_eq!(
        greet("  Zoë {}\n"),
        "Hello,   Zoë {}\n! You've been greeted from Rust!"
    );
}

#[test]
fn greeting_is_longer_than_the_name_by_a_fixed_amount() {
    let name = "Grace Hopper";
    let text = greet(name);
    assert_eq!(text.chars().count(), name.chars().count() + 39);
    assert!(text.starts_with("Hello, Grace Hopper"));
    assert!(text.ends_with("! You've been greeted from Rust!"));
}
