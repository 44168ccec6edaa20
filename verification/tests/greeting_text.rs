use greeting::hello;

#[test]
fn test_hello() {
    assert_eq!(hello(), "Hello from @ign-var:PROJECT_NAME@!");
}

#[test]
fn hello_is_the_same_at_every_call() {
    let first = hello();
    let second = hello();
    assert_eq!(first, second);
    for _ in 0..100 {
        assert_eq!(hello(), first);
    }
}

#[test]
fn hello_is_not_empty() {
    assert!(!hello().is_empty());
}

#[test]
fn hello_begins_with_the_opening_words() {
    assert!(hello().starts_with("Hello from "));
}

#[test]
fn hello_ends_with_an_exclamation_mark() {
    assert!(hello().ends_with('!'));
    assert_eq!(hello().chars().last(), Some('!'));
}

#[test]
fn hello_holds_the_name_between_opening_words_and_mark() {
    let text = hello();
    let name = &text["Hello from ".len()..text.len() - 1];
    assert_eq!(name, "@ign-var:PROJECT_NAME@");
}

#[test]
fn hello_has_thirty_four_ascii_characters() {
    let text = hello();
    assert!(text.is_ascii());
    assert_eq!(text.len(), 34);
    assert_eq!(text.chars().count(), 34);
}

#[test]
fn hello_is_built_from_its_three_parts() {
    let built = format!("{}{}{}", "Hello from ", "@ign-var:PROJECT_NAME@", "!");
    assert_eq!(hello(), built);
}
