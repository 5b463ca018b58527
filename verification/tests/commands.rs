use app_shell::commands::{get_app_version, greet};

#[test]
fn greet_embeds_name() {
    assert_eq!(
        greet("World"),
        "Hello, World! You've been greeted from Rust!"
    );
}

#[test]
fn greet_empty_name() {
    assert_eq!(greet(""), "Hello, ! You've been greeted from Rust!");
}

#[test]
fn greet_keeps_name_verbatim() {
    let name = "Ada Lovelace";
    let g = greet(name);
    assert!(g.contains(name));
    assert!(g.ends_with("! You've been greeted from Rust!"));
    assert!(g.starts_with("Hello, "));
}

#[test]
fn version_is_the_configured_string() {
    assert_eq!(get_app_version(), "1.0.0");
}

#[test]
fn version_is_stable_across_calls() {
    assert_eq!(get_app_version(), get_app_version());
}
