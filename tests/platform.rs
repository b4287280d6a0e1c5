use flutter_glfw::platform::{
    get_clipboard_data, same_text, set_application_switcher_description, AppSwitcherDescription,
    MimeError,
};

#[test]
fn plain_text_reads_back_what_was_set() {
    assert_eq!(
        get_clipboard_data("text/plain", Some("hello".to_string())),
        Ok("hello".to_string())
    );
}

#[test]
fn empty_clipboard_reads_as_empty_string() {
    assert_eq!(get_clipboard_data("text/plain", None), Ok(String::new()));
}

#[test]
fn json_is_unsupported_whatever_the_clipboard_holds() {
    assert_eq!(get_clipboard_data("application/json", None), Err(MimeError));
    assert_eq!(
        get_clipboard_data("application/json", Some("{\"a\":1}".to_string())),
        Err(MimeError)
    );
}

#[test]
fn near_misses_of_plain_text_are_unsupported() {
    assert_eq!(get_clipboard_data("text/plai", Some("x".to_string())), Err(MimeError));
    assert_eq!(get_clipboard_data("text/plainx", Some("x".to_string())), Err(MimeError));
    assert_eq!(get_clipboard_data("TEXT/PLAIN", Some("x".to_string())), Err(MimeError));
    assert_eq!(get_clipboard_data("", None), Err(MimeError));
}

#[test]
fn clipboard_text_is_kept_exactly() {
    let text = "ünïcødé\nline two".to_string();
    assert_eq!(get_clipboard_data("text/plain", Some(text.clone())), Ok(text));
}

#[test]
fn same_text_compares_characters() {
    assert!(same_text("text/plain", "text/plain"));
    assert!(same_text("", ""));
    assert!(!same_text("text/plain", "text/html"));
    assert!(!same_text("é", "e"));
    assert!(!same_text("ab", "abc"));
}

#[test]
fn switcher_title_is_the_label() {
    let d = AppSwitcherDescription { primary_color: 0xff00ff, label: "My App".to_string() };
    assert_eq!(set_application_switcher_description(d), "My App".to_string());
}
