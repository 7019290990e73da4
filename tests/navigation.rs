use atom_shield::navigation::{navigate_script, BACK_SCRIPT, FORWARD_SCRIPT, RELOAD_SCRIPT};

#[test]
fn navigate_script_quotes_the_url() {
    assert_eq!(navigate_script("https://example.com/"), "window.location.href = 'https://example.com/'");
}

#[test]
fn navigate_script_escapes_single_quotes() {
    assert_eq!(
        navigate_script("https://example.com/it's'"),
        "window.location.href = 'https://example.com/it\\'s\\''"
    );
    assert_eq!(navigate_script(""), "window.location.href = ''");
    assert_eq!(navigate_script("ñ'ü"), "window.location.href = 'ñ\\'ü'");
}

#[test]
fn history_scripts() {
    assert_eq!(BACK_SCRIPT, "window.history.back()");
    assert_eq!(FORWARD_SCRIPT, "window.history.forward()");
    assert_eq!(RELOAD_SCRIPT, "window.location.reload()");
}
