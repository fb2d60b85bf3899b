#[test]
fn second_install_fails_without_panicking() {
    assert!(cew::init().is_ok());
    let again: cew::U = cew::init();
    assert!(again.is_err());
}
