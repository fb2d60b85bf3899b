use cew::Error;
use cew::Level;

#[test]
fn second_subscriber_install_fails_with_try_init() {
    let first = cew::init_fmt_env(
        cew::fmt_layer(),
        Level::Info,
        vec![("interesting_target".to_string(), Level::Debug)],
    );
    assert!(first.is_ok());

    let second = cew::init_fmt_env(cew::fmt_layer(), Level::Warn, vec![]);
    match second {
        Err(Error::TryInit(_)) => {}
        Err(Error::EnvFilter(_)) => panic!("expected the double-install error kind"),
        Ok(()) => panic!("expected the second install to fail"),
    }
}
