use cew::Inspect;
use cew::Lay;
use cew::Pipe;

#[test]
fn test_thing() {
    let _ = 100.pipe(|n| n + 10);
}

#[test]
fn pipe_applies_the_transformation() {
    assert_eq!(100.pipe(|n| n + 10), 110);
}

#[test]
fn inspect_returns_the_value_unchanged() {
    let seen = std::cell::Cell::new(0u64);
    let v = 5u64.inspect(|n| seen.set(*n));
    assert_eq!(v, 5);
    assert_eq!(seen.get(), 5);
}

#[test]
fn inspect_try_passes_ok_through() {
    let r: Result<u64, String> = 5u64.inspect_try(|_| Ok::<u32, String>(1));
    assert_eq!(r, Ok(5));
}

#[test]
fn inspect_try_propagates_the_error() {
    let r: Result<u64, String> = 5u64.inspect_try(|_| Err::<u32, String>("nope".to_string()));
    assert_eq!(r, Err("nope".to_string()));
}

#[test]
fn inspect_maybe_passes_some_through() {
    let r = 5u64.inspect_maybe(|_| Some(1u32));
    assert_eq!(r, Some(5));
}

#[test]
fn inspect_maybe_propagates_none() {
    let r = 5u64.inspect_maybe(|_| None::<u32>);
    assert_eq!(r, None);
}

#[test]
fn lay_returns_the_mutated_value() {
    let v = 100u64.lay(|m| *m += 10);
    assert_eq!(v, 110);
}

#[test]
fn lay_try_returns_the_mutated_value_on_ok() {
    let r: Result<u64, String> = 100u64.lay_try(|m| {
        *m += 10;
        Ok::<u32, String>(1)
    });
    assert_eq!(r, Ok(110));
}

#[test]
fn lay_try_propagates_the_error() {
    let r: Result<u64, String> = 100u64.lay_try(|m| {
        *m += 10;
        Err::<u32, String>("nope".to_string())
    });
    assert_eq!(r, Err("nope".to_string()));
}

#[test]
fn lay_maybe_returns_the_mutated_value_on_some() {
    let r = 100u64.lay_maybe(|m| {
        *m += 10;
        Some(1u32)
    });
    assert_eq!(r, Some(110));
}

#[test]
fn lay_maybe_propagates_none() {
    let r = 100u64.lay_maybe(|m| {
        *m += 10;
        None::<u32>
    });
    assert_eq!(r, None);
}
