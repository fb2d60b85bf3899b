//! A thin initializer for a process-wide structured-logging subscriber:
//! formatted output, a per-target severity filter with a default level,
//! and an environment-variable-driven override.

use vstd::prelude::*;
use tracing_subscriber::filter::FilterExt;
use tracing_subscriber::layer::Layer as _;
use tracing_subscriber::layer::SubscriberExt;
use tracing_subscriber::util::SubscriberInitExt;

verus! {

/// A formatting layer for the process-wide subscriber, carried opaquely
/// from `fmt_layer` to `init_fmt_env`.  (The outside layer type cannot
/// stand in a signature here: its default writer parameter is a function
/// pointer type.)
#[verifier::external_body]
pub struct FmtLayer {
    layer: tracing_subscriber::fmt::Layer<tracing_subscriber::Registry>,
}

#[verifier::external_type_specification]
#[verifier::external_body]
pub struct ExLevelFilter(tracing_subscriber::filter::LevelFilter);

#[verifier::external_type_specification]
#[verifier::external_body]
pub struct ExEnvFilter(tracing_subscriber::EnvFilter);

#[verifier::external_type_specification]
#[verifier::external_body]
pub struct ExTargets(tracing_subscriber::filter::Targets);

#[verifier::external_type_specification]
#[verifier::external_body]
pub struct ExTryInitError(tracing_subscriber::util::TryInitError);

#[verifier::external_type_specification]
#[verifier::external_body]
pub struct ExFromEnvError(tracing_subscriber::filter::FromEnvError);

/// A minimum severity for diagnostic events, from `Off` (nothing passes)
/// to `Trace` (everything passes).
#[derive(Clone, Copy, Debug, PartialEq, Eq, Structural)]
pub enum Level {
    Off,
    Error,
    Warn,
    Info,
    Debug,
    Trace,
}

/// Why installing the logging subscriber failed.
pub enum Error {
    /// A process-wide subscriber was already installed.
    TryInit(tracing_subscriber::util::TryInitError),
    /// The environment variable holds a malformed filter directive.
    EnvFilter(tracing_subscriber::filter::FromEnvError),
}

/// A fresh formatting layer with default settings, for `init_fmt_env`.
///
/// Relies on `tracing_subscriber::fmt::layer`: it only builds a value and
/// touches no process-global state.
#[verifier::external_body]
pub fn fmt_layer() -> FmtLayer {
    FmtLayer { layer: tracing_subscriber::fmt::layer() }
}

/// Relies on the `tracing_subscriber::filter::LevelFilter` constants: each
/// library level becomes the severity filter of the same name.
#[verifier::external_body]
fn to_level_filter(level: &Level) -> tracing_subscriber::filter::LevelFilter {
    match level {
        Level::Off => tracing_subscriber::filter::LevelFilter::OFF,
        Level::Error => tracing_subscriber::filter::LevelFilter::ERROR,
        Level::Warn => tracing_subscriber::filter::LevelFilter::WARN,
        Level::Info => tracing_subscriber::filter::LevelFilter::INFO,
        Level::Debug => tracing_subscriber::filter::LevelFilter::DEBUG,
        Level::Trace => tracing_subscriber::filter::LevelFilter::TRACE,
    }
}

/// Relies on `tracing_subscriber::EnvFilter::builder` and `from_env`: the
/// result filters by the directives in the environment variable, it is
/// built from the default directive alone (here: off) when the variable is
/// unset, and it is an error when the variable holds a malformed
/// directive.  The outcome depends on the process environment, so no more
/// is promised here.
#[verifier::external_body]
fn env_filter_from_env() -> Result<
    tracing_subscriber::EnvFilter,
    tracing_subscriber::filter::FromEnvError,
> {
    tracing_subscriber::EnvFilter::builder().with_default_directive(
        tracing_subscriber::filter::Directive::from(tracing_subscriber::filter::LevelFilter::OFF),
    ).from_env()
}

/// Relies on `tracing_subscriber::filter::Targets`: it only builds a
/// per-target severity filter with the given default, and touches no
/// process-global state.
#[verifier::external_body]
fn targets_filter(
    default_level: tracing_subscriber::filter::LevelFilter,
    targets: Vec<(String, tracing_subscriber::filter::LevelFilter)>,
) -> tracing_subscriber::filter::Targets {
    tracing_subscriber::filter::Targets::new().with_default(default_level).with_targets(targets)
}

/// Relies on `tracing_subscriber`'s `SubscriberExt::with`, `Layer::
/// with_filter`, `FilterExt::or` and `SubscriberInitExt::try_init`: the
/// layer, filtered by the union of the two filters, is installed as the
/// process-wide default subscriber; that fails when a default subscriber,
/// or a global logger of the `log` crate, was already set, which is
/// process-global state, so no more is promised here.
#[verifier::external_body]
fn try_init_filtered(
    layer: FmtLayer,
    env_filter: tracing_subscriber::EnvFilter,
    target_filter: tracing_subscriber::filter::Targets,
) -> Result<(), tracing_subscriber::util::TryInitError> {
    tracing_subscriber::registry().with(
        layer.layer.with_filter(env_filter.or(target_filter)),
    ).try_init()
}

/// Map the outcome of parsing the environment filter: success passes the
/// filter through, and a parse failure is the env-filter error kind.
fn map_env_outcome(
    outcome: Result<tracing_subscriber::EnvFilter, tracing_subscriber::filter::FromEnvError>,
) -> (r: Result<tracing_subscriber::EnvFilter, Error>)
    ensures
        outcome matches Ok(filter) ==> r == Ok::<tracing_subscriber::EnvFilter, Error>(filter),
        outcome matches Err(e) ==> r == Err::<tracing_subscriber::EnvFilter, Error>(
            Error::EnvFilter(e),
        ),
{
    match outcome {
        Ok(filter) => Ok(filter),
        Err(e) => Err(Error::EnvFilter(e)),
    }
}

/// Map the outcome of installing the subscriber: success passes through,
/// and a failed install is the already-installed error kind.
fn map_install_outcome(outcome: Result<(), tracing_subscriber::util::TryInitError>) -> (r: Result<
    (),
    Error,
>)
    ensures
        outcome is Ok ==> r == Ok::<(), Error>(()),
        outcome matches Err(e) ==> r == Err::<(), Error>(Error::TryInit(e)),
{
    match outcome {
        Ok(installed) => Ok(installed),
        Err(e) => Err(Error::TryInit(e)),
    }
}

/// Turn each target's level into the outside severity filter, keeping the
/// list's length and each target name.
fn convert_targets(targets: &Vec<(String, Level)>) -> (r: Vec<
    (String, tracing_subscriber::filter::LevelFilter),
>)
    ensures
        r@.len() == targets@.len(),
        forall|j: int| 0 <= j < targets@.len() ==> #[trigger] r@[j].0@ == targets@[j].0@,
{
    let mut converted: Vec<(String, tracing_subscriber::filter::LevelFilter)> = Vec::new();
    let mut i: usize = 0;
    while i < targets.len()
        invariant
            i <= targets.len(),
            converted@.len() == i as nat,
            forall|j: int| 0 <= j < i ==> #[trigger] converted@[j].0@ == targets@[j].0@,
        decreases targets.len() - i,
    {
        let pair = &targets[i];
        converted.push((pair.0.clone(), to_level_filter(&pair.1)));
        i = i + 1;
    }
    converted
}

/// Install `layer` as the process-wide subscriber, filtered per target:
/// events pass at `default_level` by default and at each target's own
/// level from `targets`, and the environment variable can override the
/// filter.  Fails with `Error::EnvFilter` when the environment variable
/// holds a malformed directive, and with `Error::TryInit` when a
/// subscriber was already installed; both conditions are process-global,
/// so this contract can only say that every error is one of those two
/// kinds — how each outside outcome is handed on is stated exactly on
/// `map_env_outcome` and `map_install_outcome`.
pub fn init_fmt_env(
    layer: FmtLayer,
    default_level: Level,
    targets: Vec<(String, Level)>,
) -> (r: Result<(), Error>)
    ensures
        r matches Err(e) ==> (e is EnvFilter || e is TryInit),
{
    let env_filter = match map_env_outcome(env_filter_from_env()) {
        Ok(filter) => filter,
        Err(e) => {
            return Err(e);
        },
    };
    let target_filter = targets_filter(to_level_filter(&default_level), convert_targets(&targets));
    map_install_outcome(try_init_filtered(layer, env_filter, target_filter))
}

} // verus!
