//! Process-wide diagnostic initialization.
//!
//! The host may have configured its own reporting before this pipeline's
//! initialization runs.  Initialization therefore only *tries* to install
//! the pipeline's logger, and when that attempt is rejected because a
//! logger is already in place, it restores the reporting verbosity that was
//! in effect immediately before the attempt — the failed attempt must not
//! leave behind whatever default its own setup pushed.

use vstd::prelude::*;

verus! {

/// Declares the logging facade's verbosity-level type; its value is only
/// carried through, never inspected.
#[verifier::external_type_specification]
#[verifier::external_body]
pub struct ExLevelFilter(log::LevelFilter);

/// Declares the logging facade's installation-failure type; its value is
/// only matched on as a whole.
#[verifier::external_type_specification]
#[verifier::external_body]
pub struct ExSetLoggerError(log::SetLoggerError);

/// Relies on log::max_level: returns the current global maximum log level.
#[verifier::external_body]
fn current_max_level() -> (r: log::LevelFilter) {
    log::max_level()
}

/// Relies on log::set_max_level: sets the global maximum log level.
#[verifier::external_body]
fn set_max_level(level: log::LevelFilter) {
    log::set_max_level(level)
}

/// Relies on env_logger::try_init: attempts to install the global logger,
/// and reports `Err` when one is already installed (by an earlier call or
/// by another library), leaving that logger in place.
#[verifier::external_body]
fn try_init_logger() -> (r: Result<(), log::SetLoggerError>) {
    env_logger::try_init()
}

/// Initialize the pipeline's process-wide diagnostic state.  Must be called
/// at least once before compiling; calling it again is harmless.  When the
/// host already installed a logger, the attempt fails and the verbosity
/// level in effect before the attempt is restored.
pub fn cranelift_initialize() {
    let prior = current_max_level();
    match try_init_logger() {
        Ok(_) => {},
        Err(_) => {
            set_max_level(prior);
        },
    }
}

} // verus!
