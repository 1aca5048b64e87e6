//! The settings of one run, as the command line gives them.

use crate::output::ColorChoice;
use crate::target::{
    parse_target, target_of, url_well_formed, Target, TargetError, TargetErrorView, TargetView,
};
use crate::text::texts;
use vstd::prelude::*;

verus! {

/// Seconds to wait overall when the command line does not say.
pub const DEFAULT_TIMEOUT_SECS: u64 = 15;

/// The overall time limit for a number of seconds from the command line:
/// zero stands for no limit.
pub open spec fn timeout_of(seconds: u64) -> Option<u64> {
    if seconds == 0 {
        None
    } else {
        Some(seconds)
    }
}

/// The overall time limit for a number of seconds from the command line.
pub fn timeout_from_secs(seconds: u64) -> (timeout: Option<u64>)
    ensures
        timeout == timeout_of(seconds),
{
    if seconds == 0 {
        None
    } else {
        Some(seconds)
    }
}

/// Everything a run is told. Nothing of it changes once it is made.
#[derive(Debug, Clone, PartialEq, Eq)]
pub struct Config {
    pub target: Target,
    /// The overall time limit in seconds, if there is one.
    pub timeout: Option<u64>,
    pub quiet: bool,
    pub color: ColorChoice,
    /// The command to run once the service is there, with its arguments;
    /// empty for none.
    pub command: Vec<String>,
}

/// The mathematical content of a [`Config`].
pub struct ConfigView {
    pub target: TargetView,
    pub timeout: Option<u64>,
    pub quiet: bool,
    pub color: ColorChoice,
    pub command: Seq<Seq<char>>,
}

impl View for Config {
    type V = ConfigView;

    open spec fn view(&self) -> ConfigView {
        ConfigView {
            target: self.target@,
            timeout: self.timeout,
            quiet: self.quiet,
            color: self.color,
            command: texts(self.command@),
        }
    }
}

impl ConfigView {
    /// Whether the settings are such as the command line gives: a time limit,
    /// where there is one, is of at least one second.
    pub open spec fn well_formed(self) -> bool {
        self.timeout != Some(0u64)
    }
}

impl Config {
    /// Makes the settings from the raw command-line values. The target is
    /// parsed, and rejected as [`parse_target`] rejects it; the rest is taken
    /// over, a timeout of zero seconds as no limit.
    pub fn from_args(
        target: &str,
        timeout_secs: u64,
        quiet: bool,
        color: ColorChoice,
        command: Vec<String>,
    ) -> (r: Result<Config, TargetError>)
        ensures
            match r {
                Ok(config) => {
                    &&& target_of(target@, url_well_formed(target@)) == Ok::<
                        TargetView,
                        TargetErrorView,
                    >(config@.target)
                    &&& config@.target.well_formed()
                    &&& config@.timeout == timeout_of(timeout_secs)
                    &&& config@.quiet == quiet
                    &&& config@.color == color
                    &&& config@.command == texts(command@)
                    &&& config@.well_formed()
                },
                Err(error) => target_of(target@, url_well_formed(target@)) == Err::<
                    TargetView,
                    TargetErrorView,
                >(error@),
            },
    {
        match parse_target(target) {
            Ok(target) => Ok(
                Config { target, timeout: timeout_from_secs(timeout_secs), quiet, color, command },
            ),
            Err(error) => Err(error),
        }
    }
}

} // verus!
