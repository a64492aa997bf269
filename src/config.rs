//! Settings of a run: which metric families are wanted, the sampling
//! interval and the history length, and how command-line options override
//! the stored ones.

use vstd::prelude::*;

verus! {

/// Interval between sampling ticks when nothing else is asked for, in ms.
pub const DEFAULT_INTERVAL_MS: u64 = 50;

/// Samples kept per series when nothing else is asked for.
pub const DEFAULT_HISTORY: usize = 100;

/// The options given on the command line.
#[derive(Clone, Copy, Debug, PartialEq, Eq, Structural)]
pub struct Args {
    pub no_gpu: bool,
    pub no_network: bool,
    pub interval: u64,
    pub history: usize,
    pub save_config: bool,
    pub reset_config: bool,
}

/// The settings of a run, as stored between runs.
#[derive(Clone, Copy, Debug, PartialEq, Eq, Structural)]
pub struct AppConfig {
    pub no_gpu: bool,
    pub no_network: bool,
    pub interval: u64,
    pub history: usize,
}

impl Default for AppConfig {
    fn default() -> (r: AppConfig)
        ensures
            r == (AppConfig {
                no_gpu: false,
                no_network: false,
                interval: DEFAULT_INTERVAL_MS,
                history: DEFAULT_HISTORY,
            }),
    {
        AppConfig {
            no_gpu: false,
            no_network: false,
            interval: DEFAULT_INTERVAL_MS,
            history: DEFAULT_HISTORY,
        }
    }
}

impl AppConfig {
    /// Applies the command line over the stored settings: a flag that is set
    /// switches its family off, and an interval or a history length other
    /// than the default replaces the stored one.
    pub fn update_from_args(&mut self, args: &Args)
        ensures
            final(self).no_gpu == (old(self).no_gpu || args.no_gpu),
            final(self).no_network == (old(self).no_network || args.no_network),
            final(self).interval == if args.interval != DEFAULT_INTERVAL_MS {
                args.interval
            } else {
                old(self).interval
            },
            final(self).history == if args.history != DEFAULT_HISTORY {
                args.history
            } else {
                old(self).history
            },
    {
        if args.no_gpu {
            self.no_gpu = true;
        }
        if args.no_network {
            self.no_network = true;
        }
        if args.interval != DEFAULT_INTERVAL_MS {
            self.interval = args.interval;
        }
        if args.history != DEFAULT_HISTORY {
            self.history = args.history;
        }
    }
}

} // verus!
