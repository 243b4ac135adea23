//! What the launcher hands to the build tool: its arguments and the
//! environment it inherits.
use vstd::prelude::*;
use crate::text::{has_prefix, starts_with, views};

verus! {

/// The build tool that is run for checks and for the long-running command.
pub const BUILD_TOOL: &'static str = "cargo";

/// Debounce interval used when none is given, in milliseconds.
pub const DEFAULT_INTERVAL_MS: u64 = 500;

/// Environment variables of the toolchain-version manager start with this.
pub const MANAGER_PREFIX: &'static str = "RUSTUP";

/// Whether an inherited environment variable is passed on to the child: all
/// are, but those of the toolchain-version manager. A name that is not valid
/// Unicode is passed as the empty string and kept.
pub fn keep_env_var(key: &str) -> (r: bool)
    ensures
        r == !has_prefix(key@, MANAGER_PREFIX@),
{
    !starts_with(key, MANAGER_PREFIX)
}

/// Arguments of the validation step: `check` followed by the forwarded
/// arguments, in order.
pub fn check_args(extra: &Vec<String>) -> (r: Vec<String>)
    ensures
        views(r@) == seq!["check"@] + views(extra@),
{
    let mut r: Vec<String> = Vec::new();
    r.push(String::from_str("check"));
    let mut i: usize = 0;
    while i < extra.len()
        invariant
            i <= extra@.len(),
            views(r@) =~= seq!["check"@] + views(extra@.subrange(0, i as int)),
        decreases extra@.len() - i,
    {
        let ghost before = r@;
        r.push(extra[i].clone());
        assert(views(r@) =~= views(before) + seq![extra@[i as int]@]);
        assert(views(extra@.subrange(0, i as int + 1)) =~= views(extra@.subrange(0, i as int))
            + seq![extra@[i as int]@]);
        i = i + 1;
    }
    assert(extra@.subrange(0, i as int) =~= extra@);
    r
}

/// Arguments of the long-running command: `run` followed by the forwarded
/// arguments, in order.
pub fn run_args(extra: &Vec<String>) -> (r: Vec<String>)
    ensures
        views(r@) == seq!["run"@] + views(extra@),
{
    let mut r: Vec<String> = Vec::new();
    r.push(String::from_str("run"));
    let mut i: usize = 0;
    while i < extra.len()
        invariant
            i <= extra@.len(),
            views(r@) =~= seq!["run"@] + views(extra@.subrange(0, i as int)),
        decreases extra@.len() - i,
    {
        let ghost before = r@;
        r.push(extra[i].clone());
        assert(views(r@) =~= views(before) + seq![extra@[i as int]@]);
        assert(views(extra@.subrange(0, i as int + 1)) =~= views(extra@.subrange(0, i as int))
            + seq![extra@[i as int]@]);
        i = i + 1;
    }
    assert(extra@.subrange(0, i as int) =~= extra@);
    r
}

} // verus!
