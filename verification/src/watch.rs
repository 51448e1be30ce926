//! What to watch: the script itself and, beneath each directory, everything.

use crate::config::{Config, ConfigView};
use vstd::prelude::*;

verus! {

/// One path to place a watch on.
#[derive(Debug)]
pub struct WatchTarget {
    /// The path to watch.
    pub path: String,
    /// Whether everything beneath the path is watched as well.
    pub recursive: bool,
}

/// The mathematical content of a [`WatchTarget`].
pub struct WatchTargetView {
    pub path: Seq<char>,
    pub recursive: bool,
}

impl View for WatchTarget {
    type V = WatchTargetView;

    open spec fn view(&self) -> WatchTargetView {
        WatchTargetView { path: self.path@, recursive: self.recursive }
    }
}

impl DeepView for WatchTarget {
    type V = WatchTargetView;

    open spec fn deep_view(&self) -> WatchTargetView {
        self@
    }
}

/// The watches that a configuration calls for: first the script, on its own,
/// then each directory in the order given, with all that lies beneath it.
pub open spec fn watch_plan(config: ConfigView) -> Seq<WatchTargetView> {
    seq![WatchTargetView { path: config.script_path, recursive: false }] + Seq::new(
        config.watch_dirs.len(),
        |i: int| WatchTargetView { path: config.watch_dirs[i], recursive: true },
    )
}

/// Lists the watches to set up for `config`.
pub fn plan_watches(config: &Config) -> (targets: Vec<WatchTarget>)
    ensures
        targets.deep_view() == watch_plan(config@),
{
    let dirs = config.watch_dirs();
    let mut targets: Vec<WatchTarget> = Vec::new();
    targets.push(WatchTarget { path: config.script_path().clone(), recursive: false });
    let mut i: usize = 0;
    while i < dirs.len()
        invariant
            i <= dirs.len(),
            dirs.deep_view() == config@.watch_dirs,
            targets.len() == i + 1,
            targets[0]@ == (WatchTargetView { path: config@.script_path, recursive: false }),
            forall|j: int|
                0 <= j < i ==> (#[trigger] targets[j + 1])@ == (WatchTargetView {
                    path: dirs[j]@,
                    recursive: true,
                }),
        decreases dirs.len() - i,
    {
        targets.push(WatchTarget { path: dirs[i].clone(), recursive: true });
        i += 1;
    }
    proof {
        let plan = watch_plan(config@);
        assert(targets.deep_view().len() == plan.len());
        assert forall|k: int| 0 <= k < plan.len() implies targets.deep_view()[k] == plan[k] by {
            if k > 0 {
                assert(targets[(k - 1) + 1]@ == (WatchTargetView {
                    path: dirs[k - 1]@,
                    recursive: true,
                }));
                assert(dirs.deep_view()[k - 1] == dirs[k - 1]@);
            }
        }
        assert(targets.deep_view() =~= plan);
    }
    targets
}

} // verus!
