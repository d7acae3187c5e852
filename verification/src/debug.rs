//! A helper for debugging.

use vstd::prelude::*;
use crate::command::CommandView;
use crate::config::default_prefix;
use crate::execution::{Execution, ExecutionView, Mode};
use crate::platform::Environment;
use crate::sheller::{CommandExt, Sheller, ShellerView};

verus! {

/// Begins a run of `script` that has to succeed: its failure aborts the
/// caller. The child's output is captured, not shown.
pub fn sh(script: &str, environment: &Environment) -> (execution: Execution)
    ensures
        execution@ == ExecutionView::start(
            CommandView {
                capture: true,
                ..ShellerView::of(script@, environment.platform, environment.shell_value()).built()
            },
            default_prefix(),
            Mode::Aborting,
        ),
{
    Sheller::new(script, environment).build().captured().run()
}

} // verus!
