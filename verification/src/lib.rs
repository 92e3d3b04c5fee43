//! Decision logic of a state-test unit runner.
//!
//! A unit groups the cases of one scenario by fork. Running it means choosing
//! the most advanced fork that is still supported and taking each of that
//! fork's cases through preparation, the consensus gate, execution, fee
//! settlement and the post-state comparison. The engine that builds states,
//! signs transactions and executes them lives outside this crate: the runner
//! here names the next piece of outside work, is told what came of it, and
//! decides what follows.
//!
//! A caller makes a [`UnitTester`] of a unit, starts a [`Run`] with
//! [`UnitTester::run`], and then, until the run's [`Action`] is
//! [`Action::Finish`] or [`Action::Abort`], carries out the action and hands
//! the resulting [`Event`] to [`Run::resume`]. [`Run::result`] holds the
//! result of a finished run.
//!
//! * [`fork`] selects the fork.
//! * [`filter`] holds a unit against the pattern that selects units.
//! * [`reconcile`] holds what the collaborators report against what a case
//!   expects.
//! * [`case`] orders the work of one case, [`runner`] that of a unit.
//! * [`answers`] states what a run comes to as a function of what the
//!   collaborators answer, and [`laws`] what holds of every run.

pub mod amount;
pub mod answers;
pub mod case;
pub mod error;
pub mod filter;
pub mod fixture;
pub mod fork;
pub mod laws;
pub mod reconcile;
pub mod runner;

pub use amount::Amount;
pub use case::{Action, Event, Stage, Verdict};
pub use error::{TestError, TestErrorKind};
pub use fixture::{SpecCases, Test, TestUnit};
pub use fork::{Duplicate, SpecChoice};
pub use reconcile::{ExceptionPolicy, Executed, ExecutionOutcome, Space};
pub use runner::{Run, RunConfig, Started, UnitTester};
