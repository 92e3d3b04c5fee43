//! Running one unit: the order of the outside work and what each answer leads to.

use vstd::prelude::*;
use crate::error::{TestError, TestErrorKind};
use crate::filter::{pattern_view, selected, unit_selected};
use crate::fixture::{SpecCases, Test, TestUnit, spec_ids};
use crate::fork::{Duplicate, lists_ties, pick_spec, picked};
use crate::case::{
    Action,
    Event,
    Stage,
    Verdict,
    answers,
    decide,
    pending,
    pending_action,
    stage_expects,
    verdict,
};
use crate::reconcile::ExceptionPolicy;

verus! {

/// The policy under which units run. It does not depend on the unit.
#[derive(Clone, Copy, Debug)]
pub struct RunConfig {
    /// The most advanced fork that is supported.
    pub max_spec_id: u8,
    /// How rejections are held against expected exceptions.
    pub policy: ExceptionPolicy,
}

/// A run as a plain value: the unit, the policy, the case it is at and the
/// stage within that case.
pub ghost struct RunView {
    pub path: Seq<char>,
    pub name: Seq<char>,
    pub groups: Seq<SpecCases>,
    pub policy: ExceptionPolicy,
    pub fork: nat,
    pub case: nat,
    pub stage: Stage,
}

impl RunView {
    /// The run has not ended.
    pub open spec fn active(self) -> bool {
        !(self.stage is Finished) && !(self.stage is Aborted)
    }

    /// The cases of the selected fork.
    pub open spec fn cases(self) -> Seq<Test> {
        self.groups[self.fork as int].tests@
    }

    /// The run is at a case that exists.
    pub open spec fn in_case(self) -> bool {
        self.fork < self.groups.len() && self.case < self.cases().len()
    }

    /// The case that the run is at.
    pub open spec fn current(self) -> Test {
        self.cases()[self.case as int]
    }

    /// A run that has not ended is at a case.
    pub open spec fn wf(self) -> bool {
        self.active() ==> self.in_case()
    }

    /// The event answers the work that the run waits for.
    pub open spec fn expects(self, event: Event) -> bool {
        stage_expects(self.stage, event)
    }

    /// The same run at another stage.
    pub open spec fn at(self, stage: Stage) -> RunView {
        RunView { stage, ..self }
    }

    /// The run after the current case has passed: at the start of the next
    /// case, or over where there is none.
    pub open spec fn case_passed(self) -> RunView {
        if self.case + 1 < self.cases().len() {
            RunView { case: self.case + 1, stage: Stage::AwaitState, ..self }
        } else {
            self.at(Stage::Finished(Ok(true)))
        }
    }

    /// The run after the current case has failed: over, the other cases unrun.
    pub open spec fn case_failed(self, kind: TestErrorKind) -> RunView {
        self.at(Stage::Finished(Err(kind)))
    }

    /// The run after `event`: a run that is over stays as it is, any other
    /// moves as the event's verdict on the current case says.
    pub open spec fn next(self, event: Event) -> RunView {
        if !self.active() {
            self
        } else {
            match verdict(self.policy, self.stage, self.current(), event) {
                Verdict::Proceed(stage) => self.at(stage),
                Verdict::Skipped => self.case_passed(),
                Verdict::Verified => self.case_passed(),
                Verdict::Failed(kind) => self.case_failed(kind),
            }
        }
    }

    /// The work that the run waits for.
    pub open spec fn action(self) -> Action {
        pending(self.stage)
    }
}

/// One unit under its path and name.
#[derive(Debug)]
pub struct UnitTester {
    path: String,
    name: String,
    unit: TestUnit,
}

/// A run of one unit.
#[derive(Debug)]
pub struct Run<'a> {
    tester: &'a UnitTester,
    policy: ExceptionPolicy,
    fork: usize,
    case: usize,
    stage: Stage,
}

/// A run at its start, with what the selection of the fork had to note.
#[derive(Debug)]
pub struct Started<'a> {
    pub run: Run<'a>,
    /// Whether the unit runs under the pattern. Only then is a fork selected.
    pub selected: bool,
    /// The ties met while the fork was selected.
    pub duplicates: Vec<Duplicate>,
    /// Whether the unit was asked for by a pattern, and is to be reported at
    /// greater length.
    pub verbose: bool,
}

impl UnitTester {
    pub closed spec fn path(self) -> Seq<char> {
        self.path@
    }

    pub closed spec fn name(self) -> Seq<char> {
        self.name@
    }

    pub closed spec fn groups(self) -> Seq<SpecCases> {
        self.unit.groups()
    }

    /// The run that has nothing to do.
    pub open spec fn idle(self, policy: ExceptionPolicy) -> RunView {
        RunView {
            path: self.path(),
            name: self.name(),
            groups: self.groups(),
            policy,
            fork: 0,
            case: 0,
            stage: Stage::Finished(Ok(false)),
        }
    }

    /// The run of this unit at its start. It is over at once where the pattern
    /// leaves the unit out, where no fork is supported, and where the selected
    /// fork has no case. Else it stands before the first case of that fork.
    pub open spec fn start(self, config: RunConfig, pattern: Option<Seq<char>>) -> RunView {
        if !selected(pattern, self.path(), self.name()) {
            self.idle(config.policy)
        } else {
            match picked(spec_ids(self.groups()), config.max_spec_id) {
                None => self.idle(config.policy),
                Some(k) => if self.groups()[k].tests@.len() == 0 {
                    RunView { fork: k as nat, ..self.idle(config.policy) }
                } else {
                    RunView { fork: k as nat, stage: Stage::AwaitState, ..self.idle(config.policy) }
                },
            }
        }
    }

    pub fn new(path: &String, name: String, unit: TestUnit) -> (r: Self)
        ensures
            r.path() == path@,
            r.name() == name@,
            r.groups() == unit.groups(),
    {
        UnitTester { path: path.clone(), name, unit }
    }

    /// The failure of the given kind, with this unit's path and name.
    pub fn err(&self, kind: TestErrorKind) -> (e: TestError)
        ensures
            e.name@ == self.name(),
            e.path@ == self.path(),
            e.kind == kind,
    {
        TestError { name: self.name.clone(), path: self.path.clone(), kind }
    }

    /// Starts a run of this unit: holds the unit against the pattern, if one
    /// is given, and selects the fork.
    pub fn run<'a>(&'a self, config: &RunConfig, matches: Option<&str>) -> (r: Started<'a>)
        ensures
            r.run@ == self.start(*config, pattern_view(matches)),
            r.verbose == matches is Some,
            r.selected == selected(pattern_view(matches), self.path(), self.name()),
            if r.selected {
                lists_ties(r.duplicates@, spec_ids(self.groups()), config.max_spec_id)
            } else {
                r.duplicates@.len() == 0
            },
    {
        let verbose = matches.is_some();
        let idle = Run {
            tester: self,
            policy: config.policy,
            fork: 0,
            case: 0,
            stage: Stage::Finished(Ok(false)),
        };
        if !unit_selected(matches, &self.path, &self.name) {
            return Started { run: idle, selected: false, duplicates: Vec::new(), verbose };
        }
        let groups = self.unit.post();
        let choice = pick_spec(groups, config.max_spec_id);
        let run = match choice.chosen {
            None => idle,
            Some(k) => if groups[k].tests.len() == 0 {
                Run { fork: k, ..idle }
            } else {
                Run { fork: k, stage: Stage::AwaitState, ..idle }
            },
        };
        Started { run, selected: true, duplicates: choice.duplicates, verbose }
    }
}

impl<'a> View for Run<'a> {
    type V = RunView;

    closed spec fn view(&self) -> RunView {
        RunView {
            path: self.tester.path(),
            name: self.tester.name(),
            groups: self.tester.groups(),
            policy: self.policy,
            fork: self.fork as nat,
            case: self.case as nat,
            stage: self.stage,
        }
    }
}

impl<'a> Run<'a> {
    #[verifier::type_invariant]
    spec fn at_a_case(self) -> bool {
        self@.wf()
    }

    /// Where the run stands. A run that has not ended is at a case that exists.
    pub fn stage(&self) -> (r: Stage)
        ensures
            r == self@.stage,
            self@.wf(),
    {
        proof {
            use_type_invariant(self);
        }
        self.stage
    }

    /// Index of the selected group among the unit's groups.
    pub fn fork_index(&self) -> (r: usize)
        ensures
            r == self@.fork,
    {
        self.fork
    }

    /// Index of the current case among the cases of the selected fork.
    pub fn case_index(&self) -> (r: usize)
        ensures
            r == self@.case,
    {
        self.case
    }

    /// The work that the run waits for.
    pub fn action(&self) -> (r: Action)
        ensures
            r == self@.action(),
    {
        pending_action(self.stage)
    }

    /// Decides whether `event` answers the work that the run waits for.
    pub fn accepts(&self, event: &Event) -> (r: bool)
        ensures
            r == self@.expects(*event),
    {
        answers(self.stage, event)
    }

    /// The result of a run that is over: whether any case ran, or the first
    /// mismatch under the unit's path and name.
    pub fn result(&self) -> (r: Option<Result<bool, TestError>>)
        ensures
            match self@.stage {
                Stage::Finished(Ok(ran)) => r == Some(Ok::<bool, TestError>(ran)),
                Stage::Finished(Err(kind)) => {
                    &&& r is Some
                    &&& r->0 is Err
                    &&& r->0->Err_0.kind == kind
                    &&& r->0->Err_0.path@ == self@.path
                    &&& r->0->Err_0.name@ == self@.name
                },
                _ => r is None,
            },
    {
        match self.stage {
            Stage::Finished(Ok(ran)) => Some(Ok(ran)),
            Stage::Finished(Err(kind)) => Some(Err(self.tester.err(kind))),
            _ => None,
        }
    }

    fn at(self, stage: Stage) -> (r: Run<'a>)
        requires
            self@.at(stage).wf(),
        ensures
            r@ == self@.at(stage),
    {
        Run { stage, ..self }
    }

    fn case_passed(self) -> (r: Run<'a>)
        requires
            self@.in_case(),
        ensures
            r@ == self@.case_passed(),
    {
        let cases = &self.tester.unit.post()[self.fork].tests;
        let count: usize = cases.len();
        if self.case + 1 < count {
            Run { case: self.case + 1, stage: Stage::AwaitState, ..self }
        } else {
            Run { stage: Stage::Finished(Ok(true)), ..self }
        }
    }

    fn case_failed(self, kind: TestErrorKind) -> (r: Run<'a>)
        ensures
            r@ == self@.case_failed(kind),
    {
        Run { stage: Stage::Finished(Err(kind)), ..self }
    }

    /// Takes the answer to the work that the run waited for and moves on. An
    /// event that is no such answer leaves the run as it is.
    pub fn resume(self, event: Event) -> (r: Run<'a>)
        ensures
            r@ == self@.next(event),
    {
        proof {
            use_type_invariant(&self);
        }
        match self.stage {
            Stage::Finished(_) => {
                return self;
            },
            Stage::Aborted => {
                return self;
            },
            _ => {},
        }
        let test = &self.tester.unit.post()[self.fork].tests[self.case];
        match decide(self.policy, self.stage, test, event) {
            Verdict::Proceed(stage) => self.at(stage),
            Verdict::Skipped => self.case_passed(),
            Verdict::Verified => self.case_passed(),
            Verdict::Failed(kind) => self.case_failed(kind),
        }
    }
}

} // verus!
