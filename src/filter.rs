use vstd::prelude::*;

use crate::options::{valid_syscall_number, BenchError, BenchOptions};

verus! {

/// One step of installing the syscall filter table.
#[derive(Debug, Clone, Copy, PartialEq, Eq, Structural)]
pub enum FilterAction {
    /// Create a filter context whose default action is to allow.
    CreateContext,
    /// Add a rule that kills the process on this syscall, whatever its arguments.
    AddKillRule(i32),
    /// Load the populated context into the kernel.
    Load,
    /// Release the context handle; the kernel keeps the loaded rules.
    Release,
    /// Nothing is left to do: the process may replace its program image.
    Done,
}

/// The error that a failed step reports.
pub open spec fn failure_of(a: FilterAction) -> BenchError {
    match a {
        FilterAction::CreateContext => BenchError::FilterInit,
        FilterAction::AddKillRule(n) => BenchError::FilterRule(n as i64),
        _ => BenchError::FilterLoad,
    }
}

/// Whether a failure of this step aborts the installation.
pub open spec fn can_fail(a: FilterAction) -> bool {
    a is CreateContext || a is AddKillRule || a is Load
}

/// Progress through the installation of a filter table built from a disallow
/// list: the context is created, then filled with every kill rule, then loaded,
/// then released.
pub struct FilterSetup {
    rules: Vec<i32>,
    stage: Stage,
}

/// The step that comes next; a rule step holds the index of its rule.
enum Stage {
    Create,
    AddRule(usize),
    Load,
    Release,
    Done,
}

impl FilterSetup {
    /// The syscall numbers that get a kill rule, in order.
    pub closed spec fn rules_spec(&self) -> Seq<i32> {
        self.rules@
    }

    /// How many steps have succeeded.
    pub closed spec fn step_spec(&self) -> int {
        match self.stage {
            Stage::Create => 0,
            Stage::AddRule(i) => i + 1,
            Stage::Load => self.rules@.len() as int + 1,
            Stage::Release => self.rules@.len() as int + 2,
            Stage::Done => self.rules@.len() as int + 3,
        }
    }

    /// The step at which the context is loaded.
    pub open spec fn load_step(&self) -> int {
        self.rules_spec().len() as int + 1
    }

    /// The action of step `k`.
    pub open spec fn action_at(&self, k: int) -> FilterAction {
        if k == 0 {
            FilterAction::CreateContext
        } else if k <= self.rules_spec().len() {
            FilterAction::AddKillRule(self.rules_spec()[k - 1])
        } else if k == self.load_step() {
            FilterAction::Load
        } else if k == self.load_step() + 1 {
            FilterAction::Release
        } else {
            FilterAction::Done
        }
    }

    pub open spec fn is_done(&self) -> bool {
        self.step_spec() > self.load_step() + 1
    }

    /// The kill rules are exactly the disallowed numbers, in their order.
    pub open spec fn built_from(&self, options: &BenchOptions) -> bool {
        &&& self.rules_spec().len() == options.disallowed_spec().len()
        &&& forall|i: int|
            0 <= i < self.rules_spec().len() ==> #[trigger] self.rules_spec()[i] as i64
                == options.disallowed_spec()[i]
    }

    pub closed spec fn wf(&self) -> bool {
        self.stage matches Stage::AddRule(i) ==> i < self.rules@.len()
    }

    /// The installation plan for the disallow list of `options`, before any step.
    pub fn new(options: &BenchOptions) -> (r: Self)
        requires
            options.wf(),
        ensures
            r.wf(),
            r.built_from(options),
            r.step_spec() == 0,
    {
        let list = options.disallowed_syscalls();
        let mut rules: Vec<i32> = Vec::new();
        let mut i: usize = 0;
        while i < list.len()
            invariant
                list@ == options.disallowed_spec(),
                options.wf(),
                0 <= i <= list@.len(),
                rules@.len() == i,
                forall|j: int| 0 <= j < i ==> #[trigger] rules@[j] as i64 == list@[j],
            decreases list@.len() - i,
        {
            assert(valid_syscall_number(options.disallowed_spec()[i as int] as int));
            rules.push(list[i] as i32);
            i = i + 1;
        }
        FilterSetup { rules, stage: Stage::Create }
    }

    /// What to do next.
    pub fn next_action(&self) -> (r: FilterAction)
        requires
            self.wf(),
        ensures
            r == self.action_at(self.step_spec()),
    {
        match self.stage {
            Stage::Create => FilterAction::CreateContext,
            Stage::AddRule(i) => FilterAction::AddKillRule(self.rules[i]),
            Stage::Load => FilterAction::Load,
            Stage::Release => FilterAction::Release,
            Stage::Done => FilterAction::Done,
        }
    }

    /// Takes whether the current step succeeded. A success, or the end of a
    /// release, which cannot fail, moves to the next step; any other failure
    /// stops the installation with the error of that step.
    pub fn on_result(&mut self, ok: bool) -> (r: Result<(), BenchError>)
        requires
            old(self).wf(),
            !old(self).is_done(),
        ensures
            final(self).wf(),
            final(self).rules_spec() == old(self).rules_spec(),
            ok || !can_fail(old(self).action_at(old(self).step_spec())) ==> r is Ok
                && final(self).step_spec() == old(self).step_spec() + 1,
            !ok && can_fail(old(self).action_at(old(self).step_spec())) ==> r == Err::<
                (),
                BenchError,
            >(failure_of(old(self).action_at(old(self).step_spec())))
                && final(self).step_spec() == old(self).step_spec(),
    {
        let action = self.next_action();
        if !ok {
            match action {
                FilterAction::CreateContext => {
                    return Err(BenchError::FilterInit);
                },
                FilterAction::AddKillRule(n) => {
                    return Err(BenchError::FilterRule(n as i64));
                },
                FilterAction::Load => {
                    return Err(BenchError::FilterLoad);
                },
                _ => {},
            }
        }
        self.advance();
        Ok(())
    }

    fn advance(&mut self)
        requires
            old(self).wf(),
            !old(self).is_done(),
        ensures
            final(self).wf(),
            final(self).rules_spec() == old(self).rules_spec(),
            final(self).step_spec() == old(self).step_spec() + 1,
    {
        let n = self.rules.len();
        self.stage = match self.stage {
            Stage::Create => if n == 0 {
                Stage::Load
            } else {
                Stage::AddRule(0)
            },
            Stage::AddRule(i) => if i + 1 < n {
                Stage::AddRule(i + 1)
            } else {
                Stage::Load
            },
            Stage::Load => Stage::Release,
            _ => Stage::Done,
        };
    }
}

/// A filter table built from a disallow list starts from a default-allow
/// context, adds a kill rule for every disallowed syscall and for nothing else,
/// and adds them all before it is loaded; the handle is released only after.
pub proof fn lemma_filter_kills_exactly_disallowed(options: &BenchOptions, setup: &FilterSetup)
    requires
        options.wf(),
        setup.built_from(options),
    ensures
        setup.action_at(0) == FilterAction::CreateContext,
        forall|id: i64|
            options.disallowed_spec().contains(id) ==> exists|k: int|
                1 <= k < setup.load_step() && #[trigger] setup.action_at(k)
                    == FilterAction::AddKillRule(id as i32),
        forall|k: int|
            1 <= k < setup.load_step() ==> (#[trigger] setup.action_at(k) matches FilterAction::AddKillRule(n)
                && options.disallowed_spec().contains(n as i64)),
        setup.action_at(setup.load_step()) == FilterAction::Load,
        setup.action_at(setup.load_step() + 1) == FilterAction::Release,
{
    assert forall|id: i64| options.disallowed_spec().contains(id) implies exists|k: int|
        1 <= k < setup.load_step() && #[trigger] setup.action_at(k) == FilterAction::AddKillRule(
            id as i32,
        ) by {
        let i = choose|i: int| 0 <= i < options.disallowed_spec().len() && options.disallowed_spec()[i] == id;
        assert(setup.rules_spec()[i] as i64 == options.disallowed_spec()[i]);
        assert(valid_syscall_number(options.disallowed_spec()[i] as int));
        assert(setup.action_at(i + 1) == FilterAction::AddKillRule(id as i32));
    }
    assert forall|k: int| 1 <= k < setup.load_step() implies (#[trigger] setup.action_at(k) matches FilterAction::AddKillRule(n)
        && options.disallowed_spec().contains(n as i64)) by {
        assert(setup.rules_spec()[k - 1] as i64 == options.disallowed_spec()[k - 1]);
    }
}

} // verus!
