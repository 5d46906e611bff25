//! The workflow engine: named steps that run in order against a shared
//! context, and stop at the first step that fails.

use crate::text::{decimal, decimal_text};
use vstd::prelude::*;
use vstd::string::*;

verus! {

/// What a step does: a function from the shared context to the context it
/// leaves behind and to success or a failure text. Contexts are spoken of
/// by their views.
pub trait StepAction<C: View> {
    /// The context that the action leaves behind, whether or not it fails.
    spec fn effect(&self, before: C::V) -> C::V;

    /// The failure that the action reports on a context; `None` is success.
    spec fn failure(&self, before: C::V) -> Option<Seq<char>>;

    fn run(&self, context: &mut C) -> (res: Result<(), String>)
        ensures
            final(context)@ == self.effect(old(context)@),
            res is Ok <==> self.failure(old(context)@) is None,
            res is Err ==> self.failure(old(context)@) == Some(res->Err_0@),
    ;
}

/// The context and the failure, if any, with which a run ends that starts
/// with the step at position `from`: the steps run in order, and the first
/// failure ends the run with the context that the failing step left.
pub open spec fn run_from<C: View, A: StepAction<C>>(
    actions: Seq<A>,
    from: int,
    context: C::V,
) -> (C::V, Option<Seq<char>>)
    decreases actions.len() - from,
{
    if from < 0 || from >= actions.len() {
        (context, None)
    } else if actions[from].failure(context) is Some {
        (actions[from].effect(context), actions[from].failure(context))
    } else {
        run_from::<C, A>(actions, from + 1, actions[from].effect(context))
    }
}

/// The context after the first `count` steps have all had their effect.
pub open spec fn context_after<C: View, A: StepAction<C>>(
    actions: Seq<A>,
    count: int,
    context: C::V,
) -> C::V
    decreases count,
{
    if count <= 0 {
        context
    } else {
        actions[count - 1].effect(context_after::<C, A>(actions, count - 1, context))
    }
}

/// Whether each of the first `count` steps succeeds on the context that
/// the steps before it left.
pub open spec fn all_succeed<C: View, A: StepAction<C>>(
    actions: Seq<A>,
    count: int,
    context: C::V,
) -> bool {
    forall|i: int|
        0 <= i < count ==> (#[trigger] actions[i]).failure(
            context_after::<C, A>(actions, i, context),
        ) is None
}

/// One named action of a workflow.
pub struct WorkflowStep<A> {
    name: String,
    description: String,
    action: A,
}

impl<A> WorkflowStep<A> {
    pub closed spec fn name_text(&self) -> Seq<char> {
        self.name@
    }

    pub closed spec fn description_text(&self) -> Seq<char> {
        self.description@
    }

    pub closed spec fn action(&self) -> A {
        self.action
    }

    pub fn new(name: &str, description: &str, action: A) -> (res: Self)
        ensures
            res.name_text() == name@,
            res.description_text() == description@,
            res.action() == action,
    {
        WorkflowStep {
            name: String::from_str(name),
            description: String::from_str(description),
            action,
        }
    }

    pub fn name(&self) -> (res: &str)
        ensures
            res@ == self.name_text(),
    {
        self.name.as_str()
    }

    pub fn description(&self) -> (res: &str)
        ensures
            res@ == self.description_text(),
    {
        self.description.as_str()
    }

    /// Runs the step's action on the context.
    pub fn execute<C: View>(&self, system: &mut C) -> (res: Result<(), String>) where
        A: StepAction<C>,
        ensures
            final(system)@ == self.action().effect(old(system)@),
            res is Ok <==> self.action().failure(old(system)@) is None,
            res is Err ==> self.action().failure(old(system)@) == Some(res->Err_0@),
    {
        self.action.run(system)
    }
}

/// The actions of a series of steps, in the same order.
pub open spec fn actions_of<A>(steps: Seq<WorkflowStep<A>>) -> Seq<A> {
    steps.map_values(|s: WorkflowStep<A>| s.action())
}

/// The names of a series of steps, in the same order.
pub open spec fn names_of<A>(steps: Seq<WorkflowStep<A>>) -> Seq<Seq<char>> {
    steps.map_values(|s: WorkflowStep<A>| s.name_text())
}

/// The descriptions of a series of steps, in the same order.
pub open spec fn descriptions_of<A>(steps: Seq<WorkflowStep<A>>) -> Seq<Seq<char>> {
    steps.map_values(|s: WorkflowStep<A>| s.description_text())
}

/// A named sequence of steps. Executing it changes the context, never the
/// workflow: it can be executed again, on the same or another context.
pub struct Workflow<A> {
    name: String,
    description: String,
    steps: Vec<WorkflowStep<A>>,
}

impl<A> Workflow<A> {
    pub closed spec fn name_text(&self) -> Seq<char> {
        self.name@
    }

    pub closed spec fn description_text(&self) -> Seq<char> {
        self.description@
    }

    /// The steps, in the order in which they were added and will run.
    pub closed spec fn steps(&self) -> Seq<WorkflowStep<A>> {
        self.steps@
    }

    /// The actions of the steps, in order.
    pub open spec fn actions(&self) -> Seq<A> {
        actions_of(self.steps())
    }

    /// The context and the failure, if any, with which an execution on
    /// `context` ends.
    pub open spec fn outcome<C: View>(&self, context: C::V) -> (C::V, Option<Seq<char>>) where
        A: StepAction<C>,
     {
        run_from::<C, A>(self.actions(), 0, context)
    }

    /// A workflow without steps.
    pub fn new(name: &str, description: &str) -> (res: Self)
        ensures
            res.name_text() == name@,
            res.description_text() == description@,
            res.steps() == Seq::<WorkflowStep<A>>::empty(),
    {
        Workflow {
            name: String::from_str(name),
            description: String::from_str(description),
            steps: Vec::new(),
        }
    }

    /// Adds a step behind those that are there.
    pub fn add_step(&mut self, step: WorkflowStep<A>)
        ensures
            final(self).steps() == old(self).steps().push(step),
            final(self).name_text() == old(self).name_text(),
            final(self).description_text() == old(self).description_text(),
    {
        self.steps.push(step);
    }

    pub fn name(&self) -> (res: &str)
        ensures
            res@ == self.name_text(),
    {
        self.name.as_str()
    }

    pub fn description(&self) -> (res: &str)
        ensures
            res@ == self.description_text(),
    {
        self.description.as_str()
    }

    /// The workflow in one line: its name and the number of its steps.
    pub open spec fn summary_text(&self) -> Seq<char> {
        "Workflow["@ + self.name_text() + "] ("@ + decimal_text(self.steps().len()) + " steps)"@
    }

    /// Writes the workflow in one line.
    pub fn summary(&self) -> (res: String)
        ensures
            res@ == self.summary_text(),
    {
        let mut text = String::from_str("Workflow[");
        text.append(self.name.as_str());
        text.append("] (");
        text.append(decimal(self.steps.len() as u64).as_str());
        text.append(" steps)");
        text
    }

    /// The number of steps.
    pub fn step_count(&self) -> (res: usize)
        ensures
            res == self.steps().len(),
    {
        self.steps.len()
    }

    /// The step at a position.
    pub fn step_at(&self, index: usize) -> (res: Option<&WorkflowStep<A>>)
        ensures
            index < self.steps().len() ==> res == Some(&self.steps()[index as int]),
            index >= self.steps().len() ==> res is None,
    {
        if index < self.steps.len() {
            Some(&self.steps[index])
        } else {
            None
        }
    }

    /// Runs the steps in order on the context. The first failure ends the
    /// execution and is returned; the steps behind it do not run, and what
    /// the steps before it and the failing step did to the context stays.
    pub fn execute<C: View>(&self, system: &mut C) -> (res: Result<(), String>) where
        A: StepAction<C>,
        ensures
            final(system)@ == self.outcome::<C>(old(system)@).0,
            res is Ok <==> self.outcome::<C>(old(system)@).1 is None,
            res is Err ==> self.outcome::<C>(old(system)@).1 == Some(res->Err_0@),
    {
        let mut index: usize = 0;
        while index < self.steps.len()
            invariant
                index <= self.steps@.len(),
                run_from::<C, A>(self.actions(), index as int, system@) == self.outcome::<C>(
                    old(system)@,
                ),
            decreases self.steps@.len() - index,
        {
            assert(self.actions()[index as int] == self.steps@[index as int].action());
            match self.steps[index].execute(system) {
                Ok(_) => {},
                Err(e) => {
                    return Err(e);
                },
            }
            index += 1;
        }
        Ok(())
    }
}

/// Collects the steps of a workflow in call order.
pub struct WorkflowBuilder<A> {
    workflow: Workflow<A>,
}

impl<A> WorkflowBuilder<A> {
    /// The workflow as it has been built so far.
    pub closed spec fn draft(&self) -> Workflow<A> {
        self.workflow
    }

    pub fn new(name: &str, description: &str) -> (res: Self)
        ensures
            res.draft().name_text() == name@,
            res.draft().description_text() == description@,
            res.draft().steps() == Seq::<WorkflowStep<A>>::empty(),
    {
        WorkflowBuilder { workflow: Workflow::new(name, description) }
    }

    /// Adds a step behind those that are there.
    pub fn step(&mut self, name: &str, description: &str, action: A) -> (res: &mut Self)
        ensures
            res.draft().steps().len() == old(self).draft().steps().len() + 1,
            res.draft().steps().drop_last() == old(self).draft().steps(),
            res.draft().steps().last().name_text() == name@,
            res.draft().steps().last().description_text() == description@,
            res.draft().steps().last().action() == action,
            res.draft().name_text() == old(self).draft().name_text(),
            res.draft().description_text() == old(self).draft().description_text(),
            *final(self) == *final(res),
    {
        self.workflow.add_step(WorkflowStep::new(name, description, action));
        assert(self.workflow.steps().drop_last() =~= old(self).workflow.steps());
        self
    }

    /// The finished workflow.
    pub fn build(self) -> (res: Workflow<A>)
        ensures
            res == self.draft(),
    {
        self.workflow
    }
}

/// A run that has come to the step at position `from` with every step
/// before it successful ends as the whole run does.
pub proof fn lemma_run_resumes<C: View, A: StepAction<C>>(
    actions: Seq<A>,
    from: int,
    context: C::V,
)
    requires
        0 <= from <= actions.len(),
        all_succeed::<C, A>(actions, from, context),
    ensures
        run_from::<C, A>(actions, 0, context) == run_from::<C, A>(
            actions,
            from,
            context_after::<C, A>(actions, from, context),
        ),
    decreases from,
{
    if from > 0 {
        lemma_run_resumes::<C, A>(actions, from - 1, context);
        assert(actions[from - 1].failure(context_after::<C, A>(actions, from - 1, context))
            is None);
    }
}

/// Abort at the first failure: when the step at position `failing` is the
/// first that fails, the run ends with that step's failure and with the
/// context that the steps up to and including it left behind. The effects
/// of the earlier steps stay; nothing is rolled back.
pub proof fn lemma_first_failure_ends_the_run<C: View, A: StepAction<C>>(
    actions: Seq<A>,
    failing: int,
    context: C::V,
)
    requires
        0 <= failing < actions.len(),
        all_succeed::<C, A>(actions, failing, context),
        actions[failing].failure(context_after::<C, A>(actions, failing, context)) is Some,
    ensures
        run_from::<C, A>(actions, 0, context) == (
            context_after::<C, A>(actions, failing + 1, context),
            actions[failing].failure(context_after::<C, A>(actions, failing, context)),
        ),
{
    lemma_run_resumes::<C, A>(actions, failing, context);
}

/// The context after the first steps depends on those steps alone.
pub proof fn lemma_context_after_agrees<C: View, A: StepAction<C>>(
    first: Seq<A>,
    second: Seq<A>,
    count: int,
    context: C::V,
)
    requires
        0 <= count <= first.len(),
        count <= second.len(),
        forall|i: int| 0 <= i < count ==> first[i] == second[i],
    ensures
        context_after::<C, A>(first, count, context) == context_after::<C, A>(
            second,
            count,
            context,
        ),
    decreases count,
{
    if count > 0 {
        lemma_context_after_agrees::<C, A>(first, second, count - 1, context);
    }
}

/// The steps behind a failing step never run: two workflows that agree up
/// to and including the first failing step end alike, whatever follows in
/// either of them.
pub proof fn lemma_later_steps_never_run<C: View, A: StepAction<C>>(
    first: Seq<A>,
    second: Seq<A>,
    failing: int,
    context: C::V,
)
    requires
        0 <= failing < first.len(),
        failing < second.len(),
        forall|i: int| 0 <= i <= failing ==> first[i] == second[i],
        all_succeed::<C, A>(first, failing, context),
        first[failing].failure(context_after::<C, A>(first, failing, context)) is Some,
    ensures
        run_from::<C, A>(first, 0, context) == run_from::<C, A>(second, 0, context),
{
    assert forall|i: int| 0 <= i < failing implies (#[trigger] second[i]).failure(
        context_after::<C, A>(second, i, context),
    ) is None by {
        lemma_context_after_agrees::<C, A>(first, second, i, context);
        assert(first[i].failure(context_after::<C, A>(first, i, context)) is None);
    }
    lemma_context_after_agrees::<C, A>(first, second, failing, context);
    lemma_context_after_agrees::<C, A>(first, second, failing + 1, context);
    lemma_first_failure_ends_the_run::<C, A>(first, failing, context);
    lemma_first_failure_ends_the_run::<C, A>(second, failing, context);
}

/// A workflow whose steps all succeed ends in success, with the context
/// that all its steps, in order, left behind.
pub proof fn lemma_success_runs_every_step<C: View, A: StepAction<C>>(
    actions: Seq<A>,
    context: C::V,
)
    requires
        all_succeed::<C, A>(actions, actions.len() as int, context),
    ensures
        run_from::<C, A>(actions, 0, context) == (
            context_after::<C, A>(actions, actions.len() as int, context),
            None::<Seq<char>>,
        ),
{
    lemma_run_resumes::<C, A>(actions, actions.len() as int, context);
}

} // verus!
