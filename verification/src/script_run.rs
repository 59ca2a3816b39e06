//! Running a script step by step: which statement is sent next, what becomes
//! of the rows that come back, and when the script ends.

use vstd::prelude::*;
use crate::error::{DatabaseError, DatabaseErrorView};
use crate::transaction::{
    precheck_message, resolved_write, rows_view, step_result, ConcreteTransactionStep, Database,
    OperationView, SQLOperation, StepPlan, TransactionContext, TransactionScript, TransactionStep,
};
use crate::value::{ConstValue, ConstView};

verus! {

/// What the run of a script asks for next.
pub enum ScriptAction {
    /// Send this statement and report what came of it.
    Run(ConcreteTransactionStep),
    /// The script has ended, with the rows of its last step or with an error.
    Done(Result<Vec<Vec<ConstValue>>, DatabaseError>),
}

/// The run of a script: the steps that are still to come, the results of the
/// steps that have run, and the statements of the step that is running.
pub struct ScriptExecution<F> {
    /// The steps still to come, the next one last.
    steps: Vec<TransactionStep<F>>,
    context: TransactionContext,
    /// The statements of the running step still to be sent, the next one last.
    pending: Vec<ConcreteTransactionStep>,
    precheck: bool,
    running: bool,
    finished: bool,
}

/// A sequence in the opposite order.
pub open spec fn reversed<T>(s: Seq<T>) -> Seq<T> {
    Seq::new(s.len(), |i: int| s[s.len() - 1 - i])
}

/// Turns a list around.
fn reverse<T>(items: Vec<T>) -> (r: Vec<T>)
    ensures
        r@ == reversed(items@),
{
    let mut items = items;
    let ghost all = items@;
    let mut out: Vec<T> = Vec::new();
    while items.len() > 0
        invariant
            items@.len() + out@.len() == all.len(),
            items@ == all.take(items@.len() as int),
            forall|i: int| 0 <= i < out@.len() ==> out@[i] == all[all.len() - 1 - i],
        decreases items.len(),
    {
        let last = items.pop().unwrap();
        out.push(last);
        proof {
            assert(items@ =~= all.take(items@.len() as int));
        }
    }
    proof {
        assert(out@ =~= reversed(all));
    }
    out
}

pub open spec fn misuse_message() -> Seq<char> {
    "The run was given an outcome that it did not await, or none that it awaited"@
}

pub open spec fn ended_message() -> Seq<char> {
    "The script has ended"@
}

pub open spec fn missing_result_message() -> Seq<char> {
    "A step refers to a result that is not there"@
}

impl<F: FnOnce(&TransactionContext) -> ConcreteTransactionStep> ScriptExecution<F> {
    /// The steps that are still to come, in the order in which they run.
    pub closed spec fn remaining(&self) -> Seq<TransactionStep<F>> {
        reversed(self.steps@)
    }

    /// The results of the steps that have run.
    pub closed spec fn context(&self) -> TransactionContext {
        self.context
    }

    /// The statements of the running step that are still to be sent, in the
    /// order in which they are sent.
    pub closed spec fn pending(&self) -> Seq<ConcreteTransactionStep> {
        reversed(self.pending@)
    }

    /// Whether the running step is a precondition.
    pub closed spec fn precheck(&self) -> bool {
        self.precheck
    }

    /// Whether a statement was sent whose outcome is awaited.
    pub closed spec fn running(&self) -> bool {
        self.running
    }

    /// Whether the script has ended.
    pub closed spec fn finished(&self) -> bool {
        self.finished
    }

    /// The run of a script of which nothing has run yet.
    pub fn new(script: TransactionScript<F>) -> (r: ScriptExecution<F>)
        ensures
            r.remaining() == script@,
            r.context()@ == Seq::<Seq<Seq<ConstView>>>::empty(),
            r.pending() == Seq::<ConcreteTransactionStep>::empty(),
            !r.running(),
            !r.finished(),
    {
        let steps = reverse(script.into_steps());
        let r = ScriptExecution {
            steps,
            context: TransactionContext::new(),
            pending: Vec::new(),
            precheck: false,
            running: false,
            finished: false,
        };
        proof {
            assert(r.remaining() =~= script@);
            assert(r.pending() =~= Seq::empty());
        }
        r
    }

    fn end(&mut self, outcome: Result<Vec<Vec<ConstValue>>, DatabaseError>) -> (r: ScriptAction)
        ensures
            final(self).finished(),
            !final(self).running(),
            final(self).context() == old(self).context(),
            r == ScriptAction::Done(outcome),
    {
        self.finished = true;
        self.running = false;
        ScriptAction::Done(outcome)
    }

    /// Starts the next step that has a statement to send. A template over no
    /// rows has none: its result is empty, and the run goes on to the step
    /// after it. Where no step is left, the script ends with the rows of its
    /// last step.
    fn start_next(&mut self, database: &Database) -> (r: ScriptAction)
        requires
            !old(self).running(),
            !old(self).finished(),
            old(self).pending().len() == 0,
            forall|i: int|
                0 <= i < old(self).remaining().len() ==> always_callable(
                    #[trigger] old(self).remaining()[i],
                ),
        ensures
            started(*old(self), *database, *final(self), r),
        decreases old(self).steps@.len(),
    {
        let ghost before = *self;
        match self.steps.pop() {
            None => {
                let rows = self.context.take_last();
                proof {
                    assert(before.remaining().len() == 0);
                }
                self.end(rows)
            },
            Some(step) => {
                proof {
                    assert(before.remaining()[0] == step);
                    assert(self.remaining() =~= before.remaining().skip(1));
                    assert(always_callable(before.remaining()[0]));
                    assert forall|i: int| 0 <= i < self.remaining().len() implies always_callable(
                        #[trigger] self.remaining()[i],
                    ) by {
                        assert(self.remaining()[i] == before.remaining()[i + 1]);
                    }
                }
                let runnable = match &step {
                    TransactionStep::Template(template) => template.is_resolvable(&self.context),
                    TransactionStep::Filter(filter) => filter.is_resolvable(&self.context, database),
                    _ => true,
                };
                if !runnable {
                    return self.end(
                        Err(
                            DatabaseError::Transaction(
                                "A step refers to a result that is not there".to_owned(),
                            ),
                        ),
                    );
                }
                let plan = step.plan(database, &self.context);
                if plan.operations.len() == 0 {
                    let empty: Vec<Vec<ConstValue>> = Vec::new();
                    proof {
                        assert(rows_view(empty@) =~= Seq::empty());
                    }
                    self.context.record(empty);
                    let ghost skipped = *self;
                    let r = self.start_next(database);
                    proof {
                        assert(follows(before, Seq::empty(), skipped, 1));
                        assert(started(skipped, *database, *self, r));
                    }
                    return r;
                }
                let mut pending = reverse(plan.operations);
                let first = pending.pop().unwrap();
                proof {
                    assert(reversed(pending@) =~= plan.operations@.skip(1));
                }
                self.pending = pending;
                self.precheck = plan.precheck;
                self.running = true;
                ScriptAction::Run(first)
            },
        }
    }

    /// Takes the run one step further. The first call is made with no
    /// outcome; every later call is made with the outcome of the statement
    /// that the call before it asked to send, until the script has ended.
    pub fn advance(&mut self, database: &Database, outcome: Option<
        Result<Vec<Vec<ConstValue>>, DatabaseError>,
    >) -> (r: ScriptAction)
        requires
            forall|i: int|
                0 <= i < old(self).remaining().len() ==> always_callable(
                    #[trigger] old(self).remaining()[i],
                ),
        ensures
            advanced(*old(self), *database, outcome, *final(self), r),
    {
        if self.finished {
            return self.end(Err(DatabaseError::Transaction("The script has ended".to_owned())));
        }
        if self.running {
            match outcome {
                None => self.end(
                    Err(
                        DatabaseError::Transaction(
                            "The run was given an outcome that it did not await, or none that it awaited".to_owned(),
                        ),
                    ),
                ),
                Some(Err(e)) => self.end(Err(e)),
                Some(Ok(rows)) => {
                    let ghost before = *self;
                    match self.pending.pop() {
                        Some(next) => {
                            proof {
                                assert(before.pending()[0] == next);
                                assert(self.pending() =~= before.pending().skip(1));
                            }
                            ScriptAction::Run(next)
                        },
                        None => {
                            proof {
                                assert(before.pending().len() == 0);
                                assert(self.pending() =~= Seq::empty());
                            }
                            match step_result(self.precheck, rows) {
                                Err(e) => self.end(Err(e)),
                                Ok(rows) => {
                                    self.context.record(rows);
                                    self.running = false;
                                    let ghost recorded = *self;
                                    proof {
                                        assert(self.remaining() == before.remaining());
                                    }
                                    let r = self.start_next(database);
                                    proof {
                                        assert(before.remaining().skip(0) =~= before.remaining());
                                        assert(follows(before, rows_view(rows@), recorded, 0));
                                        assert(started(recorded, *database, *self, r));
                                    }
                                    r
                                },
                            }
                        },
                    }
                },
            }
        } else {
            match outcome {
                Some(_) => self.end(
                    Err(
                        DatabaseError::Transaction(
                            "The run was given an outcome that it did not await, or none that it awaited".to_owned(),
                        ),
                    ),
                ),
                None => {
                    if self.pending.len() > 0 {
                        return self.end(
                            Err(
                                DatabaseError::Transaction(
                                    "The run was given an outcome that it did not await, or none that it awaited".to_owned(),
                                ),
                            ),
                        );
                    }
                    proof {
                        assert(self.pending() =~= Seq::empty());
                    }
                    self.start_next(database)
                },
            }
        }
    }
}

/// Whether a step can be run whatever the results so far are: the function
/// of a dynamic step must accept every context.
pub open spec fn always_callable<F: FnOnce(&TransactionContext) -> ConcreteTransactionStep>(
    step: TransactionStep<F>,
) -> bool {
    match step {
        TransactionStep::Dynamic(d) => forall|c: &TransactionContext| #[trigger]
            d.function.requires((c,)),
        _ => true,
    }
}

/// Whether an action is the end of the run with the given error.
pub open spec fn action_is_error(action: ScriptAction, error: DatabaseErrorView) -> bool {
    action matches ScriptAction::Done(Err(e)) && e@ == error
}

/// Whether `next` is the run `before` once a step has ended with `rows`:
/// the rows are recorded, nothing is awaited or pending, and the first
/// `dropped` of the steps to come are gone.
pub open spec fn follows<F: FnOnce(&TransactionContext) -> ConcreteTransactionStep>(
    before: ScriptExecution<F>,
    rows: Seq<Seq<ConstView>>,
    next: ScriptExecution<F>,
    dropped: int,
) -> bool {
    &&& next.remaining() == before.remaining().skip(dropped)
    &&& next.context()@ == before.context()@.push(rows)
    &&& next.pending().len() == 0
    &&& !next.running()
    &&& !next.finished()
}

/// What starting the next step gives, from a run that awaits nothing and has
/// no statement pending.
///
/// With no step left the script ends with the rows of the last step that
/// ran; there is none where the script had no step, which is an error. A
/// template or a filter that refers to a result that is not there ends the
/// script with an error. A template over no rows records an empty result and
/// the next step is started in its place. Any other step sends its first
/// statement and keeps the rest pending.
pub open spec fn started<F: FnOnce(&TransactionContext) -> ConcreteTransactionStep>(
    before: ScriptExecution<F>,
    database: Database,
    after: ScriptExecution<F>,
    action: ScriptAction,
) -> bool
    decreases before.remaining().len(),
{
    if before.remaining().len() == 0 {
        &&& after.finished()
        &&& match action {
            ScriptAction::Done(Ok(rows)) => before.context()@.len() > 0 && rows_view(rows@)
                == before.context()@.last(),
            ScriptAction::Done(Err(e)) => before.context()@.len() == 0 && e@
                == DatabaseErrorView::Transaction(Seq::empty()),
            ScriptAction::Run(_) => false,
        }
    } else {
        let step = before.remaining()[0];
        if !step_runnable(step, before.context()@, database) {
            after.finished() && action_is_error(
                action,
                DatabaseErrorView::Transaction(missing_result_message()),
            )
        } else if step matches TransactionStep::Template(t) && before.context()@[t.prev_step_id.0 as int].len()
            == 0 {
            exists|skipped: ScriptExecution<F>|
                #[trigger] follows(before, Seq::empty(), skipped, 1) && started(
                    skipped,
                    database,
                    after,
                    action,
                )
        } else {
            &&& !after.finished()
            &&& after.running()
            &&& after.remaining() == before.remaining().skip(1)
            &&& after.context() == before.context()
            &&& after.precheck() == (step is Precheck)
            &&& action matches ScriptAction::Run(first) && match step {
                TransactionStep::Concrete(s) => first == *s && after.pending().len() == 0,
                TransactionStep::Template(t) => first@ == OperationView::Write(
                    resolved_write(t.operation, before.context()@, 0),
                ) && after.pending().len() + 1 == before.context()@[t.prev_step_id.0 as int].len()
                    && forall|k: int|
                    0 <= k < after.pending().len() ==> (#[trigger] after.pending()[k])@
                        == OperationView::Write(
                        resolved_write(t.operation, before.context()@, k + 1),
                    ),
                TransactionStep::Filter(f) => first@ == f.resolved(before.context()@, database)
                    && after.pending().len() == 0,
                TransactionStep::Dynamic(d) => d.function.ensures((&before.context(),), first)
                    && after.pending().len() == 0,
                TransactionStep::Precheck(select) => first == (ConcreteTransactionStep {
                    operation: SQLOperation::Select(select),
                }) && after.pending().len() == 0,
            }
        }
    }
}

/// Whether a step can run against the results so far: a template and a
/// filter must find the results that they refer to.
pub open spec fn step_runnable<F>(
    step: TransactionStep<F>,
    context: Seq<Seq<Seq<ConstView>>>,
    database: Database,
) -> bool {
    match step {
        TransactionStep::Template(t) => t.resolvable(context),
        TransactionStep::Filter(f) => f.resolvable(context, database),
        _ => true,
    }
}

/// What one call of [`ScriptExecution::advance`] does.
///
/// A run that has ended stays ended. An outcome that was not awaited, or a
/// missing one that was, ends the run with an error. A failed statement ends
/// the run with its error. The rows of a statement that is not the last of
/// its step are dropped, and the next statement of the step is sent. The rows
/// of the last statement are the rows of the step: a precondition that did
/// not return exactly one row ends the run with an error; otherwise the rows
/// are recorded and the next step is started.
pub open spec fn advanced<F: FnOnce(&TransactionContext) -> ConcreteTransactionStep>(
    before: ScriptExecution<F>,
    database: Database,
    outcome: Option<Result<Vec<Vec<ConstValue>>, DatabaseError>>,
    after: ScriptExecution<F>,
    action: ScriptAction,
) -> bool {
    if before.finished() {
        after.finished() && action_is_error(action, DatabaseErrorView::Transaction(ended_message()))
    } else if before.running() {
        match outcome {
            None => after.finished() && action_is_error(
                action,
                DatabaseErrorView::Transaction(misuse_message()),
            ),
            Some(Err(e)) => after.finished() && action == ScriptAction::Done(Err(e)),
            Some(Ok(rows)) => if before.pending().len() > 0 {
                &&& action == ScriptAction::Run(before.pending()[0])
                &&& after.pending() == before.pending().skip(1)
                &&& after.remaining() == before.remaining()
                &&& after.context() == before.context()
                &&& after.precheck() == before.precheck()
                &&& after.running()
                &&& !after.finished()
            } else if before.precheck() && rows@.len() != 1 {
                after.finished() && action_is_error(
                    action,
                    DatabaseErrorView::Precheck(precheck_message(rows@.len())),
                )
            } else {
                exists|recorded: ScriptExecution<F>|
                    #[trigger] follows(before, rows_view(rows@), recorded, 0) && started(
                        recorded,
                        database,
                        after,
                        action,
                    )
            },
        }
    } else {
        match outcome {
            Some(_) => after.finished() && action_is_error(
                action,
                DatabaseErrorView::Transaction(misuse_message()),
            ),
            None => if before.pending().len() > 0 {
                after.finished() && action_is_error(
                    action,
                    DatabaseErrorView::Transaction(misuse_message()),
                )
            } else {
                started(before, database, after, action)
            },
        }
    }
}

/// Steps run in the order of the script and see every earlier result: when
/// a step is started, the results recorded before are all still there, in
/// their places, and the steps still to come are a shorter tail of the steps
/// that were to come.
pub proof fn lemma_started_in_order<F: FnOnce(&TransactionContext) -> ConcreteTransactionStep>(
    before: ScriptExecution<F>,
    database: Database,
    after: ScriptExecution<F>,
    action: ScriptAction,
)
    requires
        started(before, database, after, action),
        action is Run,
    ensures
        after.context()@.len() >= before.context()@.len(),
        after.context()@.take(before.context()@.len() as int) == before.context()@,
        after.remaining().len() < before.remaining().len(),
        after.remaining() == before.remaining().skip(
            before.remaining().len() - after.remaining().len(),
        ),
    decreases before.remaining().len(),
{
    if before.remaining().len() > 0 {
        let step = before.remaining()[0];
        if !step_runnable(step, before.context()@, database) {
        } else if step is Template && before.context()@[step->Template_0.prev_step_id.0 as int].len()
            == 0 {
            let skipped = choose|skipped: ScriptExecution<F>|
                #[trigger] follows(before, Seq::empty(), skipped, 1) && started(
                    skipped,
                    database,
                    after,
                    action,
                );
            lemma_started_in_order(skipped, database, after, action);
            assert(after.context()@.take(before.context()@.len() as int) =~= before.context()@) by {
                assert(after.context()@.take(skipped.context()@.len() as int) == skipped.context()@);
                assert forall|i: int| 0 <= i < before.context()@.len() implies after.context()@[i]
                    == before.context()@[i] by {
                    assert(skipped.context()@[i] == before.context()@[i]);
                    assert(after.context()@.take(skipped.context()@.len() as int)[i]
                        == after.context()@[i]);
                }
            }
            assert(after.remaining() =~= before.remaining().skip(
                before.remaining().len() - after.remaining().len(),
            ));
        } else {
            assert(after.context()@.take(before.context()@.len() as int) =~= before.context()@);
        }
    }
}

/// A script without steps ends at once, with an error.
pub proof fn lemma_empty_script_fails<F: FnOnce(&TransactionContext) -> ConcreteTransactionStep>(
    before: ScriptExecution<F>,
    database: Database,
    after: ScriptExecution<F>,
    action: ScriptAction,
)
    requires
        started(before, database, after, action),
        before.remaining().len() == 0,
        before.context()@.len() == 0,
    ensures
        action_is_error(action, DatabaseErrorView::Transaction(Seq::empty())),
{
}

} // verus!
