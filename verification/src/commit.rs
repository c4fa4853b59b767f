//! Text commit actions and what each one does to the text on screen.

use vstd::prelude::*;

verus! {

/// A text commit action.
#[derive(Debug, Clone)]
pub enum CommitAction {
    /// Type the final text (used when no draft is on screen).
    CommitFinal { text: String },
    /// Turn the draft into the final text by replacing only the differing tail.
    CommitFinalFromDraft { new_text: String, delete_chars: usize },
    /// Update the draft: delete the old tail, then type the new suffix.
    UpdateDraft { new_text: String, delete_chars: usize },
    /// Remove the draft without typing anything.
    ClearDraft { delete_chars: usize },
}

/// The mathematical content of a [`CommitAction`].
pub ghost enum CommitPlan {
    CommitFinal { text: Seq<char> },
    CommitFinalFromDraft { new_text: Seq<char>, delete_chars: nat },
    UpdateDraft { new_text: Seq<char>, delete_chars: nat },
    ClearDraft { delete_chars: nat },
}

impl View for CommitAction {
    type V = CommitPlan;

    open spec fn view(&self) -> CommitPlan {
        match self {
            CommitAction::CommitFinal { text } => CommitPlan::CommitFinal { text: text@ },
            CommitAction::CommitFinalFromDraft { new_text, delete_chars } =>
                CommitPlan::CommitFinalFromDraft {
                new_text: new_text@,
                delete_chars: *delete_chars as nat,
            },
            CommitAction::UpdateDraft { new_text, delete_chars } => CommitPlan::UpdateDraft {
                new_text: new_text@,
                delete_chars: *delete_chars as nat,
            },
            CommitAction::ClearDraft { delete_chars } => CommitPlan::ClearDraft {
                delete_chars: *delete_chars as nat,
            },
        }
    }
}

/// The view of an optional action.
pub open spec fn plan_of(a: Option<CommitAction>) -> Option<CommitPlan> {
    match a {
        Some(a) => Some(a@),
        None => None,
    }
}

/// The text left on screen when `plan` is applied to a screen that ends
/// with the text `screen`: deletions remove trailing characters, typing
/// appends.
pub open spec fn screen_after(screen: Seq<char>, plan: CommitPlan) -> Seq<char> {
    match plan {
        CommitPlan::CommitFinal { text } => screen + text,
        CommitPlan::CommitFinalFromDraft { new_text, delete_chars } => screen.take(
            screen.len() - delete_chars,
        ) + new_text,
        CommitPlan::UpdateDraft { new_text, delete_chars } => screen.take(
            screen.len() - delete_chars,
        ) + new_text,
        CommitPlan::ClearDraft { delete_chars } => screen.take(screen.len() - delete_chars),
    }
}

/// The number of characters that `plan` deletes.
pub open spec fn deleted_by(plan: CommitPlan) -> nat {
    match plan {
        CommitPlan::CommitFinal { .. } => 0,
        CommitPlan::CommitFinalFromDraft { delete_chars, .. } => delete_chars,
        CommitPlan::UpdateDraft { delete_chars, .. } => delete_chars,
        CommitPlan::ClearDraft { delete_chars } => delete_chars,
    }
}

/// A keyboard operation.
#[derive(Debug, Clone)]
pub enum KeyOp {
    /// Press backspace this many times.
    DeleteBackward(usize),
    /// Type this text.
    TypeText(String),
}

/// A keyboard operation and the draft length to record once it succeeded.
#[derive(Debug, Clone)]
pub struct CommitStep {
    pub op: KeyOp,
    pub draft_after: usize,
}

/// The operations that carry out an action, and the draft length once all
/// of them succeeded. When one fails the rest are skipped and the draft
/// length stays as the last successful step left it.
#[derive(Debug, Clone)]
pub struct CommitSchedule {
    pub steps: Vec<CommitStep>,
    pub final_draft: usize,
}

/// A keyboard operation as plain values: `(true, n, _)` deletes `n`
/// characters, `(false, _, t)` types `t`.
pub open spec fn op_view(op: KeyOp) -> (bool, nat, Seq<char>) {
    match op {
        KeyOp::DeleteBackward(n) => (true, n as nat, Seq::empty()),
        KeyOp::TypeText(t) => (false, 0, t@),
    }
}

/// The steps as plain values.
pub open spec fn steps_view(steps: Seq<CommitStep>) -> Seq<((bool, nat, Seq<char>), nat)> {
    steps.map_values(|s: CommitStep| (op_view(s.op), s.draft_after as nat))
}

/// What an insert-only backend does for an action when `draft` characters
/// of draft are on screen: a final commit first deletes the draft; the
/// other actions delete only when they have characters to delete, and an
/// empty final text is not typed; the draft is empty afterwards, except
/// after an update, which leaves `draft - delete + new` characters.
pub open spec fn schedule_spec(plan: CommitPlan, draft: nat) -> (Seq<((bool, nat, Seq<char>), nat)>, nat) {
    match plan {
        CommitPlan::CommitFinal { text } => {
            let typing = seq![((false, 0nat, text), 0nat)];
            if draft > 0 {
                (seq![((true, draft, Seq::<char>::empty()), 0nat)] + typing, 0)
            } else {
                (typing, 0)
            }
        },
        CommitPlan::CommitFinalFromDraft { new_text, delete_chars } => {
            let del = if delete_chars > 0 {
                seq![((true, delete_chars, Seq::<char>::empty()), draft)]
            } else {
                Seq::empty()
            };
            let typ = if new_text.len() > 0 {
                seq![((false, 0nat, new_text), draft)]
            } else {
                Seq::empty()
            };
            (del + typ, 0)
        },
        CommitPlan::UpdateDraft { new_text, delete_chars } => {
            let del = if delete_chars > 0 {
                seq![((true, delete_chars, Seq::<char>::empty()), draft)]
            } else {
                Seq::empty()
            };
            (del + seq![((false, 0nat, new_text), draft)], (draft - delete_chars + new_text.len()) as nat)
        },
        CommitPlan::ClearDraft { delete_chars } => {
            let del = if delete_chars > 0 {
                seq![((true, delete_chars, Seq::<char>::empty()), draft)]
            } else {
                Seq::empty()
            };
            (del, 0)
        },
    }
}

/// The text on screen after the keyboard operations `ops` run one after the
/// other on a screen that ends with `screen`: a deletion of `n` removes the
/// last `n` characters, typing appends.
pub open spec fn run_ops(screen: Seq<char>, ops: Seq<((bool, nat, Seq<char>), nat)>) -> Seq<char>
    decreases ops.len(),
{
    if ops.len() == 0 {
        screen
    } else {
        let op = ops[0].0;
        let next = if op.0 {
            screen.take(screen.len() - op.1)
        } else {
            screen + op.2
        };
        run_ops(next, ops.drop_first())
    }
}

/// The operations scheduled for an action do what the action means, and the
/// draft length they leave is the length of the draft then on screen. With
/// `committed` text followed by a `draft` on screen:
/// - a final commit removes the whole draft and types the text after the
///   committed text;
/// - the other actions (deleting no more than the draft) change only the
///   draft's tail, exactly as [`screen_after`] says;
/// - after an update the recorded draft length is the length of the new
///   draft (`draft - delete + typed`), after every other action it is 0.
pub proof fn law_schedule_matches_screen(committed: Seq<char>, draft: Seq<char>, plan: CommitPlan)
    requires
        plan is CommitFinal || deleted_by(plan) <= draft.len(),
    ensures
        ({
            let (ops, final_draft) = schedule_spec(plan, draft.len());
            &&& plan is CommitFinal ==> run_ops(committed + draft, ops) == committed + plan->text
            &&& !(plan is CommitFinal) ==> run_ops(committed + draft, ops) == committed
                + screen_after(draft, plan)
            &&& plan is UpdateDraft ==> final_draft == screen_after(draft, plan).len()
            &&& !(plan is UpdateDraft) ==> final_draft == 0
        }),
{
    reveal_with_fuel(run_ops, 3);
    let screen = committed + draft;
    let (ops, final_draft) = schedule_spec(plan, draft.len());
    match plan {
        CommitPlan::CommitFinal { text } => {
            if draft.len() > 0 {
                assert(screen.take(screen.len() - draft.len()) =~= committed);
                assert(ops.drop_first() =~= seq![((false, 0nat, text), 0nat)]);
            }
            assert(ops.last().0.2 == text);
        },
        CommitPlan::CommitFinalFromDraft { new_text, delete_chars } => {
            let kept = screen.take(screen.len() - delete_chars);
            assert(kept =~= committed + draft.take(draft.len() - delete_chars));
            assert(kept + new_text =~= committed + (draft.take(draft.len() - delete_chars) + new_text));
            if delete_chars > 0 {
                assert(ops.drop_first() =~= (if new_text.len() > 0 {
                    seq![((false, 0nat, new_text), draft.len())]
                } else {
                    Seq::empty()
                }));
            } else {
                assert(screen.take(screen.len() - delete_chars) =~= screen);
                assert(draft.take(draft.len() - delete_chars) =~= draft);
            }
            if new_text.len() == 0 {
                assert(kept + new_text =~= kept);
            }
        },
        CommitPlan::UpdateDraft { new_text, delete_chars } => {
            let kept = screen.take(screen.len() - delete_chars);
            assert(kept =~= committed + draft.take(draft.len() - delete_chars));
            assert(kept + new_text =~= committed + (draft.take(draft.len() - delete_chars) + new_text));
            if delete_chars > 0 {
                assert(ops.drop_first() =~= seq![((false, 0nat, new_text), draft.len())]);
            } else {
                assert(screen.take(screen.len() - delete_chars) =~= screen);
                assert(draft.take(draft.len() - delete_chars) =~= draft);
            }
        },
        CommitPlan::ClearDraft { delete_chars } => {
            let kept = screen.take(screen.len() - delete_chars);
            assert(kept =~= committed + draft.take(draft.len() - delete_chars));
            if delete_chars == 0 {
                assert(screen.take(screen.len() - delete_chars) =~= screen);
                assert(draft.take(draft.len() - delete_chars) =~= draft);
            }
        },
    }
}

/// The draft an insert-only backend has typed, which lets it replace that
/// draft later.
pub struct DraftTracker {
    draft_char_count: usize,
}

impl DraftTracker {
    /// The number of draft characters on screen.
    pub closed spec fn draft(&self) -> nat {
        self.draft_char_count as nat
    }

    /// No draft on screen.
    pub fn new() -> (r: Self)
        ensures
            r.draft() == 0,
    {
        DraftTracker { draft_char_count: 0 }
    }

    /// The number of draft characters on screen.
    pub fn draft_char_count(&self) -> (r: usize)
        ensures
            r == self.draft(),
    {
        self.draft_char_count
    }

    /// Records the draft length after a step or a whole action.
    pub fn record(&mut self, count: usize)
        ensures
            final(self).draft() == count,
    {
        self.draft_char_count = count;
    }

    /// The keyboard operations for `action`. An update may not delete more
    /// than the draft, and the new draft must fit in `usize`.
    pub fn schedule(&self, action: &CommitAction) -> (r: CommitSchedule)
        requires
            action matches CommitAction::UpdateDraft { new_text, delete_chars } ==> *delete_chars
                <= self.draft() && self.draft() - *delete_chars + new_text@.len() <= usize::MAX,
        ensures
            (steps_view(r.steps@), r.final_draft as nat) == schedule_spec(action@, self.draft()),
    {
        let draft = self.draft_char_count;
        let mut steps: Vec<CommitStep> = Vec::new();
        match action {
            CommitAction::CommitFinal { text } => {
                if draft > 0 {
                    steps.push(CommitStep { op: KeyOp::DeleteBackward(draft), draft_after: 0 });
                }
                steps.push(
                    CommitStep { op: KeyOp::TypeText(crate::text::copy_str(text.as_str())), draft_after: 0 },
                );
                let r = CommitSchedule { steps, final_draft: 0 };
                assert(steps_view(r.steps@) =~= schedule_spec(action@, self.draft()).0);
                r
            },
            CommitAction::CommitFinalFromDraft { new_text, delete_chars } => {
                if *delete_chars > 0 {
                    steps.push(CommitStep { op: KeyOp::DeleteBackward(*delete_chars), draft_after: draft });
                }
                if crate::text::to_chars(new_text.as_str()).len() > 0 {
                    steps.push(
                        CommitStep {
                            op: KeyOp::TypeText(crate::text::copy_str(new_text.as_str())),
                            draft_after: draft,
                        },
                    );
                }
                let r = CommitSchedule { steps, final_draft: 0 };
                assert(steps_view(r.steps@) =~= schedule_spec(action@, self.draft()).0);
                r
            },
            CommitAction::UpdateDraft { new_text, delete_chars } => {
                if *delete_chars > 0 {
                    steps.push(CommitStep { op: KeyOp::DeleteBackward(*delete_chars), draft_after: draft });
                }
                let typed = crate::text::to_chars(new_text.as_str()).len();
                steps.push(
                    CommitStep {
                        op: KeyOp::TypeText(crate::text::copy_str(new_text.as_str())),
                        draft_after: draft,
                    },
                );
                let r = CommitSchedule { steps, final_draft: draft - *delete_chars + typed };
                assert(steps_view(r.steps@) =~= schedule_spec(action@, self.draft()).0);
                r
            },
            CommitAction::ClearDraft { delete_chars } => {
                if *delete_chars > 0 {
                    steps.push(CommitStep { op: KeyOp::DeleteBackward(*delete_chars), draft_after: draft });
                }
                let r = CommitSchedule { steps, final_draft: 0 };
                assert(steps_view(r.steps@) =~= schedule_spec(action@, self.draft()).0);
                r
            },
        }
    }
}

/// A backend that puts committed text on screen.
pub trait TextCommitBackend {
    /// The name of the backend, for logs.
    fn backend_name(&self) -> String;

    /// Whether the backend can replace a draft it typed; a backend that
    /// does not say otherwise cannot.
    fn supports_draft_replacement(&self) -> (r: bool)
        default_ensures
            !r,
    {
        false
    }

    /// Carries out an action.
    fn apply(&mut self, action: CommitAction) -> Result<(), String>;
}

} // verus!
