//! Recognition session state: partial results, the draft typed at the
//! cursor, and final results.

use vstd::prelude::*;
use crate::commit::{deleted_by, plan_of, screen_after, CommitAction, CommitPlan};
use crate::text::{
    common_prefix_from, common_prefix_len, copy_str, from_chars_range, lemma_common_prefix_len,
    newlines_to_spaces_trimmed, push_char, replace_char, str_eq, to_chars, trim, trim_str,
};

verus! {

/// Number of unchanged polls after which the draft's length is locked.
pub const STALE_LOCK_THRESHOLD: usize = 2;

/// Number of unchanged polls after which a pause comma is typed.
pub const STALE_COMMA_THRESHOLD: usize = 3;

/// Characters of a partial result shown in the status line.
pub const STATUS_MAX_CHARS: usize = 48;

/// Result of a partial update.
#[derive(Debug, Clone, PartialEq, Eq)]
pub struct PartialUpdate {
    pub text: String,
    pub status_text: String,
}

/// What a partial result becomes: newlines turn into spaces, then the
/// result is trimmed.
pub open spec fn normalize_partial(s: Seq<char>) -> Seq<char> {
    trim(replace_char(s, '\n', ' '))
}

/// The status line shown for a partial result.
pub open spec fn partial_status(t: Seq<char>) -> Seq<char> {
    if t.len() <= STATUS_MAX_CHARS {
        "识别中: "@ + t
    } else {
        "识别中: "@ + t.take(STATUS_MAX_CHARS as int) + seq!['…']
    }
}

/// Punctuation after which no pause comma is added.
pub open spec fn is_pause_punct(c: char) -> bool {
    c == '，' || c == '。' || c == '！' || c == '？' || c == '；' || c == '、'
}

/// The state of a [`PartialResultManager`].
pub ghost struct PartialState {
    /// The latest partial text reported.
    pub latest: Seq<char>,
    /// The draft text typed at the cursor.
    pub committed: Seq<char>,
    /// Length of the locked draft prefix.
    pub stable_prefix: nat,
    /// Consecutive polls without a text change.
    pub stale: nat,
    /// Whether a pause comma was typed in the current stable run.
    pub comma_injected: bool,
}

/// Keeps partial results from repeating and tracks the draft typed at the cursor.
#[derive(Debug)]
pub struct PartialResultManager {
    latest_text: String,
    committed_text: String,
    stable_prefix_chars: usize,
    stale_count: usize,
    pause_comma_injected: bool,
}

impl View for PartialResultManager {
    type V = PartialState;

    closed spec fn view(&self) -> PartialState {
        PartialState {
            latest: self.latest_text@,
            committed: self.committed_text@,
            stable_prefix: self.stable_prefix_chars as nat,
            stale: self.stale_count as nat,
            comma_injected: self.pause_comma_injected,
        }
    }
}

/// The state with nothing reported and no draft.
pub open spec fn empty_partial_state() -> PartialState {
    PartialState {
        latest: Seq::empty(),
        committed: Seq::empty(),
        stable_prefix: 0,
        stale: 0,
        comma_injected: false,
    }
}

/// The incremental edit that turns the draft `old` into `new`: delete the
/// characters after the longest common prefix, then type the rest of `new`.
pub open spec fn draft_delete(old: Seq<char>, new: Seq<char>) -> nat {
    (old.len() - common_prefix_len(old, new)) as nat
}

/// The suffix of `new` typed by the incremental edit from `old`.
pub open spec fn draft_suffix(old: Seq<char>, new: Seq<char>) -> Seq<char> {
    new.skip(common_prefix_len(old, new))
}

/// A call on a [`PartialResultManager`], with the text it is given.
pub ghost enum PartialEvent {
    Clear,
    Update(Seq<char>),
    Tick(bool),
    DraftCommit(Seq<char>),
    DraftClear,
    FinalFromDraft(Seq<char>),
}

/// An unchanged poll on state `s` types a pause comma: it is at least the
/// third unchanged poll in a row, no comma was typed in this pause, and the
/// draft is not empty and does not already end in pause punctuation.
pub open spec fn tick_fires_comma(s: PartialState) -> bool {
    &&& s.stale + 1 >= STALE_COMMA_THRESHOLD
    &&& !s.comma_injected
    &&& s.committed.len() > 0
    &&& !is_pause_punct(s.committed.last())
}

/// The state after one call.
pub open spec fn partial_step(s: PartialState, e: PartialEvent) -> PartialState {
    match e {
        PartialEvent::Clear => empty_partial_state(),
        PartialEvent::Update(t) => {
            let n = normalize_partial(t);
            if n.len() == 0 || n == s.latest {
                s
            } else {
                PartialState { latest: n, ..s }
            }
        },
        PartialEvent::Tick(changed) => {
            let s1 = (s.stale + 1) as nat;
            if changed {
                PartialState { stale: 0, comma_injected: false, ..s }
            } else if tick_fires_comma(s) {
                PartialState {
                    latest: s.latest,
                    committed: s.committed.push('，'),
                    stable_prefix: (s.committed.len() + 1) as nat,
                    stale: s1,
                    comma_injected: true,
                }
            } else {
                let locked = if s1 >= STALE_LOCK_THRESHOLD && s.committed.len() > s.stable_prefix {
                    s.committed.len()
                } else {
                    s.stable_prefix
                };
                PartialState { stable_prefix: locked, stale: s1, ..s }
            }
        },
        PartialEvent::DraftCommit(t) => {
            let n = normalize_partial(t);
            if n.len() == 0 {
                s
            } else {
                PartialState { committed: n, ..s }
            }
        },
        PartialEvent::DraftClear => if s.committed.len() == 0 {
            s
        } else {
            PartialState { committed: Seq::empty(), ..s }
        },
        PartialEvent::FinalFromDraft(_) => if s.committed.len() == 0 {
            s
        } else {
            PartialState { committed: Seq::empty(), ..s }
        },
    }
}

/// The state after a history of calls on a fresh manager.
pub open spec fn run_partial(h: Seq<PartialEvent>) -> PartialState
    decreases h.len(),
{
    if h.len() == 0 {
        empty_partial_state()
    } else {
        partial_step(run_partial(h.drop_last()), h.last())
    }
}

/// A call that ends a pause: a poll with changed text, or a clear.
pub open spec fn ends_pause(e: PartialEvent) -> bool {
    e matches PartialEvent::Clear || e matches PartialEvent::Tick(true)
}

/// Unchanged polls since the history's last changed poll or clear.
pub open spec fn unchanged_polls(h: Seq<PartialEvent>) -> nat
    decreases h.len(),
{
    if h.len() == 0 {
        0
    } else if ends_pause(h.last()) {
        0
    } else if h.last() matches PartialEvent::Tick(false) {
        unchanged_polls(h.drop_last()) + 1
    } else {
        unchanged_polls(h.drop_last())
    }
}

/// Whether a poll typed a pause comma since the history's last changed
/// poll or clear.
pub open spec fn comma_in_pause(h: Seq<PartialEvent>) -> bool
    decreases h.len(),
{
    if h.len() == 0 {
        false
    } else if ends_pause(h.last()) {
        false
    } else if h.last() matches PartialEvent::Tick(false) {
        comma_in_pause(h.drop_last()) || tick_fires_comma(run_partial(h.drop_last()))
    } else {
        comma_in_pause(h.drop_last())
    }
}

/// The manager's counters follow its history: the unchanged-poll count is
/// the number of unchanged polls since the last change or clear, and the
/// comma flag says whether a comma was typed since then.
pub proof fn lemma_counters_follow_history(h: Seq<PartialEvent>)
    ensures
        run_partial(h).stale == unchanged_polls(h),
        run_partial(h).comma_injected == comma_in_pause(h),
    decreases h.len(),
{
    if h.len() > 0 {
        lemma_counters_follow_history(h.drop_last());
    }
}

/// Pause commas over any history of calls on a fresh manager: an
/// unchanged poll types `，` exactly when it is the third or later unchanged
/// poll since the last changed poll or clear, no comma was typed in that
/// pause, and the draft is not empty and does not end in pause
/// punctuation; the draft then becomes the old draft followed by `，`. So
/// at most one comma comes per pause.
pub proof fn law_pause_comma(h: Seq<PartialEvent>)
    ensures
        ({
            let s = run_partial(h);
            &&& tick_fires_comma(s) <==> (unchanged_polls(h) + 1 >= STALE_COMMA_THRESHOLD
                && !comma_in_pause(h) && s.committed.len() > 0 && !is_pause_punct(s.committed.last()))
            &&& tick_fires_comma(s) ==> partial_step(s, PartialEvent::Tick(false)).committed
                == s.committed.push('，')
            &&& comma_in_pause(h) ==> !tick_fires_comma(s)
            &&& comma_in_pause(h.push(PartialEvent::Tick(false))) == (comma_in_pause(h)
                || tick_fires_comma(s))
            &&& unchanged_polls(h.push(PartialEvent::Tick(false))) == unchanged_polls(h) + 1
        }),
{
    lemma_counters_follow_history(h);
    let h2 = h.push(PartialEvent::Tick(false));
    assert(h2.drop_last() =~= h);
    assert(h2.last() == PartialEvent::Tick(false));
}

impl Default for PartialResultManager {
    fn default() -> (r: Self)
        ensures
            r@ == empty_partial_state(),
    {
        PartialResultManager {
            latest_text: String::new(),
            committed_text: String::new(),
            stable_prefix_chars: 0,
            stale_count: 0,
            pause_comma_injected: false,
        }
    }
}

/// The status line for a partial result.
pub fn format_partial_status(text: &str) -> (r: String)
    ensures
        r@ == partial_status(text@),
{
    let v = to_chars(text);
    let mut r = String::from_str("识别中: ");
    if v.len() <= STATUS_MAX_CHARS {
        r.append(text);
    } else {
        let clipped = from_chars_range(&v, 0, STATUS_MAX_CHARS);
        r.append(clipped.as_str());
        push_char(&mut r, '…');
        assert(v@.subrange(0, STATUS_MAX_CHARS as int) =~= v@.take(STATUS_MAX_CHARS as int));
    }
    r
}

/// The incremental edit from `old` to `new`: `(delete_chars, suffix)`.
fn incremental_edit(old: &str, new: &str) -> (r: (usize, String))
    ensures
        r.0 == draft_delete(old@, new@),
        r.1@ == draft_suffix(old@, new@),
        screen_after(old@, CommitPlan::UpdateDraft { new_text: r.1@, delete_chars: r.0 as nat })
            == new@,
{
    let a = to_chars(old);
    let b = to_chars(new);
    let mut i: usize = 0;
    while i < a.len() && i < b.len() && a[i] == b[i]
        invariant
            i <= a@.len(),
            i <= b@.len(),
            common_prefix_from(a@, b@, i as int) == common_prefix_len(old@, new@),
        decreases a@.len() - i,
    {
        i = i + 1;
    }
    proof {
        lemma_common_prefix_len(old@, new@);
    }
    let suffix = from_chars_range(&b, i, b.len());
    assert(b@.subrange(i as int, b@.len() as int) =~= new@.skip(i as int));
    assert(old@.take(old@.len() - (old@.len() - i)) + new@.skip(i as int) =~= new@);
    (a.len() - i, suffix)
}

impl PartialResultManager {
    /// Forgets the partial text and the draft.
    pub fn clear(&mut self)
        ensures
            final(self)@ == empty_partial_state(),
            final(self)@ == partial_step(old(self)@, PartialEvent::Clear),
    {
        self.latest_text = String::new();
        self.committed_text = String::new();
        self.stable_prefix_chars = 0;
        self.stale_count = 0;
        self.pause_comma_injected = false;
    }

    /// Reports a partial result; returns the update to show unless the
    /// normalized text is empty or equal to the latest one.
    pub fn update(&mut self, text: &str) -> (r: Option<PartialUpdate>)
        ensures
            ({
                let n = normalize_partial(text@);
                if n.len() == 0 || n == old(self)@.latest {
                    r is None && final(self)@ == old(self)@
                } else {
                    &&& r matches Some(u) && u.text@ == n && u.status_text@ == partial_status(n)
                    &&& final(self)@ == PartialState { latest: n, ..old(self)@ }
                }
            }),
            final(self)@ == partial_step(old(self)@, PartialEvent::Update(text@)),
    {
        let normalized = newlines_to_spaces_trimmed(text);
        if normalized.unicode_len() == 0 || str_eq(normalized.as_str(), self.latest_text.as_str()) {
            return None;
        }
        self.latest_text = copy_str(normalized.as_str());
        let status_text = format_partial_status(normalized.as_str());
        Some(PartialUpdate { status_text, text: normalized })
    }

    /// Reports one poll; returns a pause comma to type when the text has
    /// been stable long enough.
    pub fn tick_stability(&mut self, text_changed: bool) -> (r: Option<CommitAction>)
        requires
            text_changed || old(self)@.stale < usize::MAX,
        ensures
            ({
                let o = old(self)@;
                let s1 = o.stale + 1;
                let locked = if s1 >= STALE_LOCK_THRESHOLD && o.committed.len() > o.stable_prefix {
                    o.committed.len()
                } else {
                    o.stable_prefix
                };
                if text_changed {
                    r is None && final(self)@ == PartialState {
                        stale: 0,
                        comma_injected: false,
                        ..o
                    }
                } else if s1 >= STALE_COMMA_THRESHOLD && !o.comma_injected && o.committed.len() > 0
                    && !is_pause_punct(o.committed.last()) {
                    &&& plan_of(r) == Some(
                        CommitPlan::UpdateDraft { new_text: seq!['，'], delete_chars: 0 },
                    )
                    &&& (r matches Some(a) ==> screen_after(o.committed, a@) == o.committed.push(
                        '，',
                    ))
                    &&& final(self)@ == PartialState {
                        latest: o.latest,
                        committed: o.committed.push('，'),
                        stable_prefix: o.committed.len() + 1,
                        stale: s1,
                        comma_injected: true,
                    }
                } else {
                    r is None && final(self)@ == PartialState {
                        stable_prefix: locked,
                        stale: s1,
                        ..o
                    }
                }
            }),
            final(self)@ == partial_step(old(self)@, PartialEvent::Tick(text_changed)),
            r is Some <==> !text_changed && tick_fires_comma(old(self)@),
    {
        if text_changed {
            self.stale_count = 0;
            self.pause_comma_injected = false;
            return None;
        }
        self.stale_count = self.stale_count + 1;
        let n = self.committed_text.unicode_len();
        if self.stale_count >= STALE_LOCK_THRESHOLD {
            if n > self.stable_prefix_chars {
                self.stable_prefix_chars = n;
            }
        }
        if self.stale_count >= STALE_COMMA_THRESHOLD && !self.pause_comma_injected && n > 0 {
            let last = self.committed_text.as_str().get_char(n - 1);
            let already = last == '，' || last == '。' || last == '！' || last == '？' || last == '；'
                || last == '、';
            if !already {
                self.pause_comma_injected = true;
                push_char(&mut self.committed_text, '，');
                self.stable_prefix_chars = self.committed_text.unicode_len();
                assert(old(self).committed_text@.take(old(self).committed_text@.len() as int)
                    =~= old(self).committed_text@);
                let mut comma = String::new();
                push_char(&mut comma, '，');
                assert(comma@ =~= seq!['，']);
                return Some(CommitAction::UpdateDraft { new_text: comma, delete_chars: 0 });
            }
        }
        None
    }

    /// Builds the draft update that turns the typed draft into the new
    /// partial text.
    pub fn prepare_draft_commit(&mut self, text: &str) -> (r: Option<CommitAction>)
        ensures
            ({
                let o = old(self)@;
                let n = normalize_partial(text@);
                if n.len() == 0 {
                    r is None && final(self)@ == o
                } else {
                    &&& final(self)@ == PartialState { committed: n, ..o }
                    &&& (r matches Some(a) ==> screen_after(o.committed, a@) == n
                        && deleted_by(a@) <= o.committed.len())
                    &&& if n == o.committed {
                        r is None
                    } else {
                        plan_of(r) == Some(
                            CommitPlan::UpdateDraft {
                                new_text: draft_suffix(o.committed, n),
                                delete_chars: draft_delete(o.committed, n),
                            },
                        )
                    }
                }
            }),
            final(self)@ == partial_step(old(self)@, PartialEvent::DraftCommit(text@)),
    {
        let normalized = newlines_to_spaces_trimmed(text);
        if normalized.unicode_len() == 0 {
            return None;
        }
        let (delete_chars, new_suffix) = incremental_edit(
            self.committed_text.as_str(),
            normalized.as_str(),
        );
        proof {
            lemma_common_prefix_len(self.committed_text@, normalized@);
            if delete_chars == 0 && new_suffix@.len() == 0 {
                assert(self.committed_text@ =~= normalized@);
            }
            if self.committed_text@ == normalized@ {
                lemma_common_prefix_self(normalized@);
            }
        }
        assert(screen_after(
            self.committed_text@,
            CommitPlan::UpdateDraft { new_text: new_suffix@, delete_chars: delete_chars as nat },
        ) == normalized@);
        self.committed_text = normalized;
        if delete_chars == 0 && new_suffix.unicode_len() == 0 {
            return None;
        }
        Some(CommitAction::UpdateDraft { new_text: new_suffix, delete_chars })
    }

    /// Builds the action that removes the draft (at the end of a recording).
    pub fn prepare_draft_clear(&mut self) -> (r: Option<CommitAction>)
        ensures
            ({
                let o = old(self)@;
                if o.committed.len() == 0 {
                    r is None && final(self)@ == o
                } else {
                    &&& plan_of(r) == Some(
                        CommitPlan::ClearDraft { delete_chars: o.committed.len() },
                    )
                    &&& (r matches Some(a) ==> screen_after(o.committed, a@) == Seq::<char>::empty())
                    &&& final(self)@ == PartialState { committed: Seq::empty(), ..o }
                }
            }),
            final(self)@ == partial_step(old(self)@, PartialEvent::DraftClear),
    {
        let n = self.committed_text.unicode_len();
        if n == 0 {
            return None;
        }
        assert(self.committed_text@.take(0) =~= Seq::<char>::empty());
        self.committed_text = String::new();
        Some(CommitAction::ClearDraft { delete_chars: n })
    }

    /// Turns the draft into the final text, replacing only the differing
    /// tail; `None` when there is no draft.
    pub fn prepare_final_from_draft(&mut self, final_text: &str) -> (r: Option<CommitAction>)
        ensures
            ({
                let o = old(self)@;
                let n = normalize_partial(final_text@);
                if o.committed.len() == 0 {
                    r is None && final(self)@ == o
                } else if n.len() == 0 {
                    &&& plan_of(r) == Some(
                        CommitPlan::ClearDraft { delete_chars: o.committed.len() },
                    )
                    &&& (r matches Some(a) ==> screen_after(o.committed, a@) == Seq::<char>::empty())
                    &&& final(self)@ == PartialState { committed: Seq::empty(), ..o }
                } else {
                    &&& plan_of(r) == Some(
                        CommitPlan::CommitFinalFromDraft {
                            new_text: draft_suffix(o.committed, n),
                            delete_chars: draft_delete(o.committed, n),
                        },
                    )
                    &&& (r matches Some(a) ==> screen_after(o.committed, a@) == n
                        && deleted_by(a@) <= o.committed.len())
                    &&& final(self)@ == PartialState { committed: Seq::empty(), ..o }
                }
            }),
            final(self)@ == partial_step(old(self)@, PartialEvent::FinalFromDraft(final_text@)),
    {
        if self.committed_text.unicode_len() == 0 {
            return None;
        }
        let normalized = newlines_to_spaces_trimmed(final_text);
        if normalized.unicode_len() == 0 {
            return self.prepare_draft_clear();
        }
        let (delete_chars, new_suffix) = incremental_edit(
            self.committed_text.as_str(),
            normalized.as_str(),
        );
        proof {
            lemma_common_prefix_len(self.committed_text@, normalized@);
        }
        self.committed_text = String::new();
        Some(CommitAction::CommitFinalFromDraft { new_text: new_suffix, delete_chars })
    }
}

/// A string's common prefix with itself is the whole string.
proof fn lemma_common_prefix_self(s: Seq<char>)
    ensures
        common_prefix_len(s, s) == s.len(),
{
    lemma_common_prefix_len(s, s);
}

/// Remembers the latest final text so that it is not committed twice.
#[derive(Debug)]
pub struct FinalResultManager {
    latest_final_text: String,
}

impl View for FinalResultManager {
    type V = Seq<char>;

    closed spec fn view(&self) -> Seq<char> {
        self.latest_final_text@
    }
}

impl Default for FinalResultManager {
    fn default() -> (r: Self)
        ensures
            r@ == Seq::<char>::empty(),
    {
        FinalResultManager { latest_final_text: String::new() }
    }
}

impl FinalResultManager {
    /// Forgets the latest final text.
    pub fn clear(&mut self)
        ensures
            final(self)@ == Seq::<char>::empty(),
    {
        self.latest_final_text = String::new();
    }

    /// Builds the final commit for `text` unless its trimmed form is empty
    /// or equal to the latest final text.
    pub fn prepare_commit(&mut self, text: &str) -> (r: Option<CommitAction>)
        ensures
            ({
                let n = trim(text@);
                if n.len() == 0 || n == old(self)@ {
                    r is None && final(self)@ == old(self)@
                } else {
                    plan_of(r) == Some(CommitPlan::CommitFinal { text: n }) && final(self)@ == n
                }
            }),
    {
        let normalized = trim_str(text);
        if normalized.unicode_len() == 0 || str_eq(
            normalized.as_str(),
            self.latest_final_text.as_str(),
        ) {
            return None;
        }
        self.latest_final_text = copy_str(normalized.as_str());
        Some(CommitAction::CommitFinal { text: normalized })
    }
}

/// The state of one recording session.
#[derive(Debug)]
pub struct RecognitionSession {
    partials: PartialResultManager,
    finals: FinalResultManager,
}

impl Default for RecognitionSession {
    fn default() -> (r: Self)
        ensures
            r.partials_view() == empty_partial_state(),
            r.finals_view() == Seq::<char>::empty(),
    {
        RecognitionSession {
            partials: PartialResultManager::default(),
            finals: FinalResultManager::default(),
        }
    }
}

impl RecognitionSession {
    /// The state of the partial-result manager.
    pub closed spec fn partials_view(&self) -> PartialState {
        self.partials@
    }

    /// The latest final text.
    pub closed spec fn finals_view(&self) -> Seq<char> {
        self.finals@
    }

    /// A fresh session.
    pub fn new() -> (r: Self)
        ensures
            r.partials_view() == empty_partial_state(),
            r.finals_view() == Seq::<char>::empty(),
    {
        Self::default()
    }

    /// Unchanged polls since the last change (the count behind the pause
    /// comma).
    pub fn stale_polls(&self) -> (r: usize)
        ensures
            r == self.partials_view().stale,
    {
        self.partials.stale_count
    }

    /// Forgets everything.
    pub fn reset(&mut self)
        ensures
            final(self).partials_view() == empty_partial_state(),
            final(self).finals_view() == Seq::<char>::empty(),
            final(self).partials_view() == partial_step(old(self).partials_view(), PartialEvent::Clear),
    {
        self.partials.clear();
        self.finals.clear();
    }

    /// Forgets the partial state and the draft.
    pub fn clear_partials(&mut self)
        ensures
            final(self).partials_view() == empty_partial_state(),
            final(self).finals_view() == old(self).finals_view(),
            final(self).partials_view() == partial_step(old(self).partials_view(), PartialEvent::Clear),
    {
        self.partials.clear();
    }

    /// See [`PartialResultManager::update`].
    pub fn update_partial(&mut self, text: &str) -> (r: Option<PartialUpdate>)
        ensures
            ({
                let n = normalize_partial(text@);
                let o = old(self).partials_view();
                if n.len() == 0 || n == o.latest {
                    r is None && final(self).partials_view() == o
                } else {
                    &&& r matches Some(u) && u.text@ == n && u.status_text@ == partial_status(n)
                    &&& final(self).partials_view() == PartialState { latest: n, ..o }
                }
            }),
            final(self).finals_view() == old(self).finals_view(),
            final(self).partials_view() == partial_step(old(self).partials_view(), PartialEvent::Update(text@)),
    {
        self.partials.update(text)
    }

    /// See [`PartialResultManager::prepare_draft_commit`].
    pub fn prepare_draft_commit(&mut self, text: &str) -> (r: Option<CommitAction>)
        ensures
            ({
                let o = old(self).partials_view();
                let n = normalize_partial(text@);
                if n.len() == 0 {
                    r is None && final(self).partials_view() == o
                } else {
                    &&& final(self).partials_view() == PartialState { committed: n, ..o }
                    &&& (r matches Some(a) ==> screen_after(o.committed, a@) == n)
                    &&& if n == o.committed {
                        r is None
                    } else {
                        plan_of(r) == Some(
                            CommitPlan::UpdateDraft {
                                new_text: draft_suffix(o.committed, n),
                                delete_chars: draft_delete(o.committed, n),
                            },
                        )
                    }
                }
            }),
            final(self).finals_view() == old(self).finals_view(),
            final(self).partials_view() == partial_step(old(self).partials_view(), PartialEvent::DraftCommit(text@)),
    {
        self.partials.prepare_draft_commit(text)
    }

    /// See [`PartialResultManager::tick_stability`].
    pub fn tick_stability(&mut self, text_changed: bool) -> (r: Option<CommitAction>)
        requires
            text_changed || old(self).partials_view().stale < usize::MAX,
        ensures
            ({
                let o = old(self).partials_view();
                let s1 = o.stale + 1;
                let locked = if s1 >= STALE_LOCK_THRESHOLD && o.committed.len() > o.stable_prefix {
                    o.committed.len()
                } else {
                    o.stable_prefix
                };
                if text_changed {
                    r is None && final(self).partials_view() == PartialState {
                        stale: 0,
                        comma_injected: false,
                        ..o
                    }
                } else if s1 >= STALE_COMMA_THRESHOLD && !o.comma_injected && o.committed.len() > 0
                    && !is_pause_punct(o.committed.last()) {
                    &&& plan_of(r) == Some(
                        CommitPlan::UpdateDraft { new_text: seq!['，'], delete_chars: 0 },
                    )
                    &&& final(self).partials_view() == PartialState {
                        latest: o.latest,
                        committed: o.committed.push('，'),
                        stable_prefix: o.committed.len() + 1,
                        stale: s1,
                        comma_injected: true,
                    }
                } else {
                    r is None && final(self).partials_view() == PartialState {
                        stable_prefix: locked,
                        stale: s1,
                        ..o
                    }
                }
            }),
            final(self).finals_view() == old(self).finals_view(),
            final(self).partials_view() == partial_step(old(self).partials_view(), PartialEvent::Tick(text_changed)),
            r is Some <==> !text_changed && tick_fires_comma(old(self).partials_view()),
    {
        self.partials.tick_stability(text_changed)
    }

    /// See [`PartialResultManager::prepare_draft_clear`].
    pub fn prepare_draft_clear(&mut self) -> (r: Option<CommitAction>)
        ensures
            ({
                let o = old(self).partials_view();
                if o.committed.len() == 0 {
                    r is None && final(self).partials_view() == o
                } else {
                    &&& plan_of(r) == Some(
                        CommitPlan::ClearDraft { delete_chars: o.committed.len() },
                    )
                    &&& final(self).partials_view() == PartialState {
                        committed: Seq::empty(),
                        ..o
                    }
                }
            }),
            final(self).finals_view() == old(self).finals_view(),
            final(self).partials_view() == partial_step(old(self).partials_view(), PartialEvent::DraftClear),
    {
        self.partials.prepare_draft_clear()
    }

    /// The final commit for `text`: a smooth transition from the draft when
    /// one is on screen, otherwise a plain final commit (deduplicated).
    pub fn prepare_final_commit(&mut self, text: &str) -> (r: Option<CommitAction>)
        ensures
            ({
                let o = old(self).partials_view();
                let n = normalize_partial(text@);
                let t = trim(text@);
                if o.committed.len() > 0 {
                    &&& final(self).partials_view() == PartialState {
                        committed: Seq::empty(),
                        ..o
                    }
                    &&& final(self).finals_view() == old(self).finals_view()
                    &&& if n.len() == 0 {
                        plan_of(r) == Some(
                            CommitPlan::ClearDraft { delete_chars: o.committed.len() },
                        )
                    } else {
                        &&& plan_of(r) == Some(
                            CommitPlan::CommitFinalFromDraft {
                                new_text: draft_suffix(o.committed, n),
                                delete_chars: draft_delete(o.committed, n),
                            },
                        )
                        &&& (r matches Some(a) ==> screen_after(o.committed, a@) == n)
                    }
                } else {
                    &&& final(self).partials_view() == o
                    &&& if t.len() == 0 || t == old(self).finals_view() {
                        r is None && final(self).finals_view() == old(self).finals_view()
                    } else {
                        plan_of(r) == Some(CommitPlan::CommitFinal { text: t })
                            && final(self).finals_view() == t
                    }
                }
            }),
            final(self).partials_view() == partial_step(old(self).partials_view(), PartialEvent::FinalFromDraft(text@)),
    {
        if let Some(action) = self.partials.prepare_final_from_draft(text) {
            return Some(action);
        }
        self.finals.prepare_commit(text)
    }
}

/// Applying the incremental edit to the old draft yields the new text, and
/// no edit keeping a longer prefix of the old draft does: the edit deletes
/// as few characters as possible.
pub proof fn law_incremental_edit_is_minimal(before: Seq<char>, after: Seq<char>)
    ensures
        screen_after(
            before,
            CommitPlan::UpdateDraft {
                new_text: draft_suffix(before, after),
                delete_chars: draft_delete(before, after),
            },
        ) == after,
        draft_delete(before, after) <= before.len(),
        forall|k: int|
            0 <= k <= before.len() && k <= after.len() && before.take(k) == after.take(k) ==> before.len() - k
                >= draft_delete(before, after),
{
    lemma_common_prefix_len(before, after);
    let c = common_prefix_len(before, after);
    assert(before.take(before.len() - (before.len() - c)) + after.skip(c) =~= after);
    assert forall|k: int|
        0 <= k <= before.len() && k <= after.len() && before.take(k) == after.take(k) implies before.len() - k
            >= draft_delete(before, after) by {
        if k > c {
            assert(before.take(k)[c] == after.take(k)[c]);
        }
    }
}

/// Identical texts need no edit.
pub proof fn law_identical_text_needs_no_edit(s: Seq<char>)
    ensures
        draft_delete(s, s) == 0,
        draft_suffix(s, s).len() == 0,
{
    lemma_common_prefix_self(s);
}

} // verus!
