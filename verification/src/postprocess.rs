//! Homophone correction applied to recognized text.

use vstd::prelude::*;
use crate::config::TextCorrectionConfig;
use crate::text::{
    contains, copy_str, occurs_at, replace_all, starts_with, str_contains, str_eq, str_replace,
    trim, trim_str,
};

verus! {

/// A correction rule: (wrong word, right word).
pub type RulePair = (Seq<char>, Seq<char>);

/// The mathematical content of a list of string pairs.
pub open spec fn pairs_view(v: Seq<(String, String)>) -> Seq<RulePair> {
    v.map_values(|p: (String, String)| (p.0@, p.1@))
}

/// A mapping is kept when both sides are non-blank.
pub open spec fn rule_kept(p: RulePair) -> bool {
    trim(p.0).len() > 0 && trim(p.1).len() > 0
}

/// The kept mappings, both sides trimmed, in their original order.
pub open spec fn kept_rules(m: Seq<RulePair>) -> Seq<RulePair>
    decreases m.len(),
{
    if m.len() == 0 {
        Seq::empty()
    } else {
        let rest = kept_rules(m.drop_last());
        if rule_kept(m.last()) {
            rest.push((trim(m.last().0), trim(m.last().1)))
        } else {
            rest
        }
    }
}

/// Position at which `x` is inserted into `s` (sorted by descending
/// length of the wrong word): after every rule at least as long.
pub open spec fn insert_pos_from(s: Seq<RulePair>, x: RulePair, k: int) -> int
    decreases s.len() - k,
{
    if 0 <= k < s.len() && s[k].0.len() >= x.0.len() {
        insert_pos_from(s, x, k + 1)
    } else {
        k
    }
}

/// `s` with `x` inserted after every rule whose wrong word is at least as long.
pub open spec fn insert_by_len(s: Seq<RulePair>, x: RulePair) -> Seq<RulePair> {
    let p = insert_pos_from(s, x, 0);
    s.take(p).push(x) + s.skip(p)
}

/// Stable sort by descending length (in characters) of the wrong word:
/// what `sort_by` with that key returns.
pub open spec fn sort_by_len_desc(s: Seq<RulePair>) -> Seq<RulePair>
    decreases s.len(),
{
    if s.len() == 0 {
        s
    } else {
        insert_by_len(sort_by_len_desc(s.drop_last()), s.last())
    }
}

/// The rules built from a homophone mapping: kept, trimmed, longest first.
pub open spec fn build_rules(m: Seq<RulePair>) -> Seq<RulePair> {
    sort_by_len_desc(kept_rules(m))
}

/// Applies the rules in order, each replacing every occurrence.
pub open spec fn apply_rules(s: Seq<char>, rules: Seq<RulePair>) -> Seq<char>
    decreases rules.len(),
{
    if rules.len() == 0 {
        s
    } else {
        apply_rules(replace_all(s, rules[0].0, rules[0].1), rules.drop_first())
    }
}

/// What processing `text` yields.
pub open spec fn processed(enabled: bool, rules: Seq<RulePair>, text: Seq<char>) -> Seq<char> {
    if !enabled || text.len() == 0 || rules.len() == 0 {
        text
    } else {
        apply_rules(text, rules)
    }
}

/// Every wrong word is non-empty.
pub open spec fn rules_nonempty(rules: Seq<RulePair>) -> bool {
    forall|i: int| 0 <= i < rules.len() ==> #[trigger] rules[i].0.len() > 0
}

/// Rules are ordered by descending length of the wrong word.
pub open spec fn sorted_by_len_desc(rules: Seq<RulePair>) -> bool {
    forall|i: int, j: int| 0 <= i < j < rules.len() ==> rules[i].0.len() >= rules[j].0.len()
}

/// Post-processor for recognized text.
#[derive(Debug)]
pub struct TextPostProcessor {
    enabled: bool,
    replacement_rules: Vec<(String, String)>,
}

impl TextPostProcessor {
    #[verifier::type_invariant]
    spec fn wf(self) -> bool {
        rules_nonempty(pairs_view(self.replacement_rules@))
    }

    /// Whether correction is enabled.
    pub closed spec fn is_enabled(&self) -> bool {
        self.enabled
    }

    /// The rules, in the order they are applied.
    pub closed spec fn rules(&self) -> Seq<RulePair> {
        pairs_view(self.replacement_rules@)
    }

    /// Builds the processor from the configuration: blank mappings are
    /// dropped, both sides trimmed, and longer wrong words come first (so
    /// that a longer word is not cut by a shorter one).
    pub fn new(config: &TextCorrectionConfig) -> (r: Self)
        ensures
            r.is_enabled() == config.enabled,
            r.rules() == build_rules(pairs_view(config.homophone_map@)),
            sorted_by_len_desc(r.rules()),
    {
        let m = &config.homophone_map;
        let ghost mv = pairs_view(m@);
        let mut rules: Vec<(String, String)> = Vec::new();
        let mut i: usize = 0;
        assert(mv.take(0) =~= Seq::<RulePair>::empty());
        while i < m.len()
            invariant
                i <= m@.len(),
                mv == pairs_view(m@),
                pairs_view(rules@) == sort_by_len_desc(kept_rules(mv.take(i as int))),
                rules_nonempty(pairs_view(rules@)),
            decreases m@.len() - i,
        {
            let from = trim_str(m[i].0.as_str());
            let to = trim_str(m[i].1.as_str());
            proof {
                assert(mv.take(i + 1).drop_last() =~= mv.take(i as int));
                assert(mv.take(i + 1).last() == mv[i as int]);
            }
            if from.unicode_len() != 0 && to.unicode_len() != 0 {
                let ghost before = pairs_view(rules@);
                let ghost x: RulePair = (from@, to@);
                let flen = from.unicode_len();
                let mut k: usize = 0;
                assert(insert_pos_from(before, x, 0) == insert_pos_from(before, x, k as int));
                while k < rules.len() && rules[k].0.unicode_len() >= flen
                    invariant
                        k <= rules@.len(),
                        before == pairs_view(rules@),
                        flen == x.0.len(),
                        insert_pos_from(before, x, 0) == insert_pos_from(before, x, k as int),
                    decreases rules@.len() - k,
                {
                    k = k + 1;
                }
                rules.insert(k, (from, to));
                proof {
                    assert(pairs_view(rules@) =~= insert_by_len(before, x));
                    assert(kept_rules(mv.take(i + 1)) =~= kept_rules(mv.take(i as int)).push(x));
                    assert(kept_rules(mv.take(i + 1)).drop_last() =~= kept_rules(mv.take(i as int)));
                    assert forall|j: int| 0 <= j < pairs_view(rules@).len() implies #[trigger] pairs_view(rules@)[j].0.len() > 0 by {
                        if j < k {
                            assert(pairs_view(rules@)[j] == before[j]);
                        } else if j > k {
                            assert(pairs_view(rules@)[j] == before[j - 1]);
                        }
                    }
                }
            } else {
                proof {
                    assert(kept_rules(mv.take(i + 1)) =~= kept_rules(mv.take(i as int)));
                }
            }
            i = i + 1;
        }
        assert(mv.take(m@.len() as int) =~= mv);
        proof {
            law_rules_longest_first(mv);
        }
        TextPostProcessor { enabled: config.enabled, replacement_rules: rules }
    }

    /// Applies the correction rules in order; returns the text unchanged
    /// when correction is disabled, the text is empty, or there are no rules.
    pub fn process(&self, text: &str) -> (r: String)
        ensures
            r@ == processed(self.is_enabled(), self.rules(), text@),
    {
        proof {
            use_type_invariant(self);
        }
        if !self.enabled || text.unicode_len() == 0 || self.replacement_rules.len() == 0 {
            return copy_str(text);
        }
        let ghost rules = pairs_view(self.replacement_rules@);
        let mut result = copy_str(text);
        let mut i: usize = 0;
        assert(rules.skip(0) =~= rules);
        while i < self.replacement_rules.len()
            invariant
                i <= self.replacement_rules@.len(),
                rules == pairs_view(self.replacement_rules@),
                rules_nonempty(rules),
                apply_rules(text@, rules) == apply_rules(result@, rules.skip(i as int)),
            decreases self.replacement_rules@.len() - i,
        {
            let from = &self.replacement_rules[i].0;
            let to = &self.replacement_rules[i].1;
            assert(rules[i as int].0.len() > 0);
            proof {
                assert(rules.skip(i as int).drop_first() =~= rules.skip(i + 1));
                assert(rules.skip(i as int)[0] == rules[i as int]);
            }
            if !str_eq(from.as_str(), to.as_str()) && str_contains(result.as_str(), from.as_str()) {
                result = str_replace(result.as_str(), from.as_str(), to.as_str());
            } else {
                proof {
                    if from@ == to@ {
                        lemma_replace_same(result@, from@);
                    } else {
                        lemma_replace_absent(result@, from@, to@);
                    }
                }
            }
            i = i + 1;
        }
        assert(rules.skip(rules.len() as int) =~= Seq::<RulePair>::empty());
        result
    }
}

/// Where `insert_pos_from` stops: after the rules at least as long as `x`,
/// before the first shorter one.
proof fn lemma_insert_pos(s: Seq<RulePair>, x: RulePair, k: int)
    requires
        0 <= k <= s.len(),
        forall|i: int| 0 <= i < k ==> #[trigger] s[i].0.len() >= x.0.len(),
    ensures
        k <= insert_pos_from(s, x, k) <= s.len(),
        forall|i: int| 0 <= i < insert_pos_from(s, x, k) ==> #[trigger] s[i].0.len() >= x.0.len(),
        insert_pos_from(s, x, k) < s.len() ==> s[insert_pos_from(s, x, k)].0.len() < x.0.len(),
    decreases s.len() - k,
{
    if k < s.len() && s[k].0.len() >= x.0.len() {
        lemma_insert_pos(s, x, k + 1);
    }
}

/// Inserting by length into a sorted list keeps it sorted.
proof fn lemma_insert_sorted(s: Seq<RulePair>, x: RulePair)
    requires
        sorted_by_len_desc(s),
    ensures
        sorted_by_len_desc(insert_by_len(s, x)),
        insert_by_len(s, x).len() == s.len() + 1,
{
    lemma_insert_pos(s, x, 0);
    let p = insert_pos_from(s, x, 0);
    let r = insert_by_len(s, x);
    assert(r.len() == s.len() + 1);
    assert forall|i: int, j: int| 0 <= i < j < r.len() implies r[i].0.len() >= r[j].0.len() by {
        if j < p {
            assert(r[i] == s[i] && r[j] == s[j]);
        } else if j == p {
            assert(r[j] == x);
            assert(r[i] == s[i]);
        } else if i < p {
            assert(r[i] == s[i] && r[j] == s[j - 1]);
        } else if i == p {
            assert(r[i] == x && r[j] == s[j - 1]);
            assert(s[p].0.len() < x.0.len());
            assert(s[p].0.len() >= s[j - 1].0.len());
        } else {
            assert(r[i] == s[i - 1] && r[j] == s[j - 1]);
        }
    }
}

/// The stable sort by descending length yields a sorted list of the same
/// length.
proof fn lemma_sort_sorted(s: Seq<RulePair>)
    ensures
        sorted_by_len_desc(sort_by_len_desc(s)),
        sort_by_len_desc(s).len() == s.len(),
    decreases s.len(),
{
    if s.len() > 0 {
        lemma_sort_sorted(s.drop_last());
        lemma_insert_sorted(sort_by_len_desc(s.drop_last()), s.last());
    }
}

/// Longer wrong words are applied first, so that a longer word is not cut
/// by a shorter one it contains.
pub proof fn law_rules_longest_first(m: Seq<RulePair>)
    ensures
        sorted_by_len_desc(build_rules(m)),
{
    lemma_sort_sorted(kept_rules(m));
}

/// Replacing a pattern by itself changes nothing.
pub proof fn lemma_replace_same(s: Seq<char>, p: Seq<char>)
    requires
        p.len() > 0,
    ensures
        replace_all(s, p, p) == s,
    decreases s.len(),
{
    if s.len() == 0 {
    } else if starts_with(s, p) {
        lemma_replace_same(s.skip(p.len() as int), p);
        assert(s.take(p.len() as int) + s.skip(p.len() as int) =~= s);
    } else {
        lemma_replace_same(s.drop_first(), p);
        assert(seq![s[0]] + s.drop_first() =~= s);
    }
}

/// Replacing a pattern that does not occur changes nothing.
pub proof fn lemma_replace_absent(s: Seq<char>, p: Seq<char>, t: Seq<char>)
    requires
        p.len() > 0,
        !contains(s, p),
    ensures
        replace_all(s, p, t) == s,
    decreases s.len(),
{
    if s.len() == 0 {
    } else {
        if starts_with(s, p) {
            assert(occurs_at(s, p, 0)) by {
                assert(s.subrange(0, p.len() as int) =~= s.take(p.len() as int));
            }
        }
        assert(!contains(s.drop_first(), p)) by {
            if contains(s.drop_first(), p) {
                let i = choose|i: int| occurs_at(s.drop_first(), p, i);
                assert(s.drop_first().subrange(i, i + p.len()) =~= s.subrange(i + 1, i + 1 + p.len()));
                assert(occurs_at(s, p, i + 1));
            }
        }
        lemma_replace_absent(s.drop_first(), p, t);
        assert(seq![s[0]] + s.drop_first() =~= s);
    }
}

} // verus!
