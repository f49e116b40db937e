use vstd::prelude::*;

verus! {

use crate::errors::MoveError;
use crate::pattern::{pattern_valid, pattern_matches, pattern_expansion, pattern_compiles,
    pattern_is_match, pattern_rewrite};

/// The mathematical image of a transform rule: pass everything through,
/// keep only keys the pattern matches, or keep matching keys and rewrite
/// them through the template.
pub enum RuleView {
    PassThrough,
    Filter { pattern: Seq<char> },
    Rename { pattern: Seq<char>, template: Seq<char> },
}

/// The key-rewriting rule of a run, parsed once from configuration. A
/// template without a pattern has nothing to rewrite against and collapses
/// to pass-through.
pub struct TransformRule {
    pattern: Option<String>,
    template: Option<String>,
}

impl View for TransformRule {
    type V = RuleView;

    closed spec fn view(&self) -> RuleView {
        match (self.pattern, self.template) {
            (None, _) => RuleView::PassThrough,
            (Some(p), None) => RuleView::Filter { pattern: p@ },
            (Some(p), Some(t)) => RuleView::Rename { pattern: p@, template: t@ },
        }
    }
}

impl TransformRule {
    #[verifier::type_invariant]
    spec fn wf(self) -> bool {
        self.pattern matches Some(p) ==> pattern_valid(p@)
    }
}

/// The rule that a pair of optional configuration strings denotes.
pub open spec fn spec_rule(pattern: Option<Seq<char>>, template: Option<Seq<char>>) -> RuleView {
    match (pattern, template) {
        (None, _) => RuleView::PassThrough,
        (Some(p), None) => RuleView::Filter { pattern: p },
        (Some(p), Some(t)) => RuleView::Rename { pattern: p, template: t },
    }
}

pub open spec fn opt_view(o: Option<String>) -> Option<Seq<char>> {
    match o {
        Some(s) => Some(s@),
        None => None,
    }
}

impl TransformRule {
    /// Builds the rule from the optional filter pattern and rename
    /// template. Fails with `InvalidPattern` exactly when a pattern was
    /// supplied and is not a valid regular expression.
    pub fn new(pattern: Option<String>, template: Option<String>) -> (r: Result<TransformRule, MoveError>)
        ensures
            match r {
                Ok(rule) => rule@ == spec_rule(opt_view(pattern), opt_view(template))
                    && (opt_view(pattern) matches Some(p) ==> pattern_valid(p)),
                Err(e) => e == MoveError::InvalidPattern
                    && (opt_view(pattern) matches Some(p) && !pattern_valid(p)),
            },
    {
        match &pattern {
            Some(p) => {
                if !pattern_compiles(p.as_str()) {
                    return Err(MoveError::InvalidPattern);
                }
            },
            None => {},
        }
        let template = match pattern {
            Some(_) => template,
            None => None,
        };
        Ok(TransformRule { pattern, template })
    }
}

/// The key of `key` relative to a listed prefix of length `plen`: the raw
/// slice with the first `plen` characters removed. Meaningful only when
/// the key is at least that long.
pub open spec fn spec_relative(key: Seq<char>, plen: nat) -> Seq<char> {
    key.subrange(plen as int, key.len() as int)
}

/// What the rule makes of one relative key and its size: `None` when the
/// entry is dropped, the surviving (key, size) pair otherwise. The size
/// passes through unchanged in every branch; only the key may change.
pub open spec fn spec_transform(rel: Seq<char>, size: i64, rule: RuleView) -> Option<(Seq<char>, i64)> {
    match rule {
        RuleView::PassThrough => Some((rel, size)),
        RuleView::Filter { pattern } => if pattern_matches(pattern, rel) {
            Some((rel, size))
        } else {
            None
        },
        RuleView::Rename { pattern, template } => if pattern_matches(pattern, rel) {
            Some((pattern_expansion(pattern, rel, template), size))
        } else {
            None
        },
    }
}

/// Law: the rule never changes an entry's size. A surviving record carries
/// the size it came in with, whatever the rule and the key; only the key
/// may change.
pub proof fn lemma_size_passes_through(rel: Seq<char>, size: i64, rule: RuleView)
    ensures
        spec_transform(rel, size, rule) matches Some(r) ==> r.1 == size,
{
}

/// One surviving output record: the transformed key and the unchanged size.
pub struct OutRecord {
    pub key: String,
    pub size: i64,
}

impl View for OutRecord {
    type V = (Seq<char>, i64);

    open spec fn view(&self) -> (Seq<char>, i64) {
        (self.key@, self.size)
    }
}

/// Applies the rule to one listed object: strips the prefix length off the
/// full key, then filters and possibly rewrites. Returns the surviving
/// record, or `None` when the rule drops the entry.
pub fn transform_entry(key: &str, size: i64, prefix_len: usize, rule: &TransformRule) -> (r: Option<OutRecord>)
    requires
        prefix_len <= key@.len(),
    ensures
        match r {
            Some(rec) => spec_transform(spec_relative(key@, prefix_len as nat), size, rule@)
                == Some(rec@),
            None => spec_transform(spec_relative(key@, prefix_len as nat), size, rule@) is None,
        },
{
    proof {
        use_type_invariant(&*rule);
    }
    let n = key.unicode_len();
    let rel = key.substring_char(prefix_len, n);
    match (&rule.pattern, &rule.template) {
        (None, _) => Some(OutRecord { key: String::from_str(rel), size }),
        (Some(p), None) => {
            if pattern_is_match(p.as_str(), rel) {
                Some(OutRecord { key: String::from_str(rel), size })
            } else {
                None
            }
        },
        (Some(p), Some(t)) => {
            match pattern_rewrite(p.as_str(), rel, t.as_str()) {
                Some(new_key) => Some(OutRecord { key: new_key, size }),
                None => None,
            }
        },
    }
}

} // verus!
