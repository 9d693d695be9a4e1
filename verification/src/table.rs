//! The rule table: an ordered list of predicate/rule pairs that resolves a
//! discriminator to the first rule whose predicate matches it.
//!
//! A discriminator is either an explicit category tag or a value bracket
//! derived from the monetary value itself; both keying styles go through the
//! same table.

use crate::error::EngineError;
use crate::rules::CalculationRule;
use vstd::prelude::*;

verus! {

/// What selects a calculation rule for an input: an explicit category tag,
/// or the input's own monetary value (in cents) when rules are keyed by
/// value bracket.
#[derive(Clone, Copy, PartialEq, Eq, Structural, Debug)]
pub enum Discriminator {
    Category(u64),
    Value(i64),
}

/// The condition an entry of the table puts on a discriminator.
#[derive(Clone, Copy, PartialEq, Eq, Structural, Debug)]
pub enum RulePredicate {
    /// Matches the category with exactly this tag.
    CategoryIs(u64),
    /// Matches a value discriminator at most this many cents (inclusive).
    ValueAtMost(i64),
    /// Matches every discriminator; a trailing entry with this predicate
    /// makes a table's lookup total.
    Any,
}

/// One predicate/rule pair of a rule table.
#[derive(Clone, Copy, PartialEq, Eq, Structural, Debug)]
pub struct RuleEntry {
    pub predicate: RulePredicate,
    pub rule: CalculationRule,
}

/// Whether `predicate` matches `discriminator`; predicates over one
/// discriminator kind never match the other kind.
pub open spec fn predicate_matches(predicate: RulePredicate, discriminator: Discriminator) -> bool {
    match (predicate, discriminator) {
        (RulePredicate::CategoryIs(tag), Discriminator::Category(category)) => tag == category,
        (RulePredicate::ValueAtMost(bound), Discriminator::Value(value)) => value <= bound,
        (RulePredicate::Any, _) => true,
        _ => false,
    }
}

/// The rule of the first entry whose predicate matches `discriminator`, if
/// any entry does.
pub open spec fn first_match(entries: Seq<RuleEntry>, discriminator: Discriminator) -> Option<
    CalculationRule,
>
    decreases entries.len(),
{
    if entries.len() == 0 {
        None
    } else if predicate_matches(entries[0].predicate, discriminator) {
        Some(entries[0].rule)
    } else {
        first_match(entries.drop_first(), discriminator)
    }
}

/// If none of the first `skipped` entries matches, the first match over the
/// whole list is the first match over the rest of it.
proof fn lemma_first_match_skip(
    entries: Seq<RuleEntry>,
    discriminator: Discriminator,
    skipped: int,
)
    requires
        0 <= skipped <= entries.len(),
        forall|k: int|
            0 <= k < skipped ==> !predicate_matches(#[trigger] entries[k].predicate, discriminator),
    ensures
        first_match(entries, discriminator) == first_match(entries.skip(skipped), discriminator),
    decreases skipped,
{
    if skipped > 0 {
        assert(entries.drop_first() =~= entries.skip(1));
        lemma_first_match_skip(entries.drop_first(), discriminator, skipped - 1);
        assert(entries.drop_first().skip(skipped - 1) =~= entries.skip(skipped));
    } else {
        assert(entries.skip(0) =~= entries);
    }
}

/// A rule that a list of well-formed entries resolves to is well-formed.
pub proof fn lemma_first_match_wf(entries: Seq<RuleEntry>, discriminator: Discriminator)
    requires
        forall|i: int| 0 <= i < entries.len() ==> (#[trigger] entries[i]).rule.wf(),
    ensures
        match first_match(entries, discriminator) {
            Some(rule) => rule.wf(),
            None => true,
        },
    decreases entries.len(),
{
    if entries.len() > 0 && !predicate_matches(entries[0].predicate, discriminator) {
        assert(forall|i: int|
            0 <= i < entries.drop_first().len() ==> (#[trigger] entries.drop_first()[i]).rule.wf());
        lemma_first_match_wf(entries.drop_first(), discriminator);
    }
}

/// An ordered collection of predicate/rule pairs. Resolution walks the
/// entries in order and hands back the first rule whose predicate matches.
pub struct RuleTable {
    entries: Vec<RuleEntry>,
}

impl RuleTable {
    /// The entries of the table, in resolution order.
    pub closed spec fn spec_entries(self) -> Seq<RuleEntry> {
        self.entries@
    }

    /// A well-formed table holds only well-formed rules.
    pub open spec fn wf(self) -> bool {
        forall|i: int|
            0 <= i < self.spec_entries().len() ==> (#[trigger] self.spec_entries()[i]).rule.wf()
    }

    /// Builds a table from its entries; resolution order is the order of the
    /// vector.
    pub fn new(entries: Vec<RuleEntry>) -> (table: RuleTable)
        ensures
            table.spec_entries() == entries@,
    {
        RuleTable { entries }
    }

    /// The number of entries.
    pub fn len(&self) -> (n: usize)
        ensures
            n == self.spec_entries().len(),
    {
        self.entries.len()
    }

    /// Resolves a discriminator to the first matching rule, or reports
    /// `UnresolvedDiscriminator` exactly when no entry matches.
    pub fn resolve(&self, discriminator: Discriminator) -> (resolved: Result<
        CalculationRule,
        EngineError,
    >)
        ensures
            match first_match(self.spec_entries(), discriminator) {
                Some(rule) => resolved == Ok::<CalculationRule, EngineError>(rule),
                None => resolved == Err::<CalculationRule, EngineError>(
                    EngineError::UnresolvedDiscriminator,
                ),
            },
    {
        let ghost entries = self.spec_entries();
        let mut i: usize = 0;
        while i < self.entries.len()
            invariant
                0 <= i <= entries.len(),
                entries == self.spec_entries(),
                forall|k: int|
                    0 <= k < i ==> !predicate_matches(
                        (#[trigger] entries[k]).predicate,
                        discriminator,
                    ),
            decreases entries.len() - i,
        {
            let entry = self.entries[i];
            if Self::predicate_holds(entry.predicate, discriminator) {
                proof {
                    lemma_first_match_skip(entries, discriminator, i as int);
                    assert(entries.skip(i as int)[0] == entries[i as int]);
                }
                return Ok(entry.rule);
            }
            i = i + 1;
        }
        proof {
            lemma_first_match_skip(entries, discriminator, entries.len() as int);
        }
        Err(EngineError::UnresolvedDiscriminator)
    }

    /// Decides `predicate_matches` on concrete values.
    fn predicate_holds(predicate: RulePredicate, discriminator: Discriminator) -> (holds: bool)
        ensures
            holds == predicate_matches(predicate, discriminator),
    {
        match (predicate, discriminator) {
            (RulePredicate::CategoryIs(tag), Discriminator::Category(category)) => tag == category,
            (RulePredicate::ValueAtMost(bound), Discriminator::Value(value)) => value <= bound,
            (RulePredicate::Any, _) => true,
            _ => false,
        }
    }
}

} // verus!
