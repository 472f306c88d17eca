//! Derivation trails: every answer carries the record it came from and the
//! ordered rules that produced it.

use vstd::prelude::*;
use vstd::string::*;
use crate::text::{dec_nat, push_dec_u64};

verus! {

/// Where a derived value came from.
#[derive(Clone, Debug, PartialEq, Eq)]
pub struct Provenance {
    /// Logical dataset name, e.g. `mcc_catalog`.
    pub dataset: String,
    /// File the record was read from.
    pub source_file: String,
    /// Agency publication the data is taken from.
    pub source_citation: String,
    /// Effective date of the dataset.
    pub effective_date: String,
    /// Identifier of the record inside the dataset.
    pub record_id: String,
    /// Version (year) the caller asked for.
    pub requested_version: u16,
    /// Version (year) that was actually used.
    pub resolved_version: u16,
}

/// `p` names the given dataset, file, citation, effective date, record and
/// versions.
pub open spec fn prov_is(
    p: Provenance,
    dataset: Seq<char>,
    file: Seq<char>,
    citation: Seq<char>,
    effective: Seq<char>,
    record: Seq<char>,
    req: u16,
    res: u16,
) -> bool {
    &&& p.dataset@ == dataset
    &&& p.source_file@ == file
    &&& p.source_citation@ == citation
    &&& p.effective_date@ == effective
    &&& p.record_id@ == record
    &&& p.requested_version == req
    &&& p.resolved_version == res
}

impl Provenance {
    /// True when an older version stood in for the requested one.
    pub fn is_fallback(&self) -> (b: bool)
        ensures
            b == (self.requested_version != self.resolved_version),
    {
        self.requested_version != self.resolved_version
    }
}

/// One rule applied while deriving a value.
#[derive(Clone, Debug, PartialEq, Eq)]
pub struct RuleStep {
    /// Name of the rule, e.g. `income_limit`.
    pub rule: String,
    /// The facts the rule looked at.
    pub inputs: String,
    /// What the rule concluded.
    pub outcome: String,
}

impl RuleStep {
    /// The three texts of the step.
    pub open spec fn texts(self) -> (Seq<char>, Seq<char>, Seq<char>) {
        (self.rule@, self.inputs@, self.outcome@)
    }
}

/// The rule names of a trail, in order.
pub open spec fn rule_names(steps: Seq<RuleStep>) -> Seq<Seq<char>> {
    steps.map_values(|s: RuleStep| s.rule@)
}

/// The texts (rule, inputs, outcome) of each step of a trail, in order.
pub open spec fn step_texts(steps: Seq<RuleStep>) -> Seq<(Seq<char>, Seq<char>, Seq<char>)> {
    steps.map_values(|s: RuleStep| s.texts())
}

/// A value together with its provenance and derivation trail.
#[derive(Clone, Debug)]
pub struct Derived<T> {
    pub value: T,
    pub provenance: Provenance,
    pub steps: Vec<RuleStep>,
}

/// A step built from its three texts.
pub fn make_step(rule: &str, inputs: String, outcome: String) -> (s: RuleStep)
    ensures
        s.rule@ == rule@,
        s.inputs@ == inputs@,
        s.outcome@ == outcome@,
{
    RuleStep { rule: rule.to_owned(), inputs, outcome }
}

/// One line of the rendered trail: `N. rule: inputs -> outcome`.
pub open spec fn step_line(n: nat, s: RuleStep) -> Seq<char> {
    dec_nat(n) + ". "@ + s.rule@ + ": "@ + s.inputs@ + " -> "@ + s.outcome@ + "\n"@
}

/// The rendered lines of `steps`, numbered from 1.
pub open spec fn steps_text(steps: Seq<RuleStep>) -> Seq<char>
    decreases steps.len(),
{
    if steps.len() == 0 {
        Seq::empty()
    } else {
        steps_text(steps.drop_last()) + step_line(steps.len(), steps.last())
    }
}

/// The header of a rendered trail: the source, a fallback notice when an
/// older version stood in, and the heading of the derivation.
pub open spec fn header_text(p: Provenance) -> Seq<char> {
    "Source: "@ + p.dataset@ + " record "@ + p.record_id@ + " from "@ + p.source_file@ + " (effective "@
        + p.effective_date@ + "; "@ + p.source_citation@ + ")\n"@ + if p.requested_version
        != p.resolved_version {
        "FALLBACK: requested version "@ + dec_nat(p.requested_version as nat)
            + ", resolved version "@ + dec_nat(p.resolved_version as nat) + "\n"@
    } else {
        Seq::empty()
    } + "Derivation:\n"@
}

impl<T> Derived<T> {
    /// A value with its provenance and an empty trail.
    pub fn new(value: T, provenance: Provenance) -> (d: Derived<T>)
        ensures
            d.value == value,
            d.provenance == provenance,
            d.steps@.len() == 0,
    {
        Derived { value, provenance, steps: Vec::new() }
    }

    /// Appends a step to the trail.
    pub fn push_step(&mut self, rule: &str, inputs: String, outcome: String)
        ensures
            final(self).value == old(self).value,
            final(self).provenance == old(self).provenance,
            final(self).steps@.len() == old(self).steps@.len() + 1,
            final(self).steps@.drop_last() == old(self).steps@,
            final(self).steps@.last().rule@ == rule@,
            final(self).steps@.last().inputs@ == inputs@,
            final(self).steps@.last().outcome@ == outcome@,
            rule_names(final(self).steps@) == rule_names(old(self).steps@).push(rule@),
            step_texts(final(self).steps@) == step_texts(old(self).steps@).push((rule@, inputs@, outcome@)),
    {
        let s = make_step(rule, inputs, outcome);
        self.steps.push(s);
        assert(self.steps@.drop_last() =~= old(self).steps@);
        assert(rule_names(self.steps@) =~= rule_names(old(self).steps@).push(rule@));
        assert(step_texts(self.steps@) =~= step_texts(old(self).steps@).push((rule@, inputs@, outcome@)));
    }

    /// The same derivation with one more step.
    pub fn with_step(self, rule: &str, inputs: String, outcome: String) -> (d: Derived<T>)
        ensures
            d.value == self.value,
            d.provenance == self.provenance,
            d.steps@.len() == self.steps@.len() + 1,
            d.steps@.drop_last() == self.steps@,
            d.steps@.last().rule@ == rule@,
            d.steps@.last().inputs@ == inputs@,
            d.steps@.last().outcome@ == outcome@,
            rule_names(d.steps@) == rule_names(self.steps@).push(rule@),
            step_texts(d.steps@) == step_texts(self.steps@).push((rule@, inputs@, outcome@)),
    {
        let mut d = self;
        d.push_step(rule, inputs, outcome);
        d
    }

    /// The same provenance and trail around a value computed from this one.
    pub fn map<U, F: FnOnce(T) -> U>(self, f: F) -> (d: Derived<U>)
        requires
            call_requires(f, (self.value,)),
        ensures
            call_ensures(f, (self.value,), d.value),
            d.provenance == self.provenance,
            d.steps@ == self.steps@,
    {
        let Derived { value, provenance, steps } = self;
        Derived { value: f(value), provenance, steps }
    }

    /// The human-readable audit trail: a `Source:` line naming the record
    /// (then a `FALLBACK` line when an older version stood in), then
    /// `Derivation:` and one numbered line per step.
    pub fn explain(&self) -> (t: String)
        ensures
            t@ == header_text(self.provenance) + steps_text(self.steps@),
    {
        let p = &self.provenance;
        let mut t = String::new();
        t.append("Source: ");
        t.append(p.dataset.as_str());
        t.append(" record ");
        t.append(p.record_id.as_str());
        t.append(" from ");
        t.append(p.source_file.as_str());
        t.append(" (effective ");
        t.append(p.effective_date.as_str());
        t.append("; ");
        t.append(p.source_citation.as_str());
        t.append(")\n");
        if p.requested_version != p.resolved_version {
            t.append("FALLBACK: requested version ");
            push_dec_u64(&mut t, p.requested_version as u64);
            t.append(", resolved version ");
            push_dec_u64(&mut t, p.resolved_version as u64);
            t.append("\n");
        }
        t.append("Derivation:\n");
        assert(t@ =~= header_text(self.provenance));
        let ghost head = t@;
        let mut i: usize = 0;
        while i < self.steps.len()
            invariant
                0 <= i <= self.steps@.len(),
                t@ == head + steps_text(self.steps@.take(i as int)),
            decreases self.steps@.len() - i,
        {
            let s = &self.steps[i];
            push_dec_u64(&mut t, (i + 1) as u64);
            t.append(". ");
            t.append(s.rule.as_str());
            t.append(": ");
            t.append(s.inputs.as_str());
            t.append(" -> ");
            t.append(s.outcome.as_str());
            t.append("\n");
            assert(self.steps@.take(i + 1).drop_last() =~= self.steps@.take(i as int));
            assert(t@ =~= head + steps_text(self.steps@.take(i + 1)));
            i = i + 1;
        }
        assert(self.steps@.take(i as int) =~= self.steps@);
        t
    }
}

} // verus!
