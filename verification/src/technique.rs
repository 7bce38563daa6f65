//! The six techniques as tagged variants, and the canonical order in which
//! their passes run.

use crate::config::TechniqueConfig;
use vstd::prelude::*;

verus! {

/// One independently switchable transformation category.
///
/// The variants are declared in canonical pass order.
#[derive(Debug, Clone, Copy, PartialEq, Eq, Structural)]
pub enum Technique {
    /// Encode the contents of string literals.
    StringEncryption,
    /// Flatten control flow.
    ControlFlowFlattening,
    /// Add predicates whose outcome is fixed but not obvious.
    OpaquePredicates,
    /// Inject code that is never needed for the result.
    BogusCodeInjection,
    /// Replace well-known identifiers by coded aliases.
    InstructionSubstitution,
    /// Inline and outline functions.
    FunctionManipulation,
}

impl Technique {
    /// Position of the technique in the canonical pass order.
    pub open spec fn rank(self) -> nat {
        match self {
            Technique::StringEncryption => 0,
            Technique::ControlFlowFlattening => 1,
            Technique::OpaquePredicates => 2,
            Technique::BogusCodeInjection => 3,
            Technique::InstructionSubstitution => 4,
            Technique::FunctionManipulation => 5,
        }
    }

    /// The switch of this technique in a technique set.
    pub open spec fn enabled_in(self, techniques: TechniqueConfig) -> bool {
        match self {
            Technique::StringEncryption => techniques.string_encryption,
            Technique::ControlFlowFlattening => techniques.control_flow_flattening,
            Technique::OpaquePredicates => techniques.opaque_predicates,
            Technique::BogusCodeInjection => techniques.bogus_code_injection,
            Technique::InstructionSubstitution => techniques.instruction_substitution,
            Technique::FunctionManipulation => techniques.function_manipulation,
        }
    }

    /// Human-readable name of the technique.
    pub open spec fn label(self) -> Seq<char> {
        match self {
            Technique::StringEncryption => "String encryption"@,
            Technique::ControlFlowFlattening => "Control flow flattening"@,
            Technique::OpaquePredicates => "Opaque predicates"@,
            Technique::BogusCodeInjection => "Bogus code injection"@,
            Technique::InstructionSubstitution => "Instruction substitution"@,
            Technique::FunctionManipulation => "Function manipulation"@,
        }
    }

    /// Tells whether the technique is switched on in `techniques`.
    pub fn is_enabled_in(self, techniques: &TechniqueConfig) -> (r: bool)
        ensures
            r == self.enabled_in(*techniques),
    {
        match self {
            Technique::StringEncryption => techniques.string_encryption,
            Technique::ControlFlowFlattening => techniques.control_flow_flattening,
            Technique::OpaquePredicates => techniques.opaque_predicates,
            Technique::BogusCodeInjection => techniques.bogus_code_injection,
            Technique::InstructionSubstitution => techniques.instruction_substitution,
            Technique::FunctionManipulation => techniques.function_manipulation,
        }
    }

    /// Human-readable name of the technique.
    pub fn name(self) -> (r: &'static str)
        ensures
            r@ == self.label(),
    {
        match self {
            Technique::StringEncryption => "String encryption",
            Technique::ControlFlowFlattening => "Control flow flattening",
            Technique::OpaquePredicates => "Opaque predicates",
            Technique::BogusCodeInjection => "Bogus code injection",
            Technique::InstructionSubstitution => "Instruction substitution",
            Technique::FunctionManipulation => "Function manipulation",
        }
    }
}

/// All techniques in canonical pass order: string encryption, control-flow
/// flattening, opaque predicates, bogus-code injection, instruction
/// substitution, function manipulation.
pub open spec fn canonical_order() -> Seq<Technique> {
    seq![
        Technique::StringEncryption,
        Technique::ControlFlowFlattening,
        Technique::OpaquePredicates,
        Technique::BogusCodeInjection,
        Technique::InstructionSubstitution,
        Technique::FunctionManipulation,
    ]
}

/// The first `n` techniques of the canonical order that are switched on, in
/// that order.
pub open spec fn planned_prefix(techniques: TechniqueConfig, n: nat) -> Seq<Technique>
    decreases n,
{
    if n == 0 || n > canonical_order().len() {
        Seq::empty()
    } else {
        let earlier = planned_prefix(techniques, (n - 1) as nat);
        let candidate = canonical_order()[n - 1];
        if candidate.enabled_in(techniques) {
            earlier.push(candidate)
        } else {
            earlier
        }
    }
}

/// The passes that a technique set asks for: the enabled techniques, each
/// once, in canonical order.
pub open spec fn planned_passes(techniques: TechniqueConfig) -> Seq<Technique> {
    planned_prefix(techniques, canonical_order().len())
}

/// The canonical order as a vector.
pub fn all_techniques_in_order() -> (v: Vec<Technique>)
    ensures
        v@ == canonical_order(),
{
    let mut v: Vec<Technique> = Vec::new();
    v.push(Technique::StringEncryption);
    v.push(Technique::ControlFlowFlattening);
    v.push(Technique::OpaquePredicates);
    v.push(Technique::BogusCodeInjection);
    v.push(Technique::InstructionSubstitution);
    v.push(Technique::FunctionManipulation);
    assert(v@ =~= canonical_order());
    v
}

/// Resolves a technique set into the ordered list of passes to run.
pub fn plan_passes(techniques: &TechniqueConfig) -> (passes: Vec<Technique>)
    ensures
        passes@ == planned_passes(*techniques),
{
    let order = all_techniques_in_order();
    let mut passes: Vec<Technique> = Vec::new();
    let mut i: usize = 0;
    while i < order.len()
        invariant
            i <= order.len(),
            order@ == canonical_order(),
            passes@ == planned_prefix(*techniques, i as nat),
        decreases order.len() - i,
    {
        let candidate = order[i];
        if candidate.is_enabled_in(techniques) {
            passes.push(candidate);
        }
        i += 1;
    }
    passes
}

/// A plan holds exactly the enabled techniques, each at most once, ordered by
/// rank; it is empty exactly when nothing is switched on.
pub proof fn lemma_plan_is_canonical(techniques: TechniqueConfig)
    ensures
        forall|t: Technique| #[trigger]
            planned_passes(techniques).contains(t) <==> t.enabled_in(techniques),
        forall|i: int, j: int|
            0 <= i < j < planned_passes(techniques).len() ==> (#[trigger] planned_passes(
                techniques,
            )[i]).rank() < (#[trigger] planned_passes(techniques)[j]).rank(),
        planned_passes(techniques).len() == techniques.enabled_count(),
        planned_passes(techniques).len() == 0 <==> !techniques.any_enabled(),
{
    lemma_prefix_is_canonical(techniques, canonical_order().len());
    let plan = planned_passes(techniques);
    assert forall|t: Technique| #[trigger] plan.contains(t) <==> t.enabled_in(techniques) by {
        assert(t.rank() < 6);
        assert(canonical_order()[t.rank() as int] == t);
    }
    reveal_with_fuel(planned_prefix, 7);
}

/// What holds of every prefix of a plan.
proof fn lemma_prefix_is_canonical(techniques: TechniqueConfig, n: nat)
    requires
        n <= canonical_order().len(),
    ensures
        forall|t: Technique| #[trigger]
            planned_prefix(techniques, n).contains(t) <==> (t.enabled_in(techniques) && t.rank()
                < n),
        forall|i: int, j: int|
            0 <= i < j < planned_prefix(techniques, n).len() ==> (#[trigger] planned_prefix(
                techniques,
                n,
            )[i]).rank() < (#[trigger] planned_prefix(techniques, n)[j]).rank(),
    decreases n,
{
    if n > 0 {
        let earlier = planned_prefix(techniques, (n - 1) as nat);
        let candidate = canonical_order()[n - 1];
        let now = planned_prefix(techniques, n);
        lemma_prefix_is_canonical(techniques, (n - 1) as nat);
        assert(candidate.rank() == n - 1);
        assert forall|t: Technique| #[trigger] now.contains(t) <==> (t.enabled_in(techniques)
            && t.rank() < n) by {
            if candidate.enabled_in(techniques) {
                assert(now == earlier.push(candidate));
                if now.contains(t) {
                    let k = choose|k: int| 0 <= k < now.len() && now[k] == t;
                    if k < earlier.len() {
                        assert(earlier[k] == t);
                        assert(earlier.contains(t));
                    }
                }
                if t.enabled_in(techniques) && t.rank() < n {
                    if t.rank() < n - 1 {
                        assert(earlier.contains(t));
                        let k = choose|k: int| 0 <= k < earlier.len() && earlier[k] == t;
                        assert(now[k] == t);
                    } else {
                        assert(t == candidate);
                        assert(now[now.len() - 1] == t);
                    }
                }
            } else {
                if t.rank() == n - 1 {
                    assert(t == candidate);
                }
            }
        }
        assert forall|i: int, j: int| 0 <= i < j < now.len() implies (#[trigger] now[i]).rank() < (
        #[trigger] now[j]).rank() by {
            if candidate.enabled_in(techniques) {
                if j == now.len() - 1 {
                    assert(earlier[i] == now[i]);
                    assert(earlier.contains(now[i]));
                } else {
                    assert(earlier[i] == now[i] && earlier[j] == now[j]);
                }
            }
        }
    } else {
        assert(planned_prefix(techniques, n) =~= Seq::<Technique>::empty());
    }
}

} // verus!
