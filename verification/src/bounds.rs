//! Generic-bound inference.
//!
//! The emitted implementation needs a constraint on a generic parameter
//! exactly when that parameter appears, however deeply nested, in a type
//! that participates in default-path duplication. An explicit user-supplied
//! override is reproduced verbatim; a disabled bound yields no constraints.
//! Inferred constraints are emitted in declaration order of the generic
//! parameters, so the output is deterministic and reviewable.

use vstd::prelude::*;

use crate::attrs::{BoundSpec, BoundSpecV};
use crate::model::{TypeExpr, expr_mentions, strings_view};
use crate::output::{ContractKind, Predicate, PredicateV, preds_view};

verus! {

/// The candidate types as values, from the borrowed list the synthesizer
/// collects.
pub open spec fn cand_views(c: Seq<&TypeExpr>) -> Seq<TypeExpr> {
    c.map_values(|t: &TypeExpr| *t)
}

/// Whether parameter `p` appears in at least one candidate type.
pub open spec fn mentions_any(cands: Seq<TypeExpr>, p: int) -> bool {
    exists|i: int| 0 <= i < cands.len() && expr_mentions(#[trigger] cands[i], p)
}

/// The inferred constraints for the parameters with index below `n`, in
/// ascending parameter order.
pub open spec fn inferred_upto(n: int, cands: Seq<TypeExpr>, contract: ContractKind) -> Seq<
    PredicateV,
>
    decreases n,
{
    if n <= 0 {
        Seq::empty()
    } else {
        inferred_upto(n - 1, cands, contract) + if mentions_any(cands, n - 1) {
            seq![PredicateV::Constraint { param: n - 1, contract }]
        } else {
            Seq::empty()
        }
    }
}

/// The where-clause for a bound specification: the override verbatim, no
/// constraints when the bound is disabled, and otherwise one constraint,
/// in declaration order, for every parameter mentioned by a candidate.
pub open spec fn spec_infer(
    bound: BoundSpecV,
    n_params: int,
    contract: ContractKind,
    cands: Seq<TypeExpr>,
) -> Seq<PredicateV> {
    match bound {
        BoundSpecV::Explicit(items) => items.map_values(|s: Seq<char>| PredicateV::Verbatim(s)),
        BoundSpecV::Absent => Seq::empty(),
        BoundSpecV::Inferred => inferred_upto(n_params, cands, contract),
    }
}

/// A parameter has an inferred constraint exactly when it is in range and
/// mentioned by at least one candidate type.
pub proof fn lemma_inferred_membership(n: int, cands: Seq<TypeExpr>, contract: ContractKind, p: int)
    ensures
        inferred_upto(n, cands, contract).contains(PredicateV::Constraint { param: p, contract })
            <==> (0 <= p < n && mentions_any(cands, p)),
    decreases n,
{
    if n <= 0 {
    } else {
        lemma_inferred_membership(n - 1, cands, contract, p);
        let prefix = inferred_upto(n - 1, cands, contract);
        let whole = inferred_upto(n, cands, contract);
        if mentions_any(cands, n - 1) {
            assert(whole == prefix + seq![PredicateV::Constraint { param: n - 1, contract }]);
            assert(whole[whole.len() - 1] == PredicateV::Constraint { param: n - 1, contract });
            if p == n - 1 {
                assert(whole.contains(PredicateV::Constraint { param: p, contract }));
            } else {
                assert(whole.contains(PredicateV::Constraint { param: p, contract })
                    <==> prefix.contains(PredicateV::Constraint { param: p, contract })) by {
                    if whole.contains(PredicateV::Constraint { param: p, contract }) {
                        let k = choose|k: int|
                            0 <= k < whole.len() && whole[k] == PredicateV::Constraint {
                                param: p,
                                contract,
                            };
                        assert(k < prefix.len());
                        assert(prefix[k] == whole[k]);
                    }
                    if prefix.contains(PredicateV::Constraint { param: p, contract }) {
                        let k = choose|k: int|
                            0 <= k < prefix.len() && prefix[k] == PredicateV::Constraint {
                                param: p,
                                contract,
                            };
                        assert(whole[k] == prefix[k]);
                    }
                }
            }
        } else {
            assert(whole =~= prefix);
        }
    }
}

/// The parameter index a constraint element speaks of; meaningless for a
/// verbatim item, which never occurs in an inferred clause.
pub open spec fn constraint_param(p: PredicateV) -> int {
    match p {
        PredicateV::Constraint { param, .. } => param,
        PredicateV::Verbatim(_) => -1,
    }
}

/// Inferred constraints are emitted in declaration order of the generic
/// parameters: every element of the inferred clause constrains a parameter
/// below `n` to the target contract, and the constrained indices ascend
/// strictly along the clause.
pub proof fn lemma_inferred_ordered(n: int, cands: Seq<TypeExpr>, contract: ContractKind)
    ensures
        forall|k: int|
            0 <= k < inferred_upto(n, cands, contract).len()
                ==> ((#[trigger] inferred_upto(n, cands, contract)[k]) matches
                PredicateV::Constraint { param, contract: c } && 0 <= param < n && c == contract),
        forall|k1: int, k2: int|
            0 <= k1 < k2 < inferred_upto(n, cands, contract).len() ==> constraint_param(
                #[trigger] inferred_upto(n, cands, contract)[k1]) < constraint_param(
                #[trigger] inferred_upto(n, cands, contract)[k2]),
    decreases n,
{
    if n > 0 {
        lemma_inferred_ordered(n - 1, cands, contract);
        let prefix = inferred_upto(n - 1, cands, contract);
        let whole = inferred_upto(n, cands, contract);
        assert(forall|k: int| 0 <= k < prefix.len() ==> whole[k] == #[trigger] prefix[k]);
        if mentions_any(cands, n - 1) {
            assert(whole[whole.len() - 1] == PredicateV::Constraint { param: n - 1, contract });
        }
    }
}

/// Whether parameter `p` appears in the type expression `t`.
#[verifier::loop_isolation(false)]
pub fn type_expr_mentions(t: &TypeExpr, p: usize) -> (b: bool)
    ensures
        b == expr_mentions(*t, p as int),
    decreases *t,
{
    match t {
        TypeExpr::Param(i) => *i == p,
        TypeExpr::Apply(_, args) => {
            let mut j: usize = 0;
            while j < args.len()
                invariant
                    j <= args@.len(),
                    forall|k: int| 0 <= k < j ==> !expr_mentions(#[trigger] args@[k], p as int),
                decreases args@.len() - j,
            {
                proof {
                    assert(decreases_to!(*t => t->Apply_1));
                    assert(decreases_to!(t->Apply_1 => t->Apply_1[j as int]));
                }
                if type_expr_mentions(&args[j], p) {
                    return true;
                }
                j = j + 1;
            }
            false
        },
    }
}

/// Whether parameter `p` appears in at least one candidate type.
#[verifier::loop_isolation(false)]
fn any_candidate_mentions(cands: &Vec<&TypeExpr>, p: usize) -> (b: bool)
    ensures
        b == mentions_any(cand_views(cands@), p as int),
{
    let mut j: usize = 0;
    while j < cands.len()
        invariant
            j <= cands@.len(),
            forall|k: int|
                0 <= k < j ==> !expr_mentions(#[trigger] cand_views(cands@)[k], p as int),
        decreases cands@.len() - j,
    {
        if type_expr_mentions(cands[j], p) {
            proof {
                assert(cand_views(cands@)[j as int] == *cands@[j as int]);
            }
            return true;
        }
        j = j + 1;
    }
    false
}

/// Computes the where-clause the emitted implementation requires: the
/// explicit override verbatim when one is present, nothing when the bound
/// is disabled, and otherwise one constraint, in declaration order, for
/// every generic parameter of the declaring type that appears, even
/// nested, in a candidate type.
#[verifier::loop_isolation(false)]
pub fn infer_bound(
    bound: &BoundSpec,
    n_params: usize,
    contract: ContractKind,
    candidates: &Vec<&TypeExpr>,
) -> (w: Vec<Predicate>)
    ensures
        preds_view(w@) == spec_infer(bound@, n_params as int, contract, cand_views(candidates@)),
{
    let ghost cands = cand_views(candidates@);
    match bound {
        BoundSpec::Explicit(items) => {
            let ghost target = strings_view(items@).map_values(
                |s: Seq<char>| PredicateV::Verbatim(s),
            );
            let mut w: Vec<Predicate> = Vec::new();
            let mut i: usize = 0;
            while i < items.len()
                invariant
                    i <= items@.len(),
                    target == strings_view(items@).map_values(
                        |s: Seq<char>| PredicateV::Verbatim(s),
                    ),
                    preds_view(w@) =~= target.take(i as int),
                decreases items@.len() - i,
            {
                let ghost w0 = w@;
                w.push(Predicate::Verbatim(items[i].clone()));
                proof {
                    assert(preds_view(w0).len() == w0.len());
                    assert(target.take(i as int).len() == i as int);
                    assert(w0.len() == i as int);
                    assert(w@ == w0.push(w@[i as int]));
                    assert(strings_view(items@)[i as int] == items@[i as int]@);
                    assert(target[i as int] == PredicateV::Verbatim(items@[i as int]@));
                    assert forall|k: int| 0 <= k <= i as int implies #[trigger] preds_view(w@)[k]
                        == target.take(i as int + 1)[k] by {
                        assert(preds_view(w@)[k] == w@[k]@);
                        if k < i as int {
                            assert(w@[k] == w0[k]);
                            assert(preds_view(w0)[k] == target.take(i as int)[k]);
                        }
                    }
                    assert(preds_view(w@) =~= target.take(i as int + 1));
                }
                i = i + 1;
            }
            proof {
                assert(preds_view(w@) =~= spec_infer(bound@, n_params as int, contract, cands));
            }
            w
        },
        BoundSpec::Absent => {
            let w: Vec<Predicate> = Vec::new();
            proof {
                assert(preds_view(w@) =~= spec_infer(bound@, n_params as int, contract, cands));
            }
            w
        },
        BoundSpec::Inferred => {
            let mut w: Vec<Predicate> = Vec::new();
            let mut p: usize = 0;
            while p < n_params
                invariant
                    p <= n_params,
                    cands == cand_views(candidates@),
                    preds_view(w@) == inferred_upto(p as int, cands, contract),
                decreases n_params - p,
            {
                if any_candidate_mentions(candidates, p) {
                    w.push(Predicate::Constraint { param: p, contract });
                    proof {
                        assert(preds_view(w@) =~= inferred_upto(p as int, cands, contract)
                            + seq![PredicateV::Constraint { param: p as int, contract }]);
                    }
                } else {
                    proof {
                        assert(preds_view(w@) =~= inferred_upto(p as int, cands, contract)
                            + Seq::<PredicateV>::empty());
                    }
                }
                p = p + 1;
            }
            w
        },
    }
}

} // verus!
