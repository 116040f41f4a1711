//! Collection of the scope tokens a parameter list introduces.
//!
//! When a request's argument is function-like, the tokens of the
//! bindings its parameters introduce become the request's local
//! contexts: a chain walk must stop when it reaches an identifier
//! bound in one of them, because no externally nameable accessor
//! exists for such a variable.

use vstd::prelude::*;

use crate::ast::ObjectPatProp;
use crate::ast::Pat;

verus! {

/// The scope tokens introduced by one binding pattern.
///
/// A default-value or rest pattern is unwrapped one level before the
/// shape underneath is read, exactly once: a second such wrapper
/// introduces nothing.
pub open spec fn spec_pat_contexts(p: Pat) -> Seq<u32>
    decreases p, 1int,
{
    match p {
        Pat::Assign(inner) => spec_pat_core(*inner),
        Pat::Rest(inner) => spec_pat_core(*inner),
        q => spec_pat_core(q),
    }
}

/// The scope tokens of an already-unwrapped pattern.
pub open spec fn spec_pat_core(q: Pat) -> Seq<u32>
    decreases q, 0int,
{
    match q {
        Pat::Ident(c) => seq![c],
        Pat::Array(elems) => spec_opt_pats_contexts(elems@),
        Pat::Object(props) => spec_props_contexts(props@),
        _ => Seq::empty(),
    }
}

/// The scope tokens of an array pattern's elements, elisions skipped.
pub open spec fn spec_opt_pats_contexts(s: Seq<Option<Pat>>) -> Seq<u32>
    decreases s, 2int,
{
    if s.len() == 0 {
        Seq::empty()
    } else {
        spec_opt_pats_contexts(s.drop_last()) + (match s.last() {
            Some(p) => spec_pat_contexts(p),
            None => Seq::empty(),
        })
    }
}

/// The scope tokens of an object pattern's properties.
pub open spec fn spec_props_contexts(s: Seq<ObjectPatProp>) -> Seq<u32>
    decreases s, 2int,
{
    if s.len() == 0 {
        Seq::empty()
    } else {
        spec_props_contexts(s.drop_last()) + (match s.last() {
            ObjectPatProp::Assign(c) => seq![c],
            ObjectPatProp::KeyValue(p) => spec_pat_contexts(*p),
            ObjectPatProp::Rest(p) => spec_pat_contexts(*p),
        })
    }
}

/// The scope tokens of a whole parameter list.
pub open spec fn spec_pats_contexts(s: Seq<Pat>) -> Seq<u32>
    decreases s, 2int,
{
    if s.len() == 0 {
        Seq::empty()
    } else {
        spec_pats_contexts(s.drop_last()) + spec_pat_contexts(s.last())
    }
}

/// Appends the scope tokens introduced by `p` to `out`.
fn pat_contexts_into(p: &Pat, out: &mut Vec<u32>)
    ensures
        final(out)@ == old(out)@ + spec_pat_contexts(*p),
    decreases *p, 1int,
{
    let q: &Pat = match p {
        Pat::Assign(inner) => &**inner,
        Pat::Rest(inner) => &**inner,
        other => other,
    };
    proof {
        assert(decreases_to!(*p, 1int => *q, 0int));
    }
    match q {
        Pat::Ident(c) => {
            out.push(*c);
        },
        Pat::Array(elems) => {
            let n = elems.len();
            proof {
                assert(decreases_to!(*p => elems@));
            }
            for i in 0..n
                invariant
                    n == elems@.len(),
                    decreases_to!(*p => elems@),
                    out@ == old(out)@ + spec_opt_pats_contexts(elems@.take(i as int)),
                decreases n - i,
            {
                proof {
                    assert(elems@.take(i as int + 1).drop_last() =~= elems@.take(i as int));
                    assert(elems@.take(i as int + 1).last() == elems@[i as int]);
                }
                match &elems[i] {
                    Some(elem) => {
                        proof {
                            assert(decreases_to!(elems@ => elems@[i as int]));
                        }
                        pat_contexts_into(elem, out);
                    },
                    None => {},
                }
            }
            proof {
                assert(elems@.take(n as int) =~= elems@);
            }
        },
        Pat::Object(props) => {
            let n = props.len();
            proof {
                assert(decreases_to!(*p => props@));
            }
            for i in 0..n
                invariant
                    n == props@.len(),
                    decreases_to!(*p => props@),
                    out@ == old(out)@ + spec_props_contexts(props@.take(i as int)),
                decreases n - i,
            {
                proof {
                    assert(props@.take(i as int + 1).drop_last() =~= props@.take(i as int));
                    assert(props@.take(i as int + 1).last() == props@[i as int]);
                }
                match &props[i] {
                    ObjectPatProp::Assign(c) => {
                        out.push(*c);
                    },
                    ObjectPatProp::KeyValue(inner) => {
                        proof {
                            assert(decreases_to!(props@ => props@[i as int]));
                        }
                        pat_contexts_into(inner, out);
                    },
                    ObjectPatProp::Rest(inner) => {
                        proof {
                            assert(decreases_to!(props@ => props@[i as int]));
                        }
                        pat_contexts_into(inner, out);
                    },
                }
            }
            proof {
                assert(props@.take(n as int) =~= props@);
            }
        },
        _ => {},
    }
}

/// The scope tokens holding the variables declared by `params`.
pub fn get_local_contexts(params: &Vec<Pat>) -> (r: Vec<u32>)
    ensures
        r@ == spec_pats_contexts(params@),
{
    let mut out: Vec<u32> = Vec::new();
    let n = params.len();
    for i in 0..n
        invariant
            n == params@.len(),
            out@ == spec_pats_contexts(params@.take(i as int)),
        decreases n - i,
    {
        proof {
            assert(params@.take(i as int + 1).drop_last() =~= params@.take(i as int));
            assert(params@.take(i as int + 1).last() == params@[i as int]);
        }
        pat_contexts_into(&params[i], &mut out);
    }
    proof {
        assert(params@.take(n as int) =~= params@);
    }
    out
}

} // verus!
