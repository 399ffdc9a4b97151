//! The signature transform: from a function descriptor to the synthesized
//! verification function.
//!
//! The verification function is never called. It reproduces the annotated
//! function's qualifiers, generic parameter list, where-clause and parameter
//! list, calls the function with the forwarded argument names, binds the
//! suspended computation to a local, and hands that local to a nested helper
//! whose one bound demands the `Unanchored` capability — which makes the host
//! compiler evaluate the capability for the function's generated state.

use vstd::prelude::*;
use vstd::string::StringExecFns;

use crate::sig::FnSig;
use crate::sig::Param;
use crate::sig::clone_param;
use crate::sig::forwarded_names;
use crate::sig::has_pattern_param;
use crate::sig::has_receiver;
use crate::sig::is_receiver_param;
use crate::sig::param_is_forwarded;
use crate::sig::param_is_receiver;
use crate::sig::param_text;
use crate::sig::string_views;

verus! {

/// Why a descriptor is refused.
#[derive(Debug, PartialEq, Eq)]
pub enum TransformError {
    /// The annotated item is not an asynchronous function.
    NotAsync,
    /// The parameter at `index` binds a pattern, so no argument name can be
    /// forwarded for it; `text` is the parameter as written.
    UnsupportedPattern { index: usize, text: String },
}

impl TransformError {
    /// The diagnostic, word for word as the attribute layer reports it.
    pub fn message(&self) -> (r: String)
        ensures
            *self is NotAsync ==> r@ == "this isn't an async function"@,
            self matches TransformError::UnsupportedPattern { text, .. } ==> r@
                == "cannot forward a parameter bound by a pattern: "@ + text@,
    {
        match self {
            TransformError::NotAsync => String::from_str("this isn't an async function"),
            TransformError::UnsupportedPattern { index: _, text } => {
                let mut r: String = String::from_str(
                    "cannot forward a parameter bound by a pattern: ",
                );
                r.append(text.as_str());
                r
            },
        }
    }
}

/// The synthesized verification function, decomposed the same way the
/// original is.
#[derive(Debug, PartialEq, Eq)]
pub struct VerificationFn {
    /// The original's qualifiers, verbatim.
    pub qualifiers: String,
    /// The generated identifier: a fixed prefix, then the original's name.
    pub ident: String,
    /// The original's generic parameter list, verbatim.
    pub generics: String,
    /// The original's where-clause, verbatim and unchanged.
    pub where_clause: String,
    /// A parameter list identical to the original's.
    pub params: Vec<Param>,
    /// Whether the call forwards through a receiver (`self.name(..)` rather
    /// than `name(..)`).
    pub is_method: bool,
    /// The identifier of the function being called: the original's.
    pub callee: String,
    /// The forwarded argument names, in declaration order.
    pub args: Vec<String>,
}

/// What the transform promises of a success: every part of the original's
/// signature is carried over verbatim, the generated name is the prefixed
/// original name, the call form follows the receiver, and the argument list
/// is exactly the forwarded names.
pub open spec fn transform_ok(sig: FnSig, v: VerificationFn) -> bool {
    &&& v.qualifiers@ == sig.qualifiers@
    &&& v.ident@ == "__assert_unanchored_"@ + sig.ident@
    &&& v.generics@ == sig.generics@
    &&& v.where_clause@ == sig.where_clause@
    &&& v.params@ == sig.params@
    &&& v.is_method == has_receiver(sig.params@)
    &&& v.callee@ == sig.ident@
    &&& string_views(v.args@) == forwarded_names(sig.params@)
    &&& v.args@.len() == forwarded_names(sig.params@).len()
}

/// What the transform reports of the first offending parameter.
pub open spec fn first_pattern_error(ps: Seq<Param>, e: TransformError) -> bool {
    match e {
        TransformError::UnsupportedPattern { index, text } => {
            &&& 0 <= index < ps.len()
            &&& ps[index as int] is Pattern
            &&& text@ == param_text(ps[index as int])
            &&& forall|j: int| 0 <= j < index ==> !(#[trigger] ps[j] is Pattern)
        },
        _ => false,
    }
}

/// Decompose-and-synthesize: from the descriptor of the annotated function
/// to the descriptor of its verification function.
///
/// Succeeds exactly on asynchronous functions all of whose parameters are
/// receivers or simple identifier bindings. A non-asynchronous item is
/// refused outright; a pattern-bound parameter is refused naming the first
/// offender, rather than forwarding a call with too few arguments.
pub fn transform(sig: &FnSig) -> (r: Result<VerificationFn, TransformError>)
    ensures
        r is Ok <==> (sig.is_async && !has_pattern_param(sig.params@)),
        !sig.is_async ==> r == Err::<VerificationFn, TransformError>(TransformError::NotAsync),
        (sig.is_async && has_pattern_param(sig.params@)) ==> (r matches Err(e)
            && first_pattern_error(sig.params@, e)),
        r matches Ok(v) ==> transform_ok(*sig, v),
{
    if !sig.is_async {
        return Err(TransformError::NotAsync);
    }
    let ghost ps = sig.params@;
    let mut params: Vec<Param> = Vec::new();
    let mut args: Vec<String> = Vec::new();
    let mut is_method: bool = false;
    let mut i: usize = 0;
    while i < sig.params.len()
        invariant
            sig.is_async,
            i <= ps.len(),
            ps == sig.params@,
            params@ == ps.take(i as int),
            string_views(args@) == forwarded_names(ps.take(i as int)),
            is_method == has_receiver(ps.take(i as int)),
            forall|j: int| 0 <= j < i ==> !(#[trigger] ps[j] is Pattern),
        decreases ps.len() - i,
    {
        let p = &sig.params[i];
        match p {
            Param::Pattern { text } => {
                return Err(TransformError::UnsupportedPattern { index: i, text: text.clone() });
            },
            _ => {},
        }
        if param_is_receiver(p) {
            is_method = true;
        }
        if param_is_forwarded(p) {
            match p {
                Param::Ident { name, .. } => {
                    args.push(name.clone());
                },
                _ => {},
            }
        }
        params.push(clone_param(p));
        proof {
            assert(ps.take(i + 1 as int).drop_last() =~= ps.take(i as int));
            assert(ps.take(i + 1 as int).last() == ps[i as int]);
            assert(params@ == ps.take(i + 1 as int));
            assert(string_views(args@) =~= forwarded_names(ps.take(i + 1 as int)));
            if has_receiver(ps.take(i + 1 as int)) && !has_receiver(ps.take(i as int))
                && !is_receiver_param(ps[i as int]) {
                let w = choose|k: int|
                    0 <= k < ps.take(i + 1 as int).len() && is_receiver_param(
                        #[trigger] ps.take(i + 1 as int)[k],
                    );
                assert(is_receiver_param(ps.take(i as int)[w]));
            }
        }
        i = i + 1;
    }
    proof {
        assert(ps.take(ps.len() as int) =~= ps);
        assert(string_views(args@).len() == args@.len());
    }
    let mut ident: String = String::from_str("__assert_unanchored_");
    ident.append(sig.ident.as_str());
    let v = VerificationFn {
        qualifiers: sig.qualifiers.clone(),
        ident,
        generics: sig.generics.clone(),
        where_clause: sig.where_clause.clone(),
        params,
        is_method,
        callee: sig.ident.clone(),
        args,
    };
    Ok(v)
}

} // verus!
