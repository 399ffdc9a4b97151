//! Printing the synthesized verification function as source text.
//!
//! The emitted shape, for a descriptor that the transform accepts, is
//!
//! ```text
//! QUALIFIERS fn __assert_unanchored_NAME<GENERICS>(PARAMS) WHERE {
//!     let future = [self.]NAME(ARGS);
//!     fn assert<UnanchoredFutureType: anchored::Unanchored>(_: UnanchoredFutureType) {}
//!     assert(future);
//! }
//! ```
//!
//! on one line, with every piece taken verbatim from the original signature.

use vstd::prelude::*;
use vstd::string::StringExecFns;

use crate::sig::FnSig;
use crate::sig::Param;
use crate::sig::forwarded_names;
use crate::sig::has_pattern_param;
use crate::sig::has_receiver;
use crate::sig::param_text;
use crate::sig::param_texts;
use crate::sig::string_views;
use crate::sig::text_of;
use crate::transform::TransformError;
use crate::transform::VerificationFn;
use crate::transform::first_pattern_error;
use crate::transform::transform;
use crate::transform::transform_ok;

verus! {

/// The items joined with `", "` between two neighbours.
pub open spec fn spec_join_comma(items: Seq<Seq<char>>) -> Seq<char>
    decreases items.len(),
{
    if items.len() == 0 {
        Seq::empty()
    } else if items.len() == 1 {
        items[0]
    } else {
        spec_join_comma(items.drop_last()) + ", "@ + items.last()
    }
}

/// The text followed by one space, or nothing for empty text.
pub open spec fn spec_with_trailing_space(s: Seq<char>) -> Seq<char> {
    if s.len() == 0 {
        s
    } else {
        s + " "@
    }
}

/// The text preceded by one space, or nothing for empty text.
pub open spec fn spec_with_leading_space(s: Seq<char>) -> Seq<char> {
    if s.len() == 0 {
        s
    } else {
        " "@ + s
    }
}

/// The generic parameter list in its angle brackets, or nothing when it is
/// empty.
pub open spec fn spec_bracketed(g: Seq<char>) -> Seq<char> {
    if g.len() == 0 {
        g
    } else {
        "<"@ + g + ">"@
    }
}

/// The call that binds the suspended computation: through the receiver for a
/// method, free otherwise.
pub open spec fn spec_call(is_method: bool, callee: Seq<char>, args: Seq<Seq<char>>) -> Seq<char> {
    (if is_method {
        "self."@
    } else {
        Seq::<char>::empty()
    }) + callee + "("@ + spec_join_comma(args) + ")"@
}

/// The fixed tail of the emitted body: the nested helper whose one bound
/// demands the capability, and the call that hands it the local.
pub open spec fn spec_helper_tail() -> Seq<char> {
    "; fn assert<UnanchoredFutureType: anchored::Unanchored>(_: UnanchoredFutureType) {} assert(future); }"@
}

/// The full text of a verification function.
pub open spec fn spec_verification_text(v: VerificationFn) -> Seq<char> {
    spec_with_trailing_space(v.qualifiers@) + "fn "@ + v.ident@ + spec_bracketed(v.generics@)
        + "("@ + spec_join_comma(param_texts(v.params@)) + ")"@ + spec_with_leading_space(
        v.where_clause@,
    ) + " { let future = "@ + spec_call(v.is_method, v.callee@, string_views(v.args@))
        + spec_helper_tail()
}

/// The full text of the verification function that a descriptor expands to,
/// written over the descriptor alone.
pub open spec fn spec_expansion(sig: FnSig) -> Seq<char> {
    spec_with_trailing_space(sig.qualifiers@) + "fn "@ + ("__assert_unanchored_"@ + sig.ident@)
        + spec_bracketed(sig.generics@) + "("@ + spec_join_comma(param_texts(sig.params@)) + ")"@
        + spec_with_leading_space(sig.where_clause@) + " { let future = "@ + spec_call(
        has_receiver(sig.params@),
        sig.ident@,
        forwarded_names(sig.params@),
    ) + spec_helper_tail()
}

/// Join the parameters' texts with `", "`.
pub fn join_comma_params(items: &Vec<Param>) -> (r: String)
    ensures
        r@ == spec_join_comma(param_texts(items@)),
{
    let ghost texts = param_texts(items@);
    let mut out: String = String::new();
    let mut i: usize = 0;
    while i < items.len()
        invariant
            i <= items@.len(),
            texts == param_texts(items@),
            texts.len() == items@.len(),
            out@ == spec_join_comma(texts.take(i as int)),
        decreases items@.len() - i,
    {
        if i > 0 {
            out.append(", ");
        }
        out.append(text_of(&items[i]));
        proof {
            assert(texts[i as int] == param_text(items@[i as int]));
            assert(texts.take(i + 1 as int).drop_last() =~= texts.take(i as int));
            assert(texts.take(i + 1 as int).last() == texts[i as int]);
            if i > 0 {
                assert(out@ == spec_join_comma(texts.take(i as int)) + ", "@ + texts[i as int]);
            }
            assert(out@ == spec_join_comma(texts.take(i + 1 as int)));
        }
        i = i + 1;
    }
    proof {
        assert(texts.take(items@.len() as int) =~= texts);
    }
    out
}

/// Join the argument names with `", "`.
pub fn join_comma_strings(items: &Vec<String>) -> (r: String)
    ensures
        r@ == spec_join_comma(string_views(items@)),
{
    let ghost texts = string_views(items@);
    let mut out: String = String::new();
    let mut i: usize = 0;
    while i < items.len()
        invariant
            i <= items@.len(),
            texts == string_views(items@),
            texts.len() == items@.len(),
            out@ == spec_join_comma(texts.take(i as int)),
        decreases items@.len() - i,
    {
        if i > 0 {
            out.append(", ");
        }
        out.append(items[i].as_str());
        proof {
            assert(texts[i as int] == items@[i as int]@);
            assert(texts.take(i + 1 as int).drop_last() =~= texts.take(i as int));
            assert(texts.take(i + 1 as int).last() == texts[i as int]);
            if i > 0 {
                assert(out@ == spec_join_comma(texts.take(i as int)) + ", "@ + texts[i as int]);
            }
            assert(out@ == spec_join_comma(texts.take(i + 1 as int)));
        }
        i = i + 1;
    }
    proof {
        assert(texts.take(items@.len() as int) =~= texts);
    }
    out
}

/// Print a verification function as source text.
pub fn render_verification(v: &VerificationFn) -> (r: String)
    ensures
        r@ == spec_verification_text(*v),
{
    let mut out: String = String::new();
    if !v.qualifiers.as_str().is_empty() {
        out.append(v.qualifiers.as_str());
        out.append(" ");
    }
    proof {
        assert(out@ =~= spec_with_trailing_space(v.qualifiers@));
    }
    out.append("fn ");
    out.append(v.ident.as_str());
    let ghost head = spec_with_trailing_space(v.qualifiers@) + "fn "@ + v.ident@;
    proof {
        assert(out@ =~= head);
    }
    if !v.generics.as_str().is_empty() {
        out.append("<");
        out.append(v.generics.as_str());
        out.append(">");
    }
    let ghost with_generics = head + spec_bracketed(v.generics@);
    proof {
        assert(out@ =~= with_generics);
    }
    out.append("(");
    let params_text = join_comma_params(&v.params);
    out.append(params_text.as_str());
    out.append(")");
    let ghost with_params = with_generics + "("@ + spec_join_comma(param_texts(v.params@)) + ")"@;
    proof {
        assert(out@ =~= with_params);
    }
    if !v.where_clause.as_str().is_empty() {
        out.append(" ");
        out.append(v.where_clause.as_str());
    }
    out.append(" { let future = ");
    let ghost with_where = with_params + spec_with_leading_space(v.where_clause@)
        + " { let future = "@;
    proof {
        assert(out@ =~= with_where);
    }
    if v.is_method {
        out.append("self.");
    }
    out.append(v.callee.as_str());
    out.append("(");
    let args_text = join_comma_strings(&v.args);
    out.append(args_text.as_str());
    out.append(")");
    let ghost with_call = with_where + spec_call(v.is_method, v.callee@, string_views(v.args@));
    proof {
        assert(out@ =~= with_call);
    }
    out.append(
        "; fn assert<UnanchoredFutureType: anchored::Unanchored>(_: UnanchoredFutureType) {} assert(future); }",
    );
    proof {
        assert(out@ =~= spec_verification_text(*v));
    }
    out
}

/// Transform and print in one step: the full text of the synthesized
/// verification function for a descriptor, or why there is none.
///
/// The annotated item itself is not part of the output: the attribute layer
/// passes it through unchanged and concatenates this text after it.
pub fn expand_sig(sig: &FnSig) -> (r: Result<String, TransformError>)
    ensures
        r is Ok <==> (sig.is_async && !has_pattern_param(sig.params@)),
        !sig.is_async ==> r == Err::<String, TransformError>(TransformError::NotAsync),
        (sig.is_async && has_pattern_param(sig.params@)) ==> (r matches Err(e)
            && first_pattern_error(sig.params@, e)),
        r matches Ok(out) ==> out@ == spec_expansion(*sig),
{
    match transform(sig) {
        Err(e) => Err(e),
        Ok(v) => {
            let out = render_verification(&v);
            proof {
                assert(transform_ok(*sig, v));
                assert(param_texts(v.params@) == param_texts(sig.params@));
                assert(out@ =~= spec_expansion(*sig));
            }
            Ok(out)
        },
    }
}

} // verus!
