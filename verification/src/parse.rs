//! Reading a function item's signature into a descriptor.
//!
//! Parsing Rust source is syn's work; nothing here restates its grammar.
//! Parsing is a function of the source text alone, so its outcome carries a
//! name, [`spec_parse`]; the one wrapper below is held to that name, and
//! everything downstream of it is verified against the descriptor.

use quote::ToTokens;
use vstd::prelude::*;

use crate::render::expand_sig;
use crate::render::spec_expansion;
use crate::sig::FnSig;
use crate::sig::Param;
use crate::sig::has_pattern_param;
use crate::transform::TransformError;
use crate::transform::first_pattern_error;

verus! {

/// What parsing one function item from source text yields: the item's
/// descriptor, or the parser's message. The outcome depends on the text
/// alone; this name stands for it, and nothing else is assumed of it.
pub uninterp spec fn spec_parse(src: Seq<char>) -> Result<FnSig, Seq<char>>;

/// Relies on syn::parse_str::<syn::ItemFn> for the parse, and on syn's and
/// quote's printing (ToTokens) for each piece's text: the head of the
/// descriptor — asyncness, qualifiers, identifier, generic parameter list,
/// where-clause — or the parser's message. The descriptor is read in two
/// trusted pieces, this head and the parameter list below, both held to
/// [`spec_parse`].
#[verifier::external_body]
fn parse_head(src: &str) -> (r: Result<(bool, String, String, String, String), String>)
    ensures
        r is Ok <==> spec_parse(src@) is Ok,
        r matches Ok(h) ==> (spec_parse(src@) matches Ok(s) && h.0 == s.is_async && h.1
            == s.qualifiers && h.2 == s.ident && h.3 == s.generics && h.4 == s.where_clause),
        r matches Err(m) ==> (spec_parse(src@) matches Err(m2) && m2 == m@),
{
    let f = match syn::parse_str::<syn::ItemFn>(src) {
        Ok(f) => f,
        Err(e) => return Err(e.to_string()),
    };
    let mut q = proc_macro2::TokenStream::new();
    f.sig.unsafety.to_tokens(&mut q);
    f.sig.abi.to_tokens(&mut q);
    Ok((f.sig.asyncness.is_some(), q.to_string(), f.sig.ident.to_string(),
        f.sig.generics.params.to_token_stream().to_string(),
        f.sig.generics.where_clause.to_token_stream().to_string()))
}

/// Relies on syn::parse_str::<syn::ItemFn> for the parse, and on syn's FnArg
/// and Pat for each parameter, classified by its syntactic shape alone — a
/// written receiver, an identifier binding, or any other pattern — in
/// declaration order, each printed by quote's ToTokens; or the parser's
/// message.
#[verifier::external_body]
fn parse_params(src: &str) -> (r: Result<Vec<Param>, String>)
    ensures
        r is Ok <==> spec_parse(src@) is Ok,
        r matches Ok(ps) ==> (spec_parse(src@) matches Ok(s) && ps == s.params),
        r matches Err(m) ==> (spec_parse(src@) matches Err(m2) && m2 == m@),
{
    let f = match syn::parse_str::<syn::ItemFn>(src) {
        Ok(f) => f,
        Err(e) => return Err(e.to_string()),
    };
    Ok(f.sig.inputs.iter().map(|a| match a {
        syn::FnArg::Receiver(r) => Param::Receiver { text: r.to_token_stream().to_string() },
        syn::FnArg::Typed(p) => match p.pat.as_ref() {
            syn::Pat::Ident(i) => Param::Ident {
                name: i.ident.to_string(),
                text: p.to_token_stream().to_string(),
            },
            _ => Param::Pattern { text: p.to_token_stream().to_string() },
        },
    }).collect())
}

/// Read the whole descriptor: exactly the outcome that [`spec_parse`] names
/// for this text.
fn parse_signature(src: &str) -> (r: Result<FnSig, String>)
    ensures
        r is Ok <==> spec_parse(src@) is Ok,
        r matches Ok(s) ==> (spec_parse(src@) matches Ok(s2) && s2 == s),
        r matches Err(m) ==> (spec_parse(src@) matches Err(m2) && m2 == m@),
{
    let head = match parse_head(src) {
        Ok(h) => h,
        Err(m) => {
            return Err(m);
        },
    };
    let params = match parse_params(src) {
        Ok(p) => p,
        Err(m) => {
            return Err(m);
        },
    };
    let (is_async, qualifiers, ident, generics, where_clause) = head;
    Ok(FnSig { is_async, qualifiers, ident, generics, where_clause, params })
}

/// Why no verification function comes out of a piece of source text.
#[derive(Debug, PartialEq, Eq)]
pub enum ExpandError {
    /// The text could not be parsed as a function item; the message is the
    /// parser's.
    Parse { message: String },
    /// The descriptor was refused by the transform; `sig` is what was read.
    Refused { sig: FnSig, error: TransformError },
}

/// A successful expansion: the descriptor that was read, and the text of the
/// verification function it expands to.
#[derive(Debug, PartialEq, Eq)]
pub struct Expansion {
    /// The annotated function's descriptor, as read from the source.
    pub sig: FnSig,
    /// The verification function, as source text.
    pub text: String,
}

/// Parse one function item and expand it: the descriptor that was read and
/// the synthesized verification function's text, or why there is none.
///
/// Success is owed exactly when the text parses to an asynchronous
/// descriptor without pattern-bound parameters; the output is then that
/// descriptor and its expansion. A text that does not parse is owed the
/// parser's message; one that parses to a refused descriptor is owed that
/// descriptor with the error the transform owes it. The annotated item
/// itself is not part of the output: the attribute layer passes it through
/// unchanged.
pub fn expand_source(src: &str) -> (r: Result<Expansion, ExpandError>)
    ensures
        r is Ok <==> (spec_parse(src@) matches Ok(sig) && sig.is_async && !has_pattern_param(
            sig.params@,
        )),
        r matches Ok(x) ==> {
            &&& spec_parse(src@) matches Ok(sig) && sig == x.sig
            &&& x.sig.is_async
            &&& !has_pattern_param(x.sig.params@)
            &&& x.text@ == spec_expansion(x.sig)
        },
        r matches Err(ExpandError::Parse { message }) ==> (spec_parse(src@) matches Err(m)
            && message@ == m),
        spec_parse(src@) matches Err(m) ==> (r matches Err(ExpandError::Parse { message })
            && message@ == m),
        r matches Err(ExpandError::Refused { sig, error }) ==> {
            &&& spec_parse(src@) matches Ok(s2) && s2 == sig
            &&& !(sig.is_async && !has_pattern_param(sig.params@))
            &&& (!sig.is_async ==> error == TransformError::NotAsync)
            &&& (sig.is_async ==> has_pattern_param(sig.params@) && first_pattern_error(
                sig.params@,
                error,
            ))
        },
{
    let sig = match parse_signature(src) {
        Ok(sig) => sig,
        Err(message) => {
            return Err(ExpandError::Parse { message });
        },
    };
    match expand_sig(&sig) {
        Ok(text) => Ok(Expansion { sig, text }),
        Err(error) => Err(ExpandError::Refused { sig, error }),
    }
}

} // verus!
