//! The decomposed signature of an annotated function, as plain values.
//!
//! The transform never looks at a function's body: everything it reads is
//! collected here, one [`Param`] per parameter in declaration order, plus the
//! identifier, qualifiers, generic parameter list and where-clause as verbatim
//! text.

use vstd::prelude::*;
use vstd::string::StringExecFns;

verus! {

/// One parameter of the annotated function, classified by the shape of its
/// binding.
#[derive(Debug, Clone, PartialEq, Eq)]
pub enum Param {
    /// A receiver written as such (`self`, `&self`, `&mut self`, with or
    /// without modifiers); `text` is the whole parameter as written.
    Receiver { text: String },
    /// A parameter bound to a simple identifier; `text` is the whole
    /// parameter as written. A typed receiver such as `self: Arc<Self>`
    /// comes through here with `name` equal to `self`.
    Ident { name: String, text: String },
    /// A parameter bound to any other pattern: no argument name can be
    /// forwarded from it.
    Pattern { text: String },
}

/// The function descriptor: everything the transform reads of the annotated
/// item.
#[derive(Debug, PartialEq, Eq)]
pub struct FnSig {
    /// Whether the item is an asynchronous function.
    pub is_async: bool,
    /// The leading qualifiers, verbatim; empty when there are none.
    pub qualifiers: String,
    /// The function's identifier.
    pub ident: String,
    /// The generic parameter list, verbatim, without the surrounding angle
    /// brackets; empty when there is none.
    pub generics: String,
    /// The where-clause, verbatim, keyword included; empty when there is
    /// none.
    pub where_clause: String,
    /// The parameters, in declaration order.
    pub params: Vec<Param>,
}

/// The parameter's full text, as written.
pub open spec fn param_text(p: Param) -> Seq<char> {
    match p {
        Param::Receiver { text } => text@,
        Param::Ident { name: _, text } => text@,
        Param::Pattern { text } => text@,
    }
}

/// Whether the parameter stands for the receiver: either written as one, or
/// an identifier binding named `self`.
pub open spec fn is_receiver_param(p: Param) -> bool {
    match p {
        Param::Receiver { .. } => true,
        Param::Ident { name, .. } => name@ == "self"@,
        Param::Pattern { .. } => false,
    }
}

/// Whether a forwardable argument name can be taken from the parameter: it
/// binds a simple identifier and is not a receiver.
pub open spec fn is_forwarded_param(p: Param) -> bool {
    match p {
        Param::Ident { name, .. } => name@ != "self"@,
        _ => false,
    }
}

/// The identifier a forwarded parameter is bound to (empty for the others).
pub open spec fn param_name(p: Param) -> Seq<char> {
    match p {
        Param::Ident { name, .. } => name@,
        _ => Seq::empty(),
    }
}

/// Whether some parameter is a receiver, which decides the call form.
pub open spec fn has_receiver(ps: Seq<Param>) -> bool {
    exists|i: int| 0 <= i < ps.len() && is_receiver_param(ps[i])
}

/// Whether some parameter binds a pattern no argument name can be taken
/// from.
pub open spec fn has_pattern_param(ps: Seq<Param>) -> bool {
    exists|i: int| 0 <= i < ps.len() && ps[i] is Pattern
}

/// The forwarded argument names: one for each simple-identifier parameter
/// that is not a receiver, in declaration order.
pub open spec fn forwarded_names(ps: Seq<Param>) -> Seq<Seq<char>>
    decreases ps.len(),
{
    if ps.len() == 0 {
        Seq::empty()
    } else if is_forwarded_param(ps.last()) {
        forwarded_names(ps.drop_last()).push(param_name(ps.last()))
    } else {
        forwarded_names(ps.drop_last())
    }
}

/// The views of a list of strings.
pub open spec fn string_views(ss: Seq<String>) -> Seq<Seq<char>> {
    ss.map_values(|s: String| s@)
}

/// The texts of a list of parameters.
pub open spec fn param_texts(ps: Seq<Param>) -> Seq<Seq<char>> {
    ps.map_values(|p: Param| param_text(p))
}

/// The parameter's text, for building the emitted source.
pub fn text_of(p: &Param) -> (r: &str)
    ensures
        r@ == param_text(*p),
{
    match p {
        Param::Receiver { text } => text.as_str(),
        Param::Ident { name: _, text } => text.as_str(),
        Param::Pattern { text } => text.as_str(),
    }
}

/// Classify a parameter as the receiver: a written receiver, or an
/// identifier binding named `self`.
pub fn param_is_receiver(p: &Param) -> (b: bool)
    ensures
        b == is_receiver_param(*p),
{
    match p {
        Param::Receiver { .. } => true,
        Param::Ident { name, .. } => {
            let self_ident: String = String::from_str("self");
            *name == self_ident
        },
        Param::Pattern { .. } => false,
    }
}

/// Whether an argument name is forwarded from this parameter.
pub fn param_is_forwarded(p: &Param) -> (b: bool)
    ensures
        b == is_forwarded_param(*p),
{
    match p {
        Param::Ident { name, .. } => {
            let self_ident: String = String::from_str("self");
            !(*name == self_ident)
        },
        _ => false,
    }
}

/// Copy a parameter, spelled out so that the copy is known equal to the
/// original.
pub fn clone_param(p: &Param) -> (r: Param)
    ensures
        r == *p,
{
    match p {
        Param::Receiver { text } => Param::Receiver { text: text.clone() },
        Param::Ident { name, text } => Param::Ident { name: name.clone(), text: text.clone() },
        Param::Pattern { text } => Param::Pattern { text: text.clone() },
    }
}

/// Shape of the forwarded list: for a parameter list made of simple
/// identifiers, none of them a receiver, every name is forwarded, in
/// declaration order, whatever the parameters' types are.
pub proof fn lemma_forwarded_names_all_idents(ps: Seq<Param>)
    requires
        forall|i: int| 0 <= i < ps.len() ==> is_forwarded_param(#[trigger] ps[i]),
    ensures
        forwarded_names(ps).len() == ps.len(),
        forall|i: int| 0 <= i < ps.len() ==> forwarded_names(ps)[i] == param_name(#[trigger] ps[i]),
    decreases ps.len(),
{
    if ps.len() > 0 {
        assert forall|i: int| 0 <= i < ps.drop_last().len() implies is_forwarded_param(
            #[trigger] ps.drop_last()[i],
        ) by {
            assert(ps.drop_last()[i] == ps[i]);
        }
        lemma_forwarded_names_all_idents(ps.drop_last());
        assert(is_forwarded_param(ps.last()));
        assert forall|i: int| 0 <= i < ps.len() implies forwarded_names(ps)[i] == param_name(
            #[trigger] ps[i],
        ) by {
            if i < ps.len() - 1 {
                assert(ps.drop_last()[i] == ps[i]);
            } else {
                assert(ps[i] == ps.last());
            }
        }
    }
}

} // verus!
