//! The decisions behind the attribute form of tracing.
//!
//! An annotation carrying two string literals (category, event label) is
//! applied to a function declaration; the generated function keeps the
//! original's signature and runs the original body bracketed by a guard.
//! Every misuse is a build-time failure with a descriptive message, never a
//! runtime no-op: a wrong number of arguments is rejected, and so are
//! function shapes that cannot correctly bracket a scope — an asynchronous
//! body may suspend mid-scope, so the guard would measure wall time across
//! suspension gaps, and a compile-time-evaluated body has no runtime scope
//! for the guard's side effects to run in.
//!
//! This module holds the decisions themselves: which inputs are rejected,
//! with which diagnostic, and what the accepted ones are transformed into.
//! The surrounding token plumbing is the embedding's concern.

use vstd::prelude::*;

verus! {

/// A misuse of the tracing annotation, reported at build time.
#[derive(Debug)]
pub enum MacroError {
    /// The annotation's arguments are not exactly two strings.
    WrongArgumentCount,
    /// The annotated function is declared asynchronous.
    AsyncFunction,
    /// The annotated function is restricted to compile-time evaluation.
    ConstFunction,
}

impl MacroError {
    /// The diagnostic the build failure carries; it names the disallowed
    /// modifier where one is the cause.
    pub fn message(&self) -> (r: &str)
        ensures
            self is WrongArgumentCount ==> r@ == "`trace` macro requires two strings as arguments"@,
            self is AsyncFunction ==> r@ == "tracing async functions is not supported"@,
            self is ConstFunction ==> r@ == "tracing const functions is not supported"@,
    {
        match self {
            MacroError::WrongArgumentCount => "`trace` macro requires two strings as arguments",
            MacroError::AsyncFunction => "tracing async functions is not supported",
            MacroError::ConstFunction => "tracing const functions is not supported",
        }
    }
}

/// The two strings a well-formed annotation carries.
#[derive(Debug)]
pub struct TraceArgs {
    /// The category the traced interval is filed under.
    pub category: String,
    /// The event label the interval's identity derives from.
    pub event: String,
}

/// The shape of the annotated function, as far as the annotation cares.
#[derive(Clone, Copy)]
pub struct FnShape {
    /// Whether the function is declared asynchronous.
    pub is_async: bool,
    /// Whether the function is restricted to compile-time evaluation.
    pub is_const: bool,
}

/// How an accepted annotation rewrites the function: the generated function
/// keeps the original signature unchanged, and its body first creates a
/// guard for `(category, event)` bound to a name that lives for the whole
/// body, then runs the original body, so the guard finalizes exactly once
/// when the body's scope ends by any path.
#[derive(Debug)]
pub struct InstrumentationPlan {
    /// The category handed to the guard.
    pub category: String,
    /// The event label handed to the guard.
    pub event: String,
}

/// Reads the annotation's arguments: exactly two string literals are
/// accepted, the first as category, the second as event label.
pub fn parse_args(literals: &Vec<String>) -> (r: Result<TraceArgs, MacroError>)
    ensures
        literals@.len() == 2 <==> r is Ok,
        r matches Ok(args) ==> args.category@ == literals@[0]@ && args.event@ == literals@[1]@,
        r matches Err(e) ==> e is WrongArgumentCount,
{
    if literals.len() != 2 {
        return Err(MacroError::WrongArgumentCount);
    }
    let category = literals[0].clone();
    let event = literals[1].clone();
    Ok(TraceArgs { category, event })
}

/// Decides whether a function of the given shape can be instrumented:
/// asynchronous and compile-time-evaluated functions are rejected, the
/// asynchronous modifier being reported first when both apply.
pub fn check_shape(shape: FnShape) -> (r: Result<(), MacroError>)
    ensures
        r is Ok <==> !shape.is_async && !shape.is_const,
        shape.is_async ==> (r matches Err(e) && e is AsyncFunction),
        !shape.is_async && shape.is_const ==> (r matches Err(e) && e is ConstFunction),
{
    if shape.is_async {
        return Err(MacroError::AsyncFunction);
    }
    if shape.is_const {
        return Err(MacroError::ConstFunction);
    }
    Ok(())
}

/// Turns an accepted annotation into the rewrite to apply: the arguments
/// must be exactly two strings and the function shape must be traceable;
/// the plan then carries the two strings through unchanged.
pub fn plan(literals: &Vec<String>, shape: FnShape) -> (r: Result<InstrumentationPlan, MacroError>)
    ensures
        r is Ok <==> literals@.len() == 2 && !shape.is_async && !shape.is_const,
        r matches Ok(p) ==> p.category@ == literals@[0]@ && p.event@ == literals@[1]@,
        r matches Err(e) ==> {
            &&& e is WrongArgumentCount <==> literals@.len() != 2
            &&& e is AsyncFunction <==> literals@.len() == 2 && shape.is_async
            &&& e is ConstFunction <==> literals@.len() == 2 && !shape.is_async && shape.is_const
        },
{
    let args = match parse_args(literals) {
        Ok(args) => args,
        Err(e) => {
            return Err(e);
        },
    };
    match check_shape(shape) {
        Ok(()) => Ok(InstrumentationPlan { category: args.category, event: args.event }),
        Err(e) => Err(e),
    }
}

} // verus!
