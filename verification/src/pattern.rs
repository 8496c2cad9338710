//! The four flag-pattern categories and the two questions the engine
//! asks of a category: does a matched flag consume a following token as
//! its argument, and does satisfying it count toward the compulsory
//! completion requirement?

use vstd::prelude::*;

verus! {

/// Category of a registered flag pattern. `WithArg` and `WithoutArg`
/// are compulsory: a parse pass fails unless every such pattern is
/// matched. The two `Optional` variants may be omitted freely.
#[derive(Clone, Copy)]
pub enum PatternType {
    WithArg,
    WithoutArg,
    OptionalWithArg,
    OptionalWithoutArg,
}

/// Whether a pattern of this category consumes the token following its
/// flag as an argument.
pub open spec fn spec_need_arg(pat_type: PatternType) -> bool {
    match pat_type {
        PatternType::WithArg => true,
        PatternType::WithoutArg => false,
        PatternType::OptionalWithArg => true,
        PatternType::OptionalWithoutArg => false,
    }
}

/// Whether a pattern of this category is compulsory: it must be matched
/// for a parse pass to succeed.
pub open spec fn spec_is_compulsory(pat_type: PatternType) -> bool {
    match pat_type {
        PatternType::WithArg => true,
        PatternType::WithoutArg => true,
        PatternType::OptionalWithArg => false,
        PatternType::OptionalWithoutArg => false,
    }
}

/// Executable mirror of [`spec_need_arg`].
pub fn need_arg(pat_type: &PatternType) -> (r: bool)
    ensures
        r == spec_need_arg(*pat_type),
{
    match pat_type {
        PatternType::WithArg => true,
        PatternType::WithoutArg => false,
        PatternType::OptionalWithArg => true,
        PatternType::OptionalWithoutArg => false,
    }
}

/// Executable mirror of [`spec_is_compulsory`].
pub fn is_compulsory(pat_type: &PatternType) -> (r: bool)
    ensures
        r == spec_is_compulsory(*pat_type),
{
    match pat_type {
        PatternType::WithArg => true,
        PatternType::WithoutArg => true,
        PatternType::OptionalWithArg => false,
        PatternType::OptionalWithoutArg => false,
    }
}

} // verus!
