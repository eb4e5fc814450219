use vstd::prelude::*;

verus! {

/// Access into a protected type.
pub struct Type;

/// Access into a token.
pub struct Token;

/// Access into a function.
pub struct Function;

} // verus!
