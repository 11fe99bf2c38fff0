//! What the host runtime hands to an instruction handler.

use crate::program_id::ProgramId;
use vstd::prelude::*;

verus! {

/// The non-argument inputs of one invocation.
pub struct Context<'a, T> {
    /// Identifier of the program that is running.
    pub program_id: &'a ProgramId,
    /// The accounts that the instruction declares, already validated.
    pub accounts: &'a mut T,
}

impl<'a, T> Context<'a, T> {
    /// Bundles the inputs of one invocation.
    pub fn new(program_id: &'a ProgramId, accounts: &'a mut T) -> (ctx: Self)
        ensures
            ctx.program_id == program_id,
            *ctx.accounts == *old(accounts),
            *final(ctx.accounts) == *final(accounts),
    {
        Context { program_id, accounts }
    }
}

} // verus!
