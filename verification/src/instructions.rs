//! The program's one instruction and its handler.

use crate::context::Context;
use crate::program_id::ProgramId;
use vstd::prelude::*;

verus! {

/// `anchor_lang::error::Error`, the error of the framework's `Result`.
/// Handlers return it; nothing here makes one or looks inside one.
#[verifier::external_type_specification]
#[verifier::external_body]
pub struct ExError(anchor_lang::error::Error);

/// The accounts of the `initialize` instruction: there are none.
pub struct Initialize {}

/// What every greeting starts with.
pub const GREETING_PREFIX: &'static str = "Greetings from: ";

/// The line that greets from the program whose identifier reads `id_text`.
pub open spec fn greeting_text(id_text: Seq<char>) -> Seq<char> {
    GREETING_PREFIX@ + id_text
}

/// Whether `needle` occurs in `hay` as a run of consecutive characters.
pub open spec fn occurs_in(needle: Seq<char>, hay: Seq<char>) -> bool {
    exists|at: int|
        {
            &&& 0 <= at
            &&& at + needle.len() <= hay.len()
            &&& #[trigger] hay.subrange(at, at + needle.len()) == needle
        }
}

/// The lines of a log, each as its characters.
pub open spec fn lines_of(log: Seq<String>) -> Seq<Seq<char>> {
    log.map_values(|line: String| line@)
}

/// A greeting holds, as text, the identifier it greets from.
pub proof fn lemma_greeting_names_program(id: ProgramId)
    ensures
        occurs_in(id.text(), greeting_text(id.text())),
{
    let start = GREETING_PREFIX@.len() as int;
    let line = greeting_text(id.text());
    assert(line.subrange(start, start + id.text().len()) =~= id.text());
}

/// Builds the greeting for an identifier given as text.
pub fn greeting(id_text: &str) -> (line: String)
    ensures
        line@ == greeting_text(id_text@),
{
    String::from_str(GREETING_PREFIX).concat(id_text)
}

/// Handles `initialize`: appends to `log` one line, the greeting from the
/// running program, and succeeds. It never fails, and it leaves the accounts
/// and the earlier lines of the log as they were.
pub fn initialize(ctx: Context<'_, Initialize>, log: &mut Vec<String>) -> (result: Result<
    (),
    anchor_lang::error::Error,
>)
    ensures
        result is Ok,
        lines_of(final(log)@) == lines_of(old(log)@).push(greeting_text(ctx.program_id.text())),
        occurs_in(ctx.program_id.text(), final(log)@.last()@),
        *final(ctx.accounts) == *old(ctx.accounts),
{
    let id_text = ctx.program_id.to_text();
    let line = greeting(id_text.as_str());
    proof {
        lemma_greeting_names_program(*ctx.program_id);
    }
    log.push(line);
    assert(lines_of(log@) =~= lines_of(old(log)@).push(line@));
    Ok(())
}

} // verus!
