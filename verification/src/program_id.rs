//! The program identifier: a fixed 32-byte address and its textual form.

use anchor_lang::solana_program::pubkey::Pubkey;
use vstd::prelude::*;

verus! {

/// Number of bytes in an identifier.
pub const ID_LEN: usize = 32;

/// The bytes of the identifier under which this program is deployed. As text
/// it reads `65eB9Pni2mbcafm3juEZgoN3P52CNwbnSKFChBy14K7D`.
pub const ID_BYTES: [u8; 32] = [
    75, 122, 202, 170, 249, 41, 209, 58, 245, 38, 139, 229, 242, 210, 40, 74,
    147, 109, 255, 56, 145, 250, 51, 255, 215, 215, 62, 22, 251, 13, 208, 232,
];

/// An address on the ledger, as its raw bytes.
#[derive(Clone, Copy, Debug)]
pub struct ProgramId {
    pub bytes: [u8; 32],
}

impl View for ProgramId {
    type V = Seq<u8>;

    /// An identifier is its sequence of bytes.
    open spec fn view(&self) -> Seq<u8> {
        self.bytes@
    }
}

/// The text that `Pubkey`'s `Debug` impl writes for the key made of `bytes`.
pub uninterp spec fn pubkey_text(bytes: Seq<u8>) -> Seq<char>;

/// Makes a `Pubkey` with `Pubkey::new_from_array` and formats it with its
/// `Debug` impl. Trusted: the text written depends on the 32 bytes alone, and
/// the contract gives it its name without saying which characters it holds.
#[verifier::external_body]
fn format_pubkey(bytes: &[u8; 32]) -> (text: String)
    ensures
        text@ == pubkey_text(bytes@),
{
    format!("{:?}", Pubkey::new_from_array(*bytes))
}

impl ProgramId {
    /// The identifier as text.
    pub open spec fn text(&self) -> Seq<char> {
        pubkey_text(self@)
    }

    /// Renders the identifier as text.
    pub fn to_text(&self) -> (text: String)
        ensures
            text@ == self.text(),
    {
        format_pubkey(&self.bytes)
    }
}

/// The identifier under which this program is deployed.
pub fn id() -> (id: ProgramId)
    ensures
        id@ == ID_BYTES@,
{
    ProgramId { bytes: ID_BYTES }
}

/// Tells whether `id` is this program's own identifier.
pub fn check_id(id: &ProgramId) -> (own: bool)
    ensures
        own <==> id@ == ID_BYTES@,
{
    let mut at: usize = 0;
    while at < ID_LEN
        invariant
            at <= ID_LEN,
            forall|k: int| 0 <= k < at ==> id@[k] == ID_BYTES@[k],
        decreases ID_LEN - at,
    {
        if id.bytes[at] != ID_BYTES[at] {
            return false;
        }
        at += 1;
    }
    assert(id@ =~= ID_BYTES@);
    true
}

} // verus!
