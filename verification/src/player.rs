use vstd::prelude::*;

verus! {

/// Identity of a participant.
///
/// The host ledger addresses participants by an opaque account key; this core
/// only ever stores an identity and compares it for equality, so it carries
/// the identity as a plain number. The runtime that embeds the core maps each
/// ledger address to one such identifier.
#[derive(Clone, Copy, PartialEq, Eq, Structural, Debug)]
pub struct PlayerId(pub u64);

} // verus!
