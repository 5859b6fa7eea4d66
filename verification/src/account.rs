use vstd::prelude::*;

verus! {

/// An opaque account identifier, as the host ledger hands it to the engine.
/// The engine never inspects it; it is only stored and compared.
#[derive(Clone, Copy, Debug, PartialEq, Eq, Hash, Structural)]
pub struct AccountId(pub u64);

} // verus!
