//! The cancellation signal that stops a renewal task.
//!
//! The signal is `tokio_util::sync::CancellationToken`. Verus cannot look
//! inside it, so this module declares the type and states, without proof, the
//! little that the verified code relies on.

use tokio_util::sync::CancellationToken;
use vstd::prelude::*;

verus! {

#[verifier::external_type_specification]
#[verifier::external_body]
pub struct ExCancellationToken(CancellationToken);

/// `CancellationToken::new` makes a token of its own, not yet cancelled.
/// Nothing is claimed of the value.
pub assume_specification[ CancellationToken::new ]() -> (token: CancellationToken);

/// `CancellationToken::clone`: the clone equals the token it was made from.
/// For this type equality means that cancelling either one cancels both.
pub assume_specification[ <CancellationToken as Clone>::clone ](
    token: &CancellationToken,
) -> (twin: CancellationToken)
    ensures
        twin == *token,
;

/// `CancellationToken::cancel` wakes every task that waits on the token or on
/// a clone of it. It returns nothing, and nothing is claimed of it.
pub assume_specification[ CancellationToken::cancel ](token: &CancellationToken);

} // verus!
