use vstd::prelude::*;

use crate::fault::BringUpError;

verus! {

/// Outcome of one bounded probe exchange against a target address: how many
/// probe packets were sent and how many answers came back. Ephemeral, computed
/// once per probe call; the prober itself is stateless and single-shot.
#[derive(Clone, Copy, PartialEq, Eq, Structural, Debug)]
pub struct ProbeResult {
    pub transmitted: u32,
    pub received: u32,
}

impl ProbeResult {
    /// The health invariant: every probe that was sent came back.
    pub open spec fn healthy(self) -> bool {
        self.received == self.transmitted
    }

    pub fn new(transmitted: u32, received: u32) -> (r: ProbeResult)
        ensures
            r.transmitted == transmitted,
            r.received == received,
    {
        ProbeResult { transmitted, received }
    }

    /// Reports whether the link is healthy: no probe was lost.
    pub fn is_healthy(&self) -> (r: bool)
        ensures
            r == self.healthy(),
    {
        self.received == self.transmitted
    }

    /// Classifies the exchange: `Ok` exactly when no probe was lost; any
    /// single lost packet makes the gateway count as unreachable.
    pub fn check(&self) -> (r: Result<(), BringUpError>)
        ensures
            r is Ok <==> self.healthy(),
            r is Err ==> r->Err_0 == BringUpError::UnreachableGateway,
    {
        if self.received == self.transmitted {
            Ok(())
        } else {
            Err(BringUpError::UnreachableGateway)
        }
    }
}

} // verus!
