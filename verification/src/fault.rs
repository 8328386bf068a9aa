use vstd::prelude::*;

verus! {

/// Classified failures of the bring-up sequence. All of them are fatal to
/// bring-up: none is retried, and any one of them terminates the run.
#[derive(Clone, Copy, PartialEq, Eq, Structural, Debug)]
pub enum BringUpError {
    /// Peripheral or driver construction/configuration failed.
    HardwareFault,
    /// The interface failed to start, associate, or obtain an address lease.
    LinkFault,
    /// The probe exchange against the gateway lost at least one packet.
    UnreachableGateway,
}

impl BringUpError {
    /// A short human-readable description of the failure.
    pub fn description(&self) -> (r: &'static str)
        ensures
            self is HardwareFault ==> r@ == "peripheral unavailable or misconfigured"@,
            self is LinkFault ==> r@ == "network interface failed to come up"@,
            self is UnreachableGateway ==> r@ == "gateway did not answer every probe"@,
    {
        match self {
            BringUpError::HardwareFault => "peripheral unavailable or misconfigured",
            BringUpError::LinkFault => "network interface failed to come up",
            BringUpError::UnreachableGateway => "gateway did not answer every probe",
        }
    }
}

} // verus!
