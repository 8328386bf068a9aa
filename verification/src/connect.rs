use vstd::prelude::*;

use crate::fault::BringUpError;

verus! {

/// Settings for a station-mode WiFi link: the network to join and, when the
/// scan discovered it, the channel the network operates on.
pub struct WifiSettings {
    pub ssid: String,
    pub password: String,
    pub preferred_channel: Option<u8>,
}

/// The Ethernet transports a build may select; exactly one transport is
/// active per build.
#[derive(Clone, Copy, PartialEq, Eq, Structural, Debug)]
pub enum EthernetKind {
    OpenCores,
    RmiiPhy,
    SpiMac,
}

/// The one network transport of a build, chosen at configuration time and
/// consumed exactly once by the establisher.
pub enum InterfaceConfig {
    StationWifi(WifiSettings),
    EthernetTransport(EthernetKind),
}

impl InterfaceConfig {
    /// WiFi associates through an explicit connect call; an Ethernet link
    /// associates implicitly once started.
    pub open spec fn needs_explicit_connect(self) -> bool {
        self is StationWifi
    }
}

/// Address information read back from the interface once the lease completes.
#[derive(Clone, Copy, PartialEq, Eq, Structural, Debug)]
pub struct LeaseInfo {
    pub assigned_address: u32,
    pub subnet_prefix: u8,
    pub gateway_address: u32,
}

/// One entry from a WiFi scan: a visible network and its operating channel.
pub struct AccessPointInfo {
    pub ssid: String,
    pub channel: u8,
}

/// The operating channel of the first scanned network whose name matches.
pub open spec fn spec_channel_of(aps: Seq<AccessPointInfo>, ssid: Seq<char>) -> Option<u8>
    decreases aps.len(),
{
    if aps.len() == 0 {
        None
    } else if aps[0].ssid@ == ssid {
        Some(aps[0].channel)
    } else {
        spec_channel_of(aps.drop_first(), ssid)
    }
}

/// Picks the channel to configure: the channel of the known network when the
/// scan found it, none otherwise (bring-up then proceeds with a default
/// channel rather than failing).
pub fn select_channel(scan: &Vec<AccessPointInfo>, ssid: &String) -> (r: Option<u8>)
    ensures
        r == spec_channel_of(scan@, ssid@),
{
    let mut i: usize = 0;
    proof {
        assert(scan@.skip(0) =~= scan@);
    }
    while i < scan.len()
        invariant
            i <= scan.len(),
            spec_channel_of(scan@, ssid@) == spec_channel_of(scan@.skip(i as int), ssid@),
        decreases scan.len() - i,
    {
        if scan[i].ssid == *ssid {
            return Some(scan[i].channel);
        }
        proof {
            assert(scan@.skip(i as int).drop_first() =~= scan@.skip(i as int + 1));
        }
        i += 1;
    }
    proof {
        assert(scan@.skip(scan@.len() as int).len() == 0);
    }
    None
}

impl WifiSettings {
    /// Applies the scan outcome to the configuration: adopts the operating
    /// channel of the known network when the scan found it, and keeps none
    /// otherwise, so bring-up proceeds with a default channel rather than
    /// failing.
    pub fn adopt_scanned_channel(&mut self, scan: &Vec<AccessPointInfo>)
        ensures
            final(self).ssid == old(self).ssid,
            final(self).password == old(self).password,
            final(self).preferred_channel == spec_channel_of(scan@, old(self).ssid@),
    {
        let channel = select_channel(scan, &self.ssid);
        self.preferred_channel = channel;
    }
}

/// One step of the uniform blocking bring-up protocol. Every transport walks
/// the same sequence; only WiFi has an explicit Connect step.
#[derive(Clone, Copy, PartialEq, Eq, Structural, Debug)]
pub enum BringUpStep {
    Construct,
    Configure,
    Start,
    Connect,
    WaitLease,
}

/// How far the interface has come along the bring-up protocol.
#[derive(Clone, Copy, PartialEq, Eq, Structural, Debug)]
pub enum Phase {
    Initial,
    Constructed,
    Configured,
    Started,
    Connected,
    Leased,
}

/// The error a failure of a given step classifies as: driver construction and
/// configuration failures are hardware faults; start, associate and lease
/// failures are link faults. All are fatal and none is retried.
pub open spec fn spec_failure_of(step: BringUpStep) -> BringUpError {
    match step {
        BringUpStep::Construct => BringUpError::HardwareFault,
        BringUpStep::Configure => BringUpError::HardwareFault,
        BringUpStep::Start => BringUpError::LinkFault,
        BringUpStep::Connect => BringUpError::LinkFault,
        BringUpStep::WaitLease => BringUpError::LinkFault,
    }
}

/// Drives one network interface from unconfigured to "address leased" through
/// the uniform blocking protocol. The surrounding program performs each
/// pending driver call and reports its outcome back; a reported failure is
/// fatal and leaves the establisher where it stood.
pub struct Establisher {
    pub config: InterfaceConfig,
    pub phase: Phase,
    pub lease: Option<LeaseInfo>,
}

impl Establisher {
    /// Well-formedness: a lease is held exactly in the leased phase, and only
    /// a transport with an explicit connect call passes through Connected.
    pub open spec fn wf(self) -> bool {
        &&& self.lease is Some <==> self.phase is Leased
        &&& self.phase is Connected ==> self.config.needs_explicit_connect()
    }

    /// The driver call the surrounding program must perform next, or `None`
    /// once the lease is held and bring-up is complete.
    pub open spec fn spec_next_step(self) -> Option<BringUpStep> {
        match self.phase {
            Phase::Initial => Some(BringUpStep::Construct),
            Phase::Constructed => Some(BringUpStep::Configure),
            Phase::Configured => Some(BringUpStep::Start),
            Phase::Started => if self.config.needs_explicit_connect() {
                Some(BringUpStep::Connect)
            } else {
                Some(BringUpStep::WaitLease)
            },
            Phase::Connected => Some(BringUpStep::WaitLease),
            Phase::Leased => None,
        }
    }

    /// The phase reached when the pending step (other than the lease wait)
    /// succeeds.
    pub open spec fn spec_phase_on_success(self) -> Phase {
        match self.phase {
            Phase::Initial => Phase::Constructed,
            Phase::Constructed => Phase::Configured,
            Phase::Configured => Phase::Started,
            Phase::Started => if self.config.needs_explicit_connect() {
                Phase::Connected
            } else {
                Phase::Started
            },
            Phase::Connected => Phase::Connected,
            Phase::Leased => Phase::Leased,
        }
    }

    pub fn new(config: InterfaceConfig) -> (r: Establisher)
        ensures
            r.config == config,
            r.phase is Initial,
            r.lease is None,
            r.wf(),
    {
        Establisher { config, phase: Phase::Initial, lease: None }
    }

    /// The pending driver call.
    pub fn next_step(&self) -> (r: Option<BringUpStep>)
        ensures
            r == self.spec_next_step(),
    {
        match self.phase {
            Phase::Initial => Some(BringUpStep::Construct),
            Phase::Constructed => Some(BringUpStep::Configure),
            Phase::Configured => Some(BringUpStep::Start),
            Phase::Started => {
                match &self.config {
                    InterfaceConfig::StationWifi(_) => Some(BringUpStep::Connect),
                    InterfaceConfig::EthernetTransport(_) => Some(BringUpStep::WaitLease),
                }
            },
            Phase::Connected => Some(BringUpStep::WaitLease),
            Phase::Leased => None,
        }
    }

    /// Advances the protocol after the surrounding program reports that the
    /// pending step succeeded. The lease wait completes through
    /// `record_lease` instead, since its success carries the lease data.
    pub fn record_success(&mut self)
        requires
            old(self).wf(),
            old(self).spec_next_step() is Some,
            old(self).spec_next_step()->0 != BringUpStep::WaitLease,
        ensures
            final(self).config == old(self).config,
            final(self).lease == old(self).lease,
            final(self).phase == old(self).spec_phase_on_success(),
            final(self).wf(),
    {
        self.phase = match self.phase {
            Phase::Initial => Phase::Constructed,
            Phase::Constructed => Phase::Configured,
            Phase::Configured => Phase::Started,
            Phase::Started => Phase::Connected,
            Phase::Connected => Phase::Connected,
            Phase::Leased => Phase::Leased,
        };
    }

    /// Completes bring-up after the lease wait ended: records the address
    /// information read back from the interface.
    pub fn record_lease(&mut self, lease: LeaseInfo)
        requires
            old(self).wf(),
            old(self).spec_next_step() == Some(BringUpStep::WaitLease),
        ensures
            final(self).config == old(self).config,
            final(self).phase is Leased,
            final(self).lease == Some(lease),
            final(self).wf(),
            final(self).spec_next_step() is None,
    {
        self.phase = Phase::Leased;
        self.lease = Some(lease);
    }

    /// Classifies a failure of the pending step. The establisher itself is
    /// left unchanged: every bring-up failure is fatal and unwinds the run.
    pub fn classify_failure(&self) -> (e: BringUpError)
        requires
            self.spec_next_step() is Some,
        ensures
            e == spec_failure_of(self.spec_next_step()->0),
    {
        match self.next_step() {
            Some(BringUpStep::Construct) => BringUpError::HardwareFault,
            Some(BringUpStep::Configure) => BringUpError::HardwareFault,
            _ => BringUpError::LinkFault,
        }
    }

    /// The lease, once bring-up is complete.
    pub fn lease_info(&self) -> (r: Option<LeaseInfo>)
        ensures
            r == self.lease,
    {
        self.lease
    }
}

/// How many protocol phases still lie ahead.
pub open spec fn phase_rank(p: Phase) -> nat {
    match p {
        Phase::Initial => 5,
        Phase::Constructed => 4,
        Phase::Configured => 3,
        Phase::Started => 2,
        Phase::Connected => 1,
        Phase::Leased => 0,
    }
}

/// The driver calls still ahead of the establisher, in the order success
/// walks them; the lease wait is always last.
pub open spec fn spec_steps_from(e: Establisher) -> Seq<BringUpStep>
    decreases phase_rank(e.phase),
{
    match e.spec_next_step() {
        None => Seq::<BringUpStep>::empty(),
        Some(s) => if s is WaitLease {
            seq![s]
        } else {
            seq![s] + spec_steps_from(
                Establisher { config: e.config, phase: e.spec_phase_on_success(), lease: e.lease },
            )
        },
    }
}

/// Law: the bring-up protocol is uniform across transports. From the start,
/// a WiFi interface walks construct, configure, start, connect, lease wait;
/// an Ethernet transport walks the same sequence with the connect step
/// implicit in starting the link.
pub proof fn lemma_uniform_protocol(e: Establisher)
    requires
        e.phase is Initial,
    ensures
        e.config.needs_explicit_connect() ==> spec_steps_from(e) =~= seq![
            BringUpStep::Construct,
            BringUpStep::Configure,
            BringUpStep::Start,
            BringUpStep::Connect,
            BringUpStep::WaitLease,
        ],
        !e.config.needs_explicit_connect() ==> spec_steps_from(e) =~= seq![
            BringUpStep::Construct,
            BringUpStep::Configure,
            BringUpStep::Start,
            BringUpStep::WaitLease,
        ],
{
    let e1 = Establisher { config: e.config, phase: Phase::Constructed, lease: e.lease };
    let e2 = Establisher { config: e.config, phase: Phase::Configured, lease: e.lease };
    let e3 = Establisher { config: e.config, phase: Phase::Started, lease: e.lease };
    let e4 = Establisher { config: e.config, phase: Phase::Connected, lease: e.lease };
    assert(spec_steps_from(e) == seq![BringUpStep::Construct] + spec_steps_from(e1));
    assert(spec_steps_from(e1) == seq![BringUpStep::Configure] + spec_steps_from(e2));
    assert(spec_steps_from(e2) == seq![BringUpStep::Start] + spec_steps_from(e3));
    if e.config.needs_explicit_connect() {
        assert(spec_steps_from(e3) == seq![BringUpStep::Connect] + spec_steps_from(e4));
        assert(spec_steps_from(e4) == seq![BringUpStep::WaitLease]);
    } else {
        assert(spec_steps_from(e3) == seq![BringUpStep::WaitLease]);
    }
}

/// A transport without an explicit connect call never has Connect pending:
/// for Ethernet, association is implicit in starting the link.
pub proof fn lemma_connect_only_when_explicit(e: Establisher)
    requires
        e.wf(),
        !e.config.needs_explicit_connect(),
    ensures
        e.spec_next_step() != Some(BringUpStep::Connect),
{
}

} // verus!
