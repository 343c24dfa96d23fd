//! The VPN readiness protocol: the worker may not issue any request to
//! the outside world until the public IP it observes differs from the
//! unmasked IP the init container recorded. The decisions of the two
//! waiting loops live here; the shell performs the file reads, HTTP
//! probes and sleeps they call for.

use vstd::prelude::*;

verus! {

/// The probe deadline, in seconds. The VPN must connect and the public
/// IP must change within this window, or the executor gives up.
pub const VPN_TIMEOUT_SECS: u64 = 12;

/// One step of a readiness loop.
#[derive(Debug, Clone, Copy, PartialEq, Eq, Structural)]
pub enum VpnProbe {
    /// The condition is met; the worker may proceed.
    Ready,
    /// Not met yet; sleep and probe again.
    Retry,
    /// The deadline passed without the condition being met.
    TimedOut,
}

/// Decides one step of the wait for the unmasked-IP file: ready once the
/// file exists, retrying until the deadline.
pub fn initial_ip_step(file_found: bool, elapsed_secs: u64) -> (r: VpnProbe)
    ensures
        r == VpnProbe::Ready <==> file_found,
        r == VpnProbe::Retry <==> !file_found && elapsed_secs < 12,
        r == VpnProbe::TimedOut <==> !file_found && elapsed_secs >= 12,
{
    if file_found {
        VpnProbe::Ready
    } else if elapsed_secs < VPN_TIMEOUT_SECS {
        VpnProbe::Retry
    } else {
        VpnProbe::TimedOut
    }
}

/// Decides one step of the wait for the public IP to change: the worker
/// is cleared to talk to the outside world only once the observed IP
/// differs from the unmasked one.
pub fn ip_change_step(unmasked: &String, observed: &String, elapsed_secs: u64) -> (r: VpnProbe)
    ensures
        r == VpnProbe::Ready <==> observed@ != unmasked@,
        r == VpnProbe::Retry <==> observed@ == unmasked@ && elapsed_secs < 12,
        r == VpnProbe::TimedOut <==> observed@ == unmasked@ && elapsed_secs >= 12,
{
    if !observed.eq(unmasked) {
        VpnProbe::Ready
    } else if elapsed_secs < VPN_TIMEOUT_SECS {
        VpnProbe::Retry
    } else {
        VpnProbe::TimedOut
    }
}

} // verus!
