//! The sleep lock that the tray app holds while it runs.
use crate::text::push_str;
use vstd::prelude::*;

verus! {

/// The value of windows-sys's `ES_CONTINUOUS` (0x8000_0000 in its source):
/// the requested state stays until it is changed.
#[verifier::external_body]
fn es_continuous() -> (r: u32)
    ensures
        r == 0x8000_0000u32,
{
    windows_sys::Win32::System::Power::ES_CONTINUOUS
}

/// The value of windows-sys's `ES_SYSTEM_REQUIRED` (1 in its source): keeps
/// the system from sleeping on idle.
#[verifier::external_body]
fn es_system_required() -> (r: u32)
    ensures
        r == 1u32,
{
    windows_sys::Win32::System::Power::ES_SYSTEM_REQUIRED
}

/// The execution state that the tray thread requests: while the tray runs,
/// the system (not the display) is kept awake; afterwards only the
/// continuous flag remains, which releases the requirement.
pub fn execution_state_flags(tray_running: bool) -> (r: u32)
    ensures
        r == (if tray_running {
            0x8000_0001u32
        } else {
            0x8000_0000u32
        }),
        r & 2 == 0,
{
    let r = if tray_running {
        es_continuous() | es_system_required()
    } else {
        es_continuous()
    };
    assert(0x8000_0000u32 | 1u32 == 0x8000_0001u32) by (bit_vector);
    assert(0x8000_0001u32 & 2u32 == 0u32) by (bit_vector);
    assert(0x8000_0000u32 & 2u32 == 0u32) by (bit_vector);
    r
}

/// The request to Windows failed.
#[derive(Clone, Copy, Debug, PartialEq, Eq, Structural)]
pub struct PowerRequestFailed;

impl PowerRequestFailed {
    /// The text of the failure.
    pub fn message(self) -> (r: String)
        ensures
            r@ == "Windows-Energiesperre konnte nicht aktualisiert werden"@,
    {
        let mut s = String::new();
        push_str(&mut s, "Windows-Energiesperre konnte nicht aktualisiert werden");
        s
    }
}

/// The outcome of `SetThreadExecutionState`, which returns 0 on failure and
/// the previous state otherwise.
pub fn execution_state_result(previous: u32) -> (r: Result<(), PowerRequestFailed>)
    ensures
        r is Ok <==> previous != 0,
{
    if previous == 0 {
        Err(PowerRequestFailed)
    } else {
        Ok(())
    }
}

/// The tray's hold on the sleep lock. It exists only after Windows accepted
/// the request; the application releases the lock when it drops the guard.
#[derive(Debug)]
pub struct TrayPowerGuard {
    requested_flags: u32,
}

impl TrayPowerGuard {
    /// The guard for a request with the flags of a running tray, given what
    /// `SetThreadExecutionState` returned for it (0 on failure).
    pub fn acquire(request_result: u32) -> (r: Result<Self, PowerRequestFailed>)
        ensures
            r is Ok <==> request_result != 0,
            r matches Ok(g) ==> g.flags() == 0x8000_0001u32,
    {
        match execution_state_result(request_result) {
            Ok(()) => Ok(TrayPowerGuard { requested_flags: execution_state_flags(true) }),
            Err(e) => Err(e),
        }
    }

    pub closed spec fn flags(&self) -> u32 {
        self.requested_flags
    }

    /// The flags that releasing the guard requests.
    pub fn release_flags(&self) -> (r: u32)
        ensures
            r == 0x8000_0000u32,
    {
        execution_state_flags(false)
    }
}

} // verus!
