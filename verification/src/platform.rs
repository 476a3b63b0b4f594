//! What to tell the user when the operating system refuses to run a worker.

use vstd::prelude::*;
use crate::error::name_of;
use crate::error::worker_name;
use crate::error::CoreError;
use crate::text::decimal;
use crate::text::decimal_digits;

verus! {

/// The kinds of operating system that the client knows advice for.
#[derive(Clone, Copy, Debug, PartialEq, Eq, Structural)]
pub enum OsKind {
    MacOs,
    Linux,
    Windows,
    Other,
}

/// The advice for a binary that the system refused to execute; none for a
/// system that the client knows no advice for.
pub open spec fn remediation_of(os: OsKind, binary: Seq<char>) -> Option<Seq<char>> {
    match os {
        OsKind::MacOs => Some(
            "macOS blocked the '"@ + binary
                + "' binary from running.\n\nTo fix:\n1. Open System Settings > Privacy & Security\n2. Scroll down to 'Security'\n3. Click 'Allow Anyway' next to '"@
                + binary + "'\n4. Then restart the app."@,
        ),
        OsKind::Linux => Some(
            "Linux blocked the '"@ + binary
                + "' binary from executing.\n\nTry running:\n  chmod +x "@ + binary
                + "\nOr ensure it has the correct execution permissions."@,
        ),
        OsKind::Windows => Some(
            "Windows prevented the '"@ + binary
                + "' binary from running.\n\nTry:\n1. Right-click the binary\n2. Choose 'Properties'\n3. Under the 'General' tab, click 'Unblock' if available\n4. Apply and try again."@,
        ),
        OsKind::Other => None,
    }
}

/// The advice to show when the system refused to execute `binary_name`.
pub fn remediation_text(os: OsKind, binary_name: &str) -> (r: Option<String>)
    ensures
        r is Some == remediation_of(os, binary_name@) is Some,
        r matches Some(text) ==> Some(text@) == remediation_of(os, binary_name@),
{
    match os {
        OsKind::MacOs => {
            let mut text = String::from_str("macOS blocked the '");
            text.append(binary_name);
            text.append(
                "' binary from running.\n\nTo fix:\n1. Open System Settings > Privacy & Security\n2. Scroll down to 'Security'\n3. Click 'Allow Anyway' next to '",
            );
            text.append(binary_name);
            text.append("'\n4. Then restart the app.");
            Some(text)
        },
        OsKind::Linux => {
            let mut text = String::from_str("Linux blocked the '");
            text.append(binary_name);
            text.append("' binary from executing.\n\nTry running:\n  chmod +x ");
            text.append(binary_name);
            text.append("\nOr ensure it has the correct execution permissions.");
            Some(text)
        },
        OsKind::Windows => {
            let mut text = String::from_str("Windows prevented the '");
            text.append(binary_name);
            text.append(
                "' binary from running.\n\nTry:\n1. Right-click the binary\n2. Choose 'Properties'\n3. Under the 'General' tab, click 'Unblock' if available\n4. Apply and try again.",
            );
            Some(text)
        },
        OsKind::Other => None,
    }
}

/// The kind of operating system that goes by `name`.
pub open spec fn os_kind_for(name: Seq<char>) -> OsKind {
    if name == "macos"@ {
        OsKind::MacOs
    } else if name == "linux"@ {
        OsKind::Linux
    } else if name == "windows"@ {
        OsKind::Windows
    } else {
        OsKind::Other
    }
}

/// The kind of operating system that goes by `name`, as the standard
/// library names the system it was built for.
pub fn os_kind_of(name: &str) -> (os: OsKind)
    ensures
        os == os_kind_for(name@),
{
    let name = String::from_str(name);
    if name == String::from_str("macos") {
        OsKind::MacOs
    } else if name == String::from_str("linux") {
        OsKind::Linux
    } else if name == String::from_str("windows") {
        OsKind::Windows
    } else {
        OsKind::Other
    }
}

/// What the user is told in a dialog when a start fails: which port is
/// occupied, or how to let a refused binary run. Other failures have no
/// dialog.
pub open spec fn notice_of(os: OsKind, error: CoreError) -> Option<Seq<char>> {
    match error {
        CoreError::PortInUse(role, port) => Some(
            "Port "@ + decimal_digits(port as nat)
                + " is already in use by another process. Cannot start '"@ + name_of(role)
                + "'."@,
        ),
        CoreError::PermissionDenied(role) => remediation_of(os, name_of(role)),
        _ => None,
    }
}

/// What the user is told in a dialog when a start fails.
pub fn failure_notice(os: OsKind, error: &CoreError) -> (r: Option<String>)
    ensures
        r is Some == notice_of(os, *error) is Some,
        r matches Some(text) ==> Some(text@) == notice_of(os, *error),
{
    match error {
        CoreError::PortInUse(role, port) => {
            let mut text = String::from_str("Port ");
            let digits = decimal(*port as u64);
            text.append(digits.as_str());
            text.append(" is already in use by another process. Cannot start '");
            text.append(worker_name(*role));
            text.append("'.");
            Some(text)
        },
        CoreError::PermissionDenied(role) => remediation_text(os, worker_name(*role)),
        _ => None,
    }
}

} // verus!
