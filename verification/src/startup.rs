//! Auto-start on login via the per-user `Run` registry key.
//!
//! The registry itself is reached by the caller; this module decides what to
//! write or delete and how each registry status code is answered.

use vstd::prelude::*;

use crate::text::{decimal, push_decimal, to_wide, utf16_encode};

verus! {

/// `HKCU\Software\Microsoft\Windows\CurrentVersion\Run`
pub const RUN_SUBKEY: &'static str = "Software\\Microsoft\\Windows\\CurrentVersion\\Run";

/// The registry value name used to identify this application.
pub const VALUE_NAME: &'static str = "real_live_wall";

/// `ERROR_SUCCESS`
pub const ERROR_SUCCESS: u32 = 0;

/// `ERROR_FILE_NOT_FOUND`
pub const ERROR_FILE_NOT_FOUND: u32 = 2;

/// What to do to the `Run` key.
#[derive(Clone, Debug, PartialEq, Eq)]
pub enum AutostartRequest {
    /// Open (creating if absent) `subkey` and set `value_name` to the
    /// `REG_SZ` `data` (NUL-terminated UTF-16, passed as its raw bytes).
    Write { subkey: Vec<u16>, value_name: Vec<u16>, data: Vec<u16> },
    /// Open `subkey` for writing and delete `value_name`.
    Delete { subkey: Vec<u16>, value_name: Vec<u16> },
}

/// Why enabling or disabling auto-start failed (with the Win32 error code).
#[derive(Clone, Copy, Debug, PartialEq, Eq, Structural)]
pub enum AutostartError {
    CreateKey(u32),
    SetValue(u32),
    DeleteValue(u32),
}

pub open spec fn wide_of(s: Seq<char>) -> Seq<u16> {
    utf16_encode(s).push(0)
}

/// Enable or disable auto-start on login: when `enabled`, write `command`
/// (already quoted by the caller: exe path + any args) as the `real_live_wall`
/// value; otherwise delete that value.
pub fn set_autostart(enabled: bool, command: &str) -> (r: AutostartRequest)
    ensures
        enabled ==> (r matches AutostartRequest::Write { subkey, value_name, data } && subkey@
            == wide_of(RUN_SUBKEY@) && value_name@ == wide_of(VALUE_NAME@) && data@ == wide_of(
            command@,
        )),
        !enabled ==> (r matches AutostartRequest::Delete { subkey, value_name } && subkey@
            == wide_of(RUN_SUBKEY@) && value_name@ == wide_of(VALUE_NAME@)),
{
    let subkey = to_wide(RUN_SUBKEY);
    let value_name = to_wide(VALUE_NAME);
    if enabled {
        AutostartRequest::Write { subkey, value_name, data: to_wide(command) }
    } else {
        AutostartRequest::Delete { subkey, value_name }
    }
}

/// How a request ends, given the Win32 status of opening (or creating) the
/// key and of the set/delete that follows it.
pub open spec fn spec_autostart_outcome(
    enabled: bool,
    open_status: u32,
    op_status: u32,
) -> Result<(), AutostartError> {
    if enabled {
        if open_status != ERROR_SUCCESS {
            Err(AutostartError::CreateKey(open_status))
        } else if op_status != ERROR_SUCCESS {
            Err(AutostartError::SetValue(op_status))
        } else {
            Ok(())
        }
    } else {
        if open_status == ERROR_FILE_NOT_FOUND {
            // Nothing there to delete.
            Ok(())
        } else if open_status != ERROR_SUCCESS {
            Err(AutostartError::CreateKey(open_status))
        } else if op_status == ERROR_SUCCESS || op_status == ERROR_FILE_NOT_FOUND {
            Ok(())
        } else {
            Err(AutostartError::DeleteValue(op_status))
        }
    }
}

/// Answer a request from the registry's status codes: `open_status` from
/// opening/creating the key, `op_status` from the set or delete (ignored when
/// the open failed). Only "not found" is ignored, when deleting: a value that
/// is not there is not an error; any other failure, to open the key or to
/// delete the value, is.
pub fn autostart_outcome(
    enabled: bool,
    open_status: u32,
    op_status: u32,
) -> (r: Result<(), AutostartError>)
    ensures
        r == spec_autostart_outcome(enabled, open_status, op_status),
        enabled ==> (r is Ok <==> open_status == ERROR_SUCCESS && op_status == ERROR_SUCCESS),
        !enabled && open_status == ERROR_SUCCESS ==> (r is Ok <==> (op_status == ERROR_SUCCESS
            || op_status == ERROR_FILE_NOT_FOUND)),
        !enabled && open_status == ERROR_SUCCESS && r is Err ==> r == Err::<(), AutostartError>(
            AutostartError::DeleteValue(op_status),
        ),
{
    if enabled {
        if open_status != ERROR_SUCCESS {
            Err(AutostartError::CreateKey(open_status))
        } else if op_status != ERROR_SUCCESS {
            Err(AutostartError::SetValue(op_status))
        } else {
            Ok(())
        }
    } else {
        if open_status == ERROR_FILE_NOT_FOUND {
            Ok(())
        } else if open_status != ERROR_SUCCESS {
            Err(AutostartError::CreateKey(open_status))
        } else if op_status == ERROR_SUCCESS || op_status == ERROR_FILE_NOT_FOUND {
            Ok(())
        } else {
            Err(AutostartError::DeleteValue(op_status))
        }
    }
}

/// Turning auto-start off with the key open succeeds exactly when the
/// delete succeeded or found no value, and otherwise fails with the
/// delete's own status; turning it on succeeds exactly when opening the key
/// and writing the value both succeeded.
pub proof fn lemma_autostart_outcome_law(enabled: bool, open_status: u32, op_status: u32)
    ensures
        !enabled && open_status == ERROR_SUCCESS ==> {
            &&& spec_autostart_outcome(false, open_status, op_status) is Ok <==> (op_status == 0
                || op_status == 2)
            &&& !(op_status == 0 || op_status == 2) ==> spec_autostart_outcome(
                false,
                open_status,
                op_status,
            ) == Err::<(), AutostartError>(AutostartError::DeleteValue(op_status))
        },
        enabled ==> (spec_autostart_outcome(true, open_status, op_status) is Ok <==> (open_status
            == 0 && op_status == 0)),
{
}

/// Disabling is idempotent: once the key opens (or is reported absent),
/// removing an absent value succeeds.
pub proof fn lemma_disable_idempotent(open_status: u32)
    requires
        open_status == ERROR_SUCCESS || open_status == ERROR_FILE_NOT_FOUND,
    ensures
        spec_autostart_outcome(false, open_status, ERROR_FILE_NOT_FOUND) is Ok,
{
}

/// Whether the `real_live_wall` value exists, given the status of querying it
/// (`None` if the `Run` key could not be opened for reading).
pub fn autostart_enabled(query_status: Option<u32>) -> (r: bool)
    ensures
        r == (query_status == Some(ERROR_SUCCESS)),
{
    match query_status {
        Some(s) => s == ERROR_SUCCESS,
        None => false,
    }
}

pub open spec fn error_message_parts(e: AutostartError) -> (Seq<char>, u32) {
    match e {
        AutostartError::CreateKey(c) => ("RegCreateKeyExW(Run): Win32 error "@, c),
        AutostartError::SetValue(c) => (
            "failed to write autostart value: RegSetValueExW(real_live_wall): Win32 error "@,
            c,
        ),
        AutostartError::DeleteValue(c) => ("RegDeleteValueW(real_live_wall): Win32 error "@, c),
    }
}

impl AutostartError {
    /// Human-readable description with the numeric Win32 code.
    pub fn message(&self) -> (r: String)
        ensures
            r@ == error_message_parts(*self).0 + decimal(error_message_parts(*self).1 as nat),
    {
        let (text, code) = match self {
            AutostartError::CreateKey(c) => ("RegCreateKeyExW(Run): Win32 error ", *c),
            AutostartError::SetValue(c) => (
                "failed to write autostart value: RegSetValueExW(real_live_wall): Win32 error ",
                *c,
            ),
            AutostartError::DeleteValue(c) => ("RegDeleteValueW(real_live_wall): Win32 error ", *c),
        };
        let mut s = String::from_str(text);
        push_decimal(&mut s, code as u64);
        s
    }
}

} // verus!
