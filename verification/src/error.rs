//! Error type for tiling operations.
//!
//! One error enum covers initialization, lookup, accessibility, window
//! operation, observer, animation, FFI, timeout and IPC failures. Its
//! predicates classify an error, and [`TilingError::to_string`] renders the
//! message that users see.

use vstd::prelude::*;
use vstd::string::*;

use crate::text::{decimal, push_decimal, push_signed_decimal, signed_decimal};

verus! {

/// Result type alias for tiling operations.
pub type TilingResult<T> = Result<T, TilingError>;

/// The accessibility error code that means "not authorized".
pub const AX_NOT_AUTHORIZED: i32 = -25200;

/// Errors that can occur during tiling window management operations.
#[derive(Debug, Clone)]
pub enum TilingError {
    /// The tiling manager has not been initialized.
    NotInitialized,
    /// A workspace with the given name was not found.
    WorkspaceNotFound(String),
    /// A window with the given ID was not found.
    WindowNotFound(u32),
    /// A screen with the given identifier was not found.
    ScreenNotFound(String),
    /// An error occurred in the macOS Accessibility API.
    AccessibilityError {
        /// The AX error code returned by the API.
        code: i32,
        /// A human-readable description of the error.
        message: String,
    },
    /// A window operation (move, resize, focus, etc.) failed.
    WindowOperation(String),
    /// An error occurred in the window event observer system.
    Observer(String),
    /// An animation was cancelled before completion.
    AnimationCancelled,
    /// A null pointer was returned from an FFI call.
    NullPointer(String),
    /// A timeout occurred waiting for an operation to complete.
    Timeout {
        /// Description of the operation that timed out.
        operation: String,
        /// The timeout duration in milliseconds.
        timeout_ms: u64,
    },
    /// An error occurred during IPC communication.
    IpcError(String),
}

impl TilingError {
    /// The message that describes this error.
    pub open spec fn message_spec(&self) -> Seq<char> {
        match self {
            TilingError::NotInitialized => "Tiling manager not initialized"@,
            TilingError::WorkspaceNotFound(name) => "Workspace '"@ + name@ + "' not found"@,
            TilingError::WindowNotFound(id) => "Window "@ + decimal(*id as nat) + " not found"@,
            TilingError::ScreenNotFound(name) => "Screen '"@ + name@ + "' not found"@,
            TilingError::AccessibilityError { code, message } => "Accessibility error ("@
                + signed_decimal(*code as int) + "): "@ + message@,
            TilingError::WindowOperation(msg) => "Window operation failed: "@ + msg@,
            TilingError::Observer(msg) => "Observer error: "@ + msg@,
            TilingError::AnimationCancelled => "Animation was cancelled"@,
            TilingError::NullPointer(func) => "Null pointer returned from "@ + func@,
            TilingError::Timeout { operation, timeout_ms } => "Timeout after "@ + decimal(
                *timeout_ms as nat,
            ) + "ms: "@ + operation@,
            TilingError::IpcError(msg) => "IPC error: "@ + msg@,
        }
    }

    /// Creates an accessibility error with the given code and message.
    pub fn accessibility(code: i32, message: &str) -> (r: Self)
        ensures
            r matches TilingError::AccessibilityError { code: c, message: m } && c == code && m@
                == message@,
    {
        TilingError::AccessibilityError { code, message: message.to_owned() }
    }

    /// Creates a window operation error with the given message.
    pub fn window_op(message: &str) -> (r: Self)
        ensures
            r matches TilingError::WindowOperation(m) && m@ == message@,
    {
        TilingError::WindowOperation(message.to_owned())
    }

    /// Creates an observer error with the given message.
    pub fn observer(message: &str) -> (r: Self)
        ensures
            r matches TilingError::Observer(m) && m@ == message@,
    {
        TilingError::Observer(message.to_owned())
    }

    /// Creates a null pointer error for the given FFI function.
    pub fn null_pointer(function: &str) -> (r: Self)
        ensures
            r matches TilingError::NullPointer(m) && m@ == function@,
    {
        TilingError::NullPointer(function.to_owned())
    }

    /// Creates a timeout error.
    pub fn timeout(operation: &str, timeout_ms: u64) -> (r: Self)
        ensures
            r matches TilingError::Timeout { operation: o, timeout_ms: t } && o@ == operation@ && t
                == timeout_ms,
    {
        TilingError::Timeout { operation: operation.to_owned(), timeout_ms }
    }

    /// Creates an IPC error with the given message.
    pub fn ipc(message: &str) -> (r: Self)
        ensures
            r matches TilingError::IpcError(m) && m@ == message@,
    {
        TilingError::IpcError(message.to_owned())
    }

    /// Returns `true` if this error indicates the tiling system is not available.
    pub fn is_not_available(&self) -> (r: bool)
        ensures
            r == (self is NotInitialized),
    {
        matches!(self, TilingError::NotInitialized)
    }

    /// Returns `true` if this error indicates a resource was not found.
    pub fn is_not_found(&self) -> (r: bool)
        ensures
            r == (self is WorkspaceNotFound || self is WindowNotFound || self is ScreenNotFound),
    {
        match self {
            TilingError::WorkspaceNotFound(_) => true,
            TilingError::WindowNotFound(_) => true,
            TilingError::ScreenNotFound(_) => true,
            _ => false,
        }
    }

    /// Returns `true` if this error is related to accessibility permissions.
    pub fn is_permission_error(&self) -> (r: bool)
        ensures
            r == (self matches TilingError::AccessibilityError { code, .. } && code
                == AX_NOT_AUTHORIZED),
    {
        match self {
            TilingError::AccessibilityError { code, .. } => *code == AX_NOT_AUTHORIZED,
            _ => false,
        }
    }

    /// Returns `true` if this error is transient and the operation might succeed on retry.
    pub fn is_transient(&self) -> (r: bool)
        ensures
            r == (self is Timeout || self is AnimationCancelled || self is IpcError),
    {
        match self {
            TilingError::Timeout { .. } => true,
            TilingError::AnimationCancelled => true,
            TilingError::IpcError(_) => true,
            _ => false,
        }
    }

    /// Returns the AX error code if this is an accessibility error.
    pub fn ax_error_code(&self) -> (r: Option<i32>)
        ensures
            r == (match self {
                TilingError::AccessibilityError { code, .. } => Some(*code),
                _ => None,
            }),
    {
        match self {
            TilingError::AccessibilityError { code, .. } => Some(*code),
            _ => None,
        }
    }

    /// Renders the message that describes this error.
    pub fn to_string(&self) -> (r: String)
        ensures
            r@ == self.message_spec(),
    {
        let mut s = String::new();
        match self {
            TilingError::NotInitialized => {
                s.append("Tiling manager not initialized");
            },
            TilingError::WorkspaceNotFound(name) => {
                s.append("Workspace '");
                s.append(name.as_str());
                s.append("' not found");
            },
            TilingError::WindowNotFound(id) => {
                s.append("Window ");
                push_decimal(&mut s, *id as u64);
                s.append(" not found");
            },
            TilingError::ScreenNotFound(name) => {
                s.append("Screen '");
                s.append(name.as_str());
                s.append("' not found");
            },
            TilingError::AccessibilityError { code, message } => {
                s.append("Accessibility error (");
                push_signed_decimal(&mut s, *code as i64);
                s.append("): ");
                s.append(message.as_str());
            },
            TilingError::WindowOperation(msg) => {
                s.append("Window operation failed: ");
                s.append(msg.as_str());
            },
            TilingError::Observer(msg) => {
                s.append("Observer error: ");
                s.append(msg.as_str());
            },
            TilingError::AnimationCancelled => {
                s.append("Animation was cancelled");
            },
            TilingError::NullPointer(func) => {
                s.append("Null pointer returned from ");
                s.append(func.as_str());
            },
            TilingError::Timeout { operation, timeout_ms } => {
                s.append("Timeout after ");
                push_decimal(&mut s, *timeout_ms);
                s.append("ms: ");
                s.append(operation.as_str());
            },
            TilingError::IpcError(msg) => {
                s.append("IPC error: ");
                s.append(msg.as_str());
            },
        }
        assert(s@ =~= self.message_spec());
        s
    }
}

impl From<String> for TilingError {
    fn from(s: String) -> (r: Self)
        ensures
            r matches TilingError::WindowOperation(m) && m == s,
    {
        TilingError::WindowOperation(s)
    }
}

impl vstd::std_specs::convert::FromSpecImpl<String> for TilingError {
    open spec fn obeys_from_spec() -> bool {
        true
    }

    open spec fn from_spec(v: String) -> Self {
        TilingError::WindowOperation(v)
    }
}

impl<'a> From<&'a str> for TilingError {
    fn from(s: &'a str) -> (r: Self)
        ensures
            r matches TilingError::WindowOperation(m) && m@ == s@,
    {
        TilingError::WindowOperation(s.to_owned())
    }
}

impl<'a> vstd::std_specs::convert::FromSpecImpl<&'a str> for TilingError {
    /// A `String` has no value in specifications, so the conversion is
    /// described by the `ensures` of `from` alone.
    open spec fn obeys_from_spec() -> bool {
        false
    }

    open spec fn from_spec(v: &'a str) -> Self {
        TilingError::NotInitialized
    }
}

} // verus!
