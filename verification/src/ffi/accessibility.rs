//! Accessibility API error codes and their conversion into tiling errors.

use vstd::prelude::*;
use vstd::string::*;

use crate::error::{TilingError, TilingResult};

verus! {

/// The call succeeded.
pub const K_AX_ERROR_SUCCESS: i32 = 0;

/// The element is no longer valid.
pub const K_AX_ERROR_INVALID_UI_ELEMENT: i32 = -25202;

/// The element does not support the attribute.
pub const K_AX_ERROR_ATTRIBUTE_UNSUPPORTED: i32 = -25205;

/// The element does not support the action.
pub const K_AX_ERROR_ACTION_UNSUPPORTED: i32 = -25206;

/// The function or method is not implemented.
pub const K_AX_ERROR_NOT_IMPLEMENTED: i32 = -25208;

/// The operation could not be completed.
pub const K_AX_ERROR_CANNOT_COMPLETE: i32 = -25204;

/// The description of an AX error code.
pub open spec fn ax_error_message(code: i32) -> Seq<char> {
    if code == K_AX_ERROR_INVALID_UI_ELEMENT {
        "Invalid UI element"@
    } else if code == K_AX_ERROR_ATTRIBUTE_UNSUPPORTED {
        "Attribute unsupported"@
    } else if code == K_AX_ERROR_ACTION_UNSUPPORTED {
        "Action unsupported"@
    } else if code == K_AX_ERROR_NOT_IMPLEMENTED {
        "Not implemented"@
    } else if code == K_AX_ERROR_CANNOT_COMPLETE {
        "Cannot complete operation"@
    } else {
        "Unknown error"@
    }
}

/// Converts an AX error code to a `TilingResult`.
///
/// Success is `Ok`; any other code is an accessibility error whose message
/// is `"{operation}: {description}"`.
pub fn ax_result_to_tiling_result(result: i32, operation: &str) -> (r: TilingResult<()>)
    ensures
        r is Ok == (result == K_AX_ERROR_SUCCESS),
        r matches Err(e) ==> e matches TilingError::AccessibilityError { code, message } && code
            == result && message@ == operation@ + ": "@ + ax_error_message(result),
{
    if result == K_AX_ERROR_SUCCESS {
        Ok(())
    } else {
        let description = if result == K_AX_ERROR_INVALID_UI_ELEMENT {
            "Invalid UI element"
        } else if result == K_AX_ERROR_ATTRIBUTE_UNSUPPORTED {
            "Attribute unsupported"
        } else if result == K_AX_ERROR_ACTION_UNSUPPORTED {
            "Action unsupported"
        } else if result == K_AX_ERROR_NOT_IMPLEMENTED {
            "Not implemented"
        } else if result == K_AX_ERROR_CANNOT_COMPLETE {
            "Cannot complete operation"
        } else {
            "Unknown error"
        };
        let mut message = String::new();
        message.append(operation);
        message.append(": ");
        message.append(description);
        assert(message@ =~= operation@ + ": "@ + ax_error_message(result));
        Err(TilingError::AccessibilityError { code: result, message })
    }
}

} // verus!
