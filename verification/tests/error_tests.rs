use stache_tiling::error::TilingError;
use stache_tiling::ffi::accessibility::{
    K_AX_ERROR_ACTION_UNSUPPORTED, K_AX_ERROR_ATTRIBUTE_UNSUPPORTED, K_AX_ERROR_CANNOT_COMPLETE,
    K_AX_ERROR_INVALID_UI_ELEMENT, K_AX_ERROR_NOT_IMPLEMENTED, K_AX_ERROR_SUCCESS,
    ax_result_to_tiling_result,
};

#[test]
fn test_error_display() {
    assert_eq!(
        TilingError::NotInitialized.to_string(),
        "Tiling manager not initialized"
    );

    assert_eq!(
        TilingError::WorkspaceNotFound("coding".to_string()).to_string(),
        "Workspace 'coding' not found"
    );

    assert_eq!(
        TilingError::WindowNotFound(123).to_string(),
        "Window 123 not found"
    );

    assert_eq!(
        TilingError::ScreenNotFound("main".to_string()).to_string(),
        "Screen 'main' not found"
    );

    assert_eq!(
        TilingError::accessibility(-25203, "Invalid element").to_string(),
        "Accessibility error (-25203): Invalid element"
    );
}

#[test]
fn test_error_constructors() {
    let ax_err = TilingError::accessibility(-25200, "Not authorized");
    assert!(matches!(ax_err, TilingError::AccessibilityError {
        code: -25200,
        ..
    }));

    let win_err = TilingError::window_op("Failed to move");
    assert!(matches!(win_err, TilingError::WindowOperation(_)));

    let obs_err = TilingError::observer("Callback failed");
    assert!(matches!(obs_err, TilingError::Observer(_)));

    let null_err = TilingError::null_pointer("AXUIElementCreateApplication");
    assert!(matches!(null_err, TilingError::NullPointer(_)));

    let timeout_err = TilingError::timeout("Window ready", 25);
    assert!(matches!(timeout_err, TilingError::Timeout {
        timeout_ms: 25,
        ..
    }));

    let ipc_err = TilingError::ipc("Mach port unavailable");
    assert!(matches!(ipc_err, TilingError::IpcError(_)));
}

#[test]
fn test_error_predicates() {
    assert!(TilingError::NotInitialized.is_not_available());
    assert!(!TilingError::WindowNotFound(1).is_not_available());

    assert!(TilingError::WorkspaceNotFound("x".into()).is_not_found());
    assert!(TilingError::WindowNotFound(1).is_not_found());
    assert!(TilingError::ScreenNotFound("x".into()).is_not_found());
    assert!(!TilingError::NotInitialized.is_not_found());

    assert!(TilingError::accessibility(-25200, "Not authorized").is_permission_error());
    assert!(!TilingError::accessibility(-25203, "Invalid").is_permission_error());

    assert!(TilingError::AnimationCancelled.is_transient());
    assert!(TilingError::timeout("op", 100).is_transient());
    assert!(TilingError::ipc("error").is_transient());
    assert!(!TilingError::NotInitialized.is_transient());
}

#[test]
fn test_ax_error_code() {
    let ax_err = TilingError::accessibility(-25203, "Invalid");
    assert_eq!(ax_err.ax_error_code(), Some(-25203));

    assert_eq!(TilingError::NotInitialized.ax_error_code(), None);
}

#[test]
fn test_from_string() {
    let err: TilingError = "Operation failed".into();
    assert!(matches!(err, TilingError::WindowOperation(_)));

    let err: TilingError = String::from("Another error").into();
    assert!(matches!(err, TilingError::WindowOperation(_)));
}

#[test]
fn error_display_of_every_variant() {
    assert_eq!(
        TilingError::window_op("stuck").to_string(),
        "Window operation failed: stuck"
    );
    assert_eq!(TilingError::observer("lost").to_string(), "Observer error: lost");
    assert_eq!(TilingError::AnimationCancelled.to_string(), "Animation was cancelled");
    assert_eq!(
        TilingError::null_pointer("AXValueCreate").to_string(),
        "Null pointer returned from AXValueCreate"
    );
    assert_eq!(
        TilingError::timeout("Window ready", 25).to_string(),
        "Timeout after 25ms: Window ready"
    );
    assert_eq!(TilingError::ipc("down").to_string(), "IPC error: down");
    assert_eq!(TilingError::WindowNotFound(0).to_string(), "Window 0 not found");
    assert_eq!(
        TilingError::WindowNotFound(4294967295).to_string(),
        "Window 4294967295 not found"
    );
    assert_eq!(
        TilingError::accessibility(i32::MIN, "m").to_string(),
        "Accessibility error (-2147483648): m"
    );
    assert_eq!(
        TilingError::accessibility(7, "").to_string(),
        "Accessibility error (7): "
    );
}

#[test]
fn error_from_str_keeps_message() {
    let err: TilingError = "Operation failed".into();
    assert_eq!(err.to_string(), "Window operation failed: Operation failed");
    let err: TilingError = String::from("Another error").into();
    assert_eq!(err.to_string(), "Window operation failed: Another error");
}

#[test]
fn permission_error_has_not_authorized_code() {
    let err = TilingError::accessibility(-25200, "Not authorized");
    assert!(err.is_permission_error());
    assert_eq!(err.ax_error_code(), Some(-25200));
    assert!(!TilingError::WindowNotFound(1).is_permission_error());
}

#[test]
fn test_ax_result_to_tiling_result_success() {
    let result = ax_result_to_tiling_result(K_AX_ERROR_SUCCESS, "test");
    assert!(result.is_ok());
}

#[test]
fn test_ax_result_to_tiling_result_error() {
    let result = ax_result_to_tiling_result(K_AX_ERROR_INVALID_UI_ELEMENT, "test");
    assert!(result.is_err());
}

#[test]
fn test_ax_error_constants_are_negative() {
    assert!(K_AX_ERROR_INVALID_UI_ELEMENT < 0);
    assert!(K_AX_ERROR_ATTRIBUTE_UNSUPPORTED < 0);
    assert!(K_AX_ERROR_ACTION_UNSUPPORTED < 0);
    assert!(K_AX_ERROR_NOT_IMPLEMENTED < 0);
    assert!(K_AX_ERROR_CANNOT_COMPLETE < 0);
}

#[test]
fn ax_result_messages() {
    let cases = [
        (K_AX_ERROR_INVALID_UI_ELEMENT, "set size: Invalid UI element"),
        (K_AX_ERROR_ATTRIBUTE_UNSUPPORTED, "set size: Attribute unsupported"),
        (K_AX_ERROR_ACTION_UNSUPPORTED, "set size: Action unsupported"),
        (K_AX_ERROR_NOT_IMPLEMENTED, "set size: Not implemented"),
        (K_AX_ERROR_CANNOT_COMPLETE, "set size: Cannot complete operation"),
        (-1, "set size: Unknown error"),
    ];
    for (code, expected) in cases {
        match ax_result_to_tiling_result(code, "set size") {
            Err(TilingError::AccessibilityError { code: c, message }) => {
                assert_eq!(c, code);
                assert_eq!(message, expected);
            }
            _ => panic!("expected an accessibility error"),
        }
    }
}
