use taple_sdk::error::{
    InitializationError, NotificationError, SQLiteError, SettingsError, ShutdownError, TapleError,
};

#[test]
fn taple_error_texts() {
    assert_eq!(TapleError::NodeUnavailable.message(), "Node unavailable");
    assert_eq!(TapleError::ExecutionError("boom".to_string()).message(), "boom");
    assert_eq!(
        TapleError::SignatureGenerationFailed("x".to_string()).message(),
        "Signature generation failed: x"
    );
    assert_eq!(TapleError::LockIsPoisoned.message(), "Internal lock is poisoned");
    assert_eq!(
        TapleError::DigestIdentifierGenerationFailed.message(),
        "Digest Identifier generation failed"
    );
}

#[test]
fn other_error_texts() {
    assert_eq!(SQLiteError::KeyElementsError.message(), "General error");
    assert_eq!(
        NotificationError::NoConnection.message(),
        "Connection with TAPLE node has been closed"
    );
    assert_eq!(SettingsError::InvalidListenAddr.message(), "Invalid ListenAddr");
    assert_eq!(
        InitializationError::StartFailed("e".to_string()).message(),
        "Start process failed e"
    );
    assert_eq!(
        InitializationError::InvalidSettings("e".to_string()).message(),
        "Invalid Settings: e"
    );
    assert_eq!(ShutdownError::InnerLockIsPoisoned.message(), "Inner lock is poisoned");
}
