//! Error types that cross the foreign boundary, with their diagnostic text.
use vstd::prelude::*;
use vstd::string::*;

verus! {

/// Failure of a node operation or of a query made through the node.
#[derive(Debug, Clone, PartialEq, Eq)]
pub enum TapleError {
    ExecutionError(String),
    NodeUnavailable,
    NotFound(String),
    InternalError,
    DigestIdentifierGenerationFailed,
    KeyIdentifierGenerationFailed,
    SignatureIdentifierGenerationFailed,
    InvalidKeyDerivator,
    NoJSONString,
    SignatureGenerationFailed(String),
    LockIsPoisoned,
    DeserializationError,
    IncorrectGovernanceProperties,
}

/// Diagnostic text of each error, as shown to a foreign caller.
pub open spec fn taple_error_text(e: TapleError) -> Seq<char> {
    match e {
        TapleError::ExecutionError(d) => d@,
        TapleError::NodeUnavailable => "Node unavailable"@,
        TapleError::NotFound(d) => d@,
        TapleError::InternalError => "Internal error"@,
        TapleError::DigestIdentifierGenerationFailed => "Digest Identifier generation failed"@,
        TapleError::KeyIdentifierGenerationFailed => "Key Identifier generation failed"@,
        TapleError::SignatureIdentifierGenerationFailed => "Signature Identifier generation failed"@,
        TapleError::InvalidKeyDerivator => "Invalid KeyDerivator specified"@,
        TapleError::NoJSONString => "No JSON String"@,
        TapleError::SignatureGenerationFailed(d) => "Signature generation failed: "@ + d@,
        TapleError::LockIsPoisoned => "Internal lock is poisoned"@,
        TapleError::DeserializationError => "Deserialization error"@,
        TapleError::IncorrectGovernanceProperties => "Incorrect format of governance properties"@,
    }
}

impl TapleError {
    /// The diagnostic text of this error.
    pub fn message(&self) -> (r: String)
        ensures
            r@ == taple_error_text(*self),
    {
        match self {
            TapleError::ExecutionError(d) => d.clone(),
            TapleError::NodeUnavailable => String::from_str("Node unavailable"),
            TapleError::NotFound(d) => d.clone(),
            TapleError::InternalError => String::from_str("Internal error"),
            TapleError::DigestIdentifierGenerationFailed => String::from_str(
                "Digest Identifier generation failed",
            ),
            TapleError::KeyIdentifierGenerationFailed => String::from_str(
                "Key Identifier generation failed",
            ),
            TapleError::SignatureIdentifierGenerationFailed => String::from_str(
                "Signature Identifier generation failed",
            ),
            TapleError::InvalidKeyDerivator => String::from_str("Invalid KeyDerivator specified"),
            TapleError::NoJSONString => String::from_str("No JSON String"),
            TapleError::SignatureGenerationFailed(d) => String::from_str(
                "Signature generation failed: ",
            ).concat(d.as_str()),
            TapleError::LockIsPoisoned => String::from_str("Internal lock is poisoned"),
            TapleError::DeserializationError => String::from_str("Deserialization error"),
            TapleError::IncorrectGovernanceProperties => String::from_str(
                "Incorrect format of governance properties",
            ),
        }
    }
}

/// Failure reported by a foreign storage backend.
#[derive(Debug, Clone, Copy, PartialEq, Eq)]
pub enum SQLiteError {
    KeyElementsError,
    InternalSQLiteError,
}

pub open spec fn sqlite_error_text(e: SQLiteError) -> Seq<char> {
    match e {
        SQLiteError::KeyElementsError => "General error"@,
        SQLiteError::InternalSQLiteError => "Internal error"@,
    }
}

impl SQLiteError {
    /// The diagnostic text of this error.
    pub fn message(&self) -> (r: String)
        ensures
            r@ == sqlite_error_text(*self),
    {
        match self {
            SQLiteError::KeyElementsError => String::from_str("General error"),
            SQLiteError::InternalSQLiteError => String::from_str("Internal error"),
        }
    }
}

/// Failure of a blocking receive on the notification stream.
#[derive(Debug, Clone, Copy, PartialEq, Eq)]
pub enum NotificationError {
    NoConnection,
    InternalError,
    LockIsPoisoned,
}

pub open spec fn notification_error_text(e: NotificationError) -> Seq<char> {
    match e {
        NotificationError::NoConnection => "Connection with TAPLE node has been closed"@,
        NotificationError::InternalError => "Internal Error"@,
        NotificationError::LockIsPoisoned => "Internal lock is poisoned"@,
    }
}

impl NotificationError {
    /// The diagnostic text of this error.
    pub fn message(&self) -> (r: String)
        ensures
            r@ == notification_error_text(*self),
    {
        match self {
            NotificationError::NoConnection => String::from_str(
                "Connection with TAPLE node has been closed",
            ),
            NotificationError::InternalError => String::from_str("Internal Error"),
            NotificationError::LockIsPoisoned => String::from_str("Internal lock is poisoned"),
        }
    }
}

/// Failure while turning foreign settings into node settings.
#[derive(Debug, Clone, Copy, PartialEq, Eq)]
pub enum SettingsError {
    InvalidListenAddr,
    InternalError,
}

pub open spec fn settings_error_text(e: SettingsError) -> Seq<char> {
    match e {
        SettingsError::InvalidListenAddr => "Invalid ListenAddr"@,
        SettingsError::InternalError => "Internal Error"@,
    }
}

impl SettingsError {
    /// The diagnostic text of this error.
    pub fn message(&self) -> (r: String)
        ensures
            r@ == settings_error_text(*self),
    {
        match self {
            SettingsError::InvalidListenAddr => String::from_str("Invalid ListenAddr"),
            SettingsError::InternalError => String::from_str("Internal Error"),
        }
    }
}

/// Failure while starting a node.
#[derive(Debug, Clone, PartialEq, Eq)]
pub enum InitializationError {
    InvalidSettings(String),
    StartFailed(String),
    InternalError,
}

pub open spec fn initialization_error_text(e: InitializationError) -> Seq<char> {
    match e {
        InitializationError::InvalidSettings(d) => "Invalid Settings: "@ + d@,
        InitializationError::StartFailed(d) => "Start process failed "@ + d@,
        InitializationError::InternalError => "Internal Error"@,
    }
}

impl InitializationError {
    /// The diagnostic text of this error.
    pub fn message(&self) -> (r: String)
        ensures
            r@ == initialization_error_text(*self),
    {
        match self {
            InitializationError::InvalidSettings(d) => String::from_str(
                "Invalid Settings: ",
            ).concat(d.as_str()),
            InitializationError::StartFailed(d) => String::from_str("Start process failed ").concat(
                d.as_str(),
            ),
            InitializationError::InternalError => String::from_str("Internal Error"),
        }
    }
}

/// Failure while signalling a node to shut down.
#[derive(Debug, Clone, Copy, PartialEq, Eq)]
pub enum ShutdownError {
    InnerLockIsPoisoned,
    InternalError,
}

pub open spec fn shutdown_error_text(e: ShutdownError) -> Seq<char> {
    match e {
        ShutdownError::InnerLockIsPoisoned => "Inner lock is poisoned"@,
        ShutdownError::InternalError => "Internal Error"@,
    }
}

impl ShutdownError {
    /// The diagnostic text of this error.
    pub fn message(&self) -> (r: String)
        ensures
            r@ == shutdown_error_text(*self),
    {
        match self {
            ShutdownError::InnerLockIsPoisoned => String::from_str("Inner lock is poisoned"),
            ShutdownError::InternalError => String::from_str("Internal Error"),
        }
    }
}

} // verus!
