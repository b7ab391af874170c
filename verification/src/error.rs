//! Errors the ability runtime and its plugins report.
use vstd::prelude::*;
use vstd::string::StringExecFns;

verus! {

/// Why an ability-runtime or plugin operation was refused.
#[derive(Clone, Debug, PartialEq, Eq)]
pub enum AbilityError {
    /// A render owner is already active for this native module.
    RenderOwnerActive,
    /// A render was requested while no bridge session is active.
    RenderOutsideSession,
    /// A bridge session was begun with an empty owner.
    EmptySessionOwner,
    /// A bridge session is already active.
    SessionActive,
    /// No bridge session is active.
    BridgeNotReady,
    /// A path handed to the system was empty or blank.
    EmptyPath,
    /// A path handed to the system was not absolute.
    RelativePath,
    /// The system refused to open a file.
    OpenRejected,
    /// The system refused to reveal a path.
    RevealRejected,
    /// A plugin received a main-thread event it does not handle.
    UnsupportedEvent { plugin: String, event: String },
}

impl AbilityError {
    /// The human-readable reason, as reported to ArkTS.
    pub fn reason(&self) -> (r: String)
        ensures
            match self {
                AbilityError::RenderOwnerActive => r@
                    == "This native module already has an active DefaultXComponent render owner"@,
                AbilityError::RenderOutsideSession => r@
                    == "A DefaultXComponent cannot render outside an active NativeAbility module session"@,
                AbilityError::EmptySessionOwner => r@ == "Bridge session owner must not be empty"@,
                AbilityError::SessionActive => r@
                    == "This native module already belongs to an active NativeAbility bridge session"@,
                AbilityError::BridgeNotReady => r@
                    == "Bridge runtime is not ready. Call it during an active NativeAbility session."@,
                AbilityError::EmptyPath => r@ == "path must not be empty"@,
                AbilityError::RelativePath => r@
                    == "path must be an absolute path (e.g. /storage/Users/...)"@,
                AbilityError::OpenRejected => r@ == "open-by-sys plugin rejected the open request"@,
                AbilityError::RevealRejected => r@
                    == "open-by-sys plugin rejected the reveal request"@,
                AbilityError::UnsupportedEvent { plugin, event } => r@ == "Unsupported "@ + plugin@
                    + " main-thread event '"@ + event@ + "'"@,
            },
    {
        match self {
            AbilityError::RenderOwnerActive => {
                "This native module already has an active DefaultXComponent render owner".to_owned()
            },
            AbilityError::RenderOutsideSession => {
                "A DefaultXComponent cannot render outside an active NativeAbility module session".to_owned()
            },
            AbilityError::EmptySessionOwner => "Bridge session owner must not be empty".to_owned(),
            AbilityError::SessionActive => {
                "This native module already belongs to an active NativeAbility bridge session".to_owned()
            },
            AbilityError::BridgeNotReady => {
                "Bridge runtime is not ready. Call it during an active NativeAbility session.".to_owned()
            },
            AbilityError::EmptyPath => "path must not be empty".to_owned(),
            AbilityError::RelativePath => {
                "path must be an absolute path (e.g. /storage/Users/...)".to_owned()
            },
            AbilityError::OpenRejected => "open-by-sys plugin rejected the open request".to_owned(),
            AbilityError::RevealRejected => {
                "open-by-sys plugin rejected the reveal request".to_owned()
            },
            AbilityError::UnsupportedEvent { plugin, event } => {
                let mut r = "Unsupported ".to_owned();
                r.append(plugin.as_str());
                r.append(" main-thread event '");
                r.append(event.as_str());
                r.append("'");
                r
            },
        }
    }
}

} // verus!
