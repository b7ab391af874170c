//! Handing an absolute local path to the system: open it with the application
//! registered for its type (`open-file`) or reveal it in the file manager
//! (`reveal-file`). ArkTS turns the path into its `file://` URI form; this side
//! checks the path and interprets the acknowledgement.
use crate::error::AbilityError;
use crate::plugins::BridgeContextRequirement;
use crate::text::{is_blank, spec_is_blank};
use vstd::prelude::*;
use vstd::string::StrSliceExecFns;

verus! {

/// The plugin that opens or reveals local paths through the system.
pub struct OpenBySysBridgePlugin;

impl OpenBySysBridgePlugin {
    /// Plugin id.
    pub const ID: &'static str = "ohos.openbysys";

    /// Action that opens a file with the application registered for its type.
    pub const OPEN_FILE_ACTION: &'static str = "open-file";

    /// Action that reveals a path in the system file manager.
    pub const REVEAL_FILE_ACTION: &'static str = "reveal-file";

    /// Contexts the ArkTS side needs.
    pub fn required_contexts() -> (r: Vec<BridgeContextRequirement>)
        ensures
            r@ == seq![BridgeContextRequirement::Ability],
    {
        vec![BridgeContextRequirement::Ability]
    }
}

/// Request of the `open-file` action.
#[derive(Clone, Debug)]
pub struct OpenRequest {
    /// Absolute local path (not a URI) of the file to open.
    pub path: String,
}

impl OpenRequest {
    /// Name of this payload on the bridge.
    pub const TYPE_NAME: &'static str = "ohos.openbysys.OpenRequest";
}

/// Answer of the `open-file` action.
#[derive(Clone, Copy, Debug)]
pub struct OpenResponse {
    pub accepted: bool,
}

impl OpenResponse {
    /// Name of this payload on the bridge.
    pub const TYPE_NAME: &'static str = "ohos.openbysys.OpenResponse";

    /// Success when the system accepted the request.
    pub fn ensure(self) -> (r: Result<(), AbilityError>)
        ensures
            self.accepted ==> r is Ok,
            !self.accepted ==> r == Err::<(), AbilityError>(AbilityError::OpenRejected),
    {
        if self.accepted {
            Ok(())
        } else {
            Err(AbilityError::OpenRejected)
        }
    }
}

/// Request of the `reveal-file` action.
#[derive(Clone, Debug)]
pub struct RevealRequest {
    /// Absolute local path (not a URI) of the file or directory to reveal.
    pub path: String,
}

impl RevealRequest {
    /// Name of this payload on the bridge.
    pub const TYPE_NAME: &'static str = "ohos.openbysys.RevealRequest";
}

/// Answer of the `reveal-file` action.
#[derive(Clone, Copy, Debug)]
pub struct RevealResponse {
    pub accepted: bool,
}

impl RevealResponse {
    /// Name of this payload on the bridge.
    pub const TYPE_NAME: &'static str = "ohos.openbysys.RevealResponse";

    /// Success when the system accepted the request.
    pub fn ensure(self) -> (r: Result<(), AbilityError>)
        ensures
            self.accepted ==> r is Ok,
            !self.accepted ==> r == Err::<(), AbilityError>(AbilityError::RevealRejected),
    {
        if self.accepted {
            Ok(())
        } else {
            Err(AbilityError::RevealRejected)
        }
    }
}

/// A Unix path is absolute when it starts at the root.
pub open spec fn spec_is_absolute(path: Seq<char>) -> bool {
    path.len() > 0 && path[0] == '/'
}

/// Checks that `path` is a non-blank absolute path.
pub fn validate_path(path: &str) -> (r: Result<(), AbilityError>)
    ensures
        spec_is_blank(path@) ==> r == Err::<(), AbilityError>(AbilityError::EmptyPath),
        !spec_is_blank(path@) && !spec_is_absolute(path@) ==> r == Err::<(), AbilityError>(
            AbilityError::RelativePath,
        ),
        !spec_is_blank(path@) && spec_is_absolute(path@) ==> r is Ok,
{
    if is_blank(path) {
        return Err(AbilityError::EmptyPath);
    }
    if path.unicode_len() == 0 || path.get_char(0) != '/' {
        return Err(AbilityError::RelativePath);
    }
    Ok(())
}

/// The request that opens `path`, once the path passed `validate_path`.
pub fn open_request(path: String) -> (r: Result<OpenRequest, AbilityError>)
    ensures
        match r {
            Ok(req) => req.path@ == path@ && !spec_is_blank(path@) && spec_is_absolute(path@),
            Err(e) => e == (if spec_is_blank(path@) {
                AbilityError::EmptyPath
            } else {
                AbilityError::RelativePath
            }) && !(!spec_is_blank(path@) && spec_is_absolute(path@)),
        },
{
    match validate_path(path.as_str()) {
        Ok(()) => Ok(OpenRequest { path }),
        Err(e) => Err(e),
    }
}

/// The request that reveals `path`, once the path passed `validate_path`.
pub fn reveal_request(path: String) -> (r: Result<RevealRequest, AbilityError>)
    ensures
        match r {
            Ok(req) => req.path@ == path@ && !spec_is_blank(path@) && spec_is_absolute(path@),
            Err(e) => e == (if spec_is_blank(path@) {
                AbilityError::EmptyPath
            } else {
                AbilityError::RelativePath
            }) && !(!spec_is_blank(path@) && spec_is_absolute(path@)),
        },
{
    match validate_path(path.as_str()) {
        Ok(()) => Ok(RevealRequest { path }),
        Err(e) => Err(e),
    }
}

} // verus!
