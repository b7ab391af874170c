//! Decisions around OHOS file URIs: mapping a picker-returned URI to its sandbox path
//! and keeping the URI authorization of user-public paths alive.
//!
//! The NDK conversions (`OH_FileUri_GetPathFromUri`, `OH_FileUri_GetUriFromPath`) and
//! permission calls (`OH_FileShare_PersistPermission`,
//! `OH_FileShare_ActivatePermission`) are made by the caller-supplied callbacks; they
//! are only reached with strings that a C string can hold (no NUL character).
use crate::text::{owned, spec_starts_with, starts_with};
use vstd::prelude::*;
use vstd::string::StrSliceExecFns;

verus! {

/// Prefix of user-public-directory paths that live outside the app sandbox.
pub const USER_PUBLIC_PATH_PREFIX: &'static str = "/storage/Users/currentUser";

/// Whether `s` holds a NUL character, which a C string cannot carry.
pub open spec fn has_nul(s: Seq<char>) -> bool {
    exists|i: int| 0 <= i < s.len() && s[i] == '\0'
}

/// Whether `s` holds a NUL character.
pub fn contains_nul(s: &str) -> (b: bool)
    ensures
        b == has_nul(s@),
{
    let n = s.unicode_len();
    let mut i: usize = 0;
    while i < n
        invariant
            n == s@.len(),
            0 <= i <= n,
            forall|j: int| 0 <= j < i ==> s@[j] != '\0',
        decreases n - i,
    {
        if s.get_char(i) == '\0' {
            return true;
        }
        i = i + 1;
    }
    false
}

/// `FileShare_OperationMode` of a read and write authorization (READ_MODE 1 | WRITE_MODE 2).
pub const OPERATION_MODE_READ_WRITE: u32 = 3;

/// Which `OH_FileShare_*` permission call is made.
#[derive(Clone, Copy, Debug, PartialEq, Eq, Structural)]
pub enum PermissionCall {
    /// `OH_FileShare_PersistPermission`: keep the authorization across restarts.
    Persist,
    /// `OH_FileShare_ActivatePermission`: make a persisted authorization usable again.
    Activate,
}

/// The single `FileShare_PolicyInfo` a permission call is handed: the URI, its
/// length in bytes (as the C `unsigned int` the call takes) and the operation mode.
#[derive(Clone, Debug)]
pub struct PermissionPolicy {
    pub uri: String,
    pub length: u32,
    pub operation_mode: u32,
}

/// Whether `policy` is the read/write policy of the URI `uri`.
pub open spec fn policy_for(uri: Seq<char>, policy: PermissionPolicy) -> bool {
    &&& policy.uri@ == uri
    &&& policy.length == (vstd::utf8::encode_utf8(uri).len() as usize) as u32
    &&& policy.operation_mode == OPERATION_MODE_READ_WRITE
}

/// The read/write policy of `uri`.
pub fn permission_policy(uri: &str) -> (policy: PermissionPolicy)
    ensures
        policy_for(uri@, policy),
{
    let length = uri.len() as u32;
    PermissionPolicy { uri: owned(uri), length, operation_mode: OPERATION_MODE_READ_WRITE }
}

/// Whether the error result a permission call handed back must be released: when the
/// call succeeded (code 0) and handed back a non-empty error array.
pub fn releases_error_result(code: i32, has_error_result: bool, result_num: u32) -> (release:
    bool)
    ensures
        release == (code == 0 && has_error_result && result_num > 0),
{
    code == 0 && has_error_result && result_num > 0
}

/// Asks for a read/write URI authorization through `api`, which makes the system
/// call `call` with the policy it is handed and returns its result code. A URI with
/// a NUL character is refused without a call; otherwise `api` gets `call` and the
/// read/write policy of `uri`, and the authorization holds when the code is 0.
pub fn call_permission_api<F: FnOnce(PermissionCall, PermissionPolicy) -> i32>(
    uri: &str,
    call: PermissionCall,
    api: F,
) -> (granted: bool)
    requires
        forall|policy: PermissionPolicy|
            !has_nul(uri@) && policy_for(uri@, policy) ==> call_requires(api, (call, policy)),
    ensures
        has_nul(uri@) ==> !granted,
        !has_nul(uri@) ==> exists|policy: PermissionPolicy, code: i32|
            #[trigger] call_ensures(api, (call, policy), code) && policy_for(uri@, policy)
                && granted == (code == 0),
{
    if contains_nul(uri) {
        return false;
    }
    let policy = permission_policy(uri);
    let code = api(call, policy);
    code == 0
}

/// Persists read-write authorization for a picker-returned URI so it survives
/// restarts; `persist` makes the `OH_FileShare_PersistPermission` call.
pub fn persist_permission<F: FnOnce(PermissionCall, PermissionPolicy) -> i32>(
    uri: &str,
    persist: F,
) -> (granted: bool)
    requires
        forall|policy: PermissionPolicy|
            !has_nul(uri@) && policy_for(uri@, policy) ==> call_requires(
                persist,
                (PermissionCall::Persist, policy),
            ),
    ensures
        has_nul(uri@) ==> !granted,
        !has_nul(uri@) ==> exists|policy: PermissionPolicy, code: i32|
            #[trigger] call_ensures(persist, (PermissionCall::Persist, policy), code) && policy_for(
                uri@,
                policy,
            ) && granted == (code == 0),
{
    call_permission_api(uri, PermissionCall::Persist, persist)
}

/// Activates a persisted URI authorization (required after a restart); `activate`
/// makes the `OH_FileShare_ActivatePermission` call.
pub fn activate_permission<F: FnOnce(PermissionCall, PermissionPolicy) -> i32>(
    uri: &str,
    activate: F,
) -> (granted: bool)
    requires
        forall|policy: PermissionPolicy|
            !has_nul(uri@) && policy_for(uri@, policy) ==> call_requires(
                activate,
                (PermissionCall::Activate, policy),
            ),
    ensures
        has_nul(uri@) ==> !granted,
        !has_nul(uri@) ==> exists|policy: PermissionPolicy, code: i32|
            #[trigger] call_ensures(activate, (PermissionCall::Activate, policy), code)
                && policy_for(uri@, policy) && granted == (code == 0),
{
    call_permission_api(uri, PermissionCall::Activate, activate)
}

/// Converts a string through `convert` (a system call), which is only reached for a
/// string without a NUL character; `None` when the conversion fails.
pub fn convert_checked<F: FnOnce(&str) -> Option<String>>(s: &str, convert: F) -> (r: Option<
    String,
>)
    requires
        !has_nul(s@) ==> call_requires(convert, (s,)),
    ensures
        has_nul(s@) ==> r is None,
        !has_nul(s@) ==> call_ensures(convert, (s,), r),
{
    if contains_nul(s) {
        return None;
    }
    convert(s)
}

/// Maps an OHOS file URI to the local sandbox path, persisting the URI authorization
/// first so the file stays accessible across restarts. `persist` makes the
/// permission call and `to_local_path` the conversion. `None` when the conversion
/// fails.
pub fn path_from_uri<
    P: FnOnce(PermissionCall, PermissionPolicy) -> i32,
    C: FnOnce(&str) -> Option<String>,
>(uri: &str, persist: P, to_local_path: C) -> (path: Option<String>)
    requires
        forall|policy: PermissionPolicy|
            !has_nul(uri@) && policy_for(uri@, policy) ==> call_requires(
                persist,
                (PermissionCall::Persist, policy),
            ),
        !has_nul(uri@) ==> call_requires(to_local_path, (uri,)),
    ensures
        has_nul(uri@) ==> path is None,
        !has_nul(uri@) ==> exists|policy: PermissionPolicy, code: i32|
            #[trigger] call_ensures(persist, (PermissionCall::Persist, policy), code) && policy_for(
                uri@,
                policy,
            ),
        !has_nul(uri@) ==> call_ensures(to_local_path, (uri,), path),
{
    let _ = persist_permission(uri, persist);
    convert_checked(uri, to_local_path)
}

/// Where a worktree root resolves to once its authorization is active.
///
/// Paths inside the app sandbox are returned unchanged. A user-public path is turned
/// into its URI (`to_uri`), the URI authorization is activated (`activate`, handed
/// the read/write policy of the URI), and the URI is mapped back to the local path
/// (`to_local_path`); any failing step returns the input unchanged, so the call is
/// idempotent and safe for every root.
pub fn ensure_root_authorized<
    U: FnOnce(&str) -> Option<String>,
    A: FnOnce(PermissionCall, PermissionPolicy) -> i32,
    C: FnOnce(&String) -> Option<String>,
>(path: &str, to_uri: U, activate: A, to_local_path: C) -> (root: String)
    requires
        spec_starts_with(path@, USER_PUBLIC_PATH_PREFIX@) && !has_nul(path@) ==> call_requires(
            to_uri,
            (path,),
        ),
        forall|policy: PermissionPolicy|
            spec_starts_with(path@, USER_PUBLIC_PATH_PREFIX@) && !has_nul(policy.uri@)
                && policy_for(policy.uri@, policy) ==> call_requires(
                activate,
                (PermissionCall::Activate, policy),
            ),
        forall|u: &String|
            spec_starts_with(path@, USER_PUBLIC_PATH_PREFIX@) && !has_nul(u@) ==> call_requires(
                to_local_path,
                (u,),
            ),
    ensures
        !spec_starts_with(path@, USER_PUBLIC_PATH_PREFIX@) ==> root@ == path@,
        spec_starts_with(path@, USER_PUBLIC_PATH_PREFIX@) && has_nul(path@) ==> root@ == path@,
        spec_starts_with(path@, USER_PUBLIC_PATH_PREFIX@) && !has_nul(path@) ==> exists|
            uri: Option<String>,
        |
            {
                &&& call_ensures(to_uri, (path,), uri)
                &&& match uri {
                    None => root@ == path@,
                    Some(u) => if has_nul(u@) {
                        root@ == path@
                    } else {
                        exists|policy: PermissionPolicy, code: i32|
                            {
                                &&& #[trigger] call_ensures(
                                    activate,
                                    (PermissionCall::Activate, policy),
                                    code,
                                )
                                &&& policy_for(u@, policy)
                                &&& code != 0 ==> root@ == path@
                                &&& code == 0 ==> exists|local: Option<String>|
                                    {
                                        &&& call_ensures(to_local_path, (&u,), local)
                                        &&& match local {
                                            Some(l) => root@ == l@,
                                            None => root@ == path@,
                                        }
                                    }
                            }
                    },
                }
            },
{
    if !starts_with(path, USER_PUBLIC_PATH_PREFIX) {
        return owned(path);
    }
    let uri = match convert_checked(path, to_uri) {
        Some(uri) => uri,
        None => {
            return owned(path);
        },
    };
    if contains_nul(uri.as_str()) {
        return owned(path);
    }
    let policy = permission_policy(uri.as_str());
    let code = activate(PermissionCall::Activate, policy);
    if code != 0 {
        return owned(path);
    }
    match to_local_path(&uri) {
        Some(local) => local,
        None => owned(path),
    }
}

} // verus!
