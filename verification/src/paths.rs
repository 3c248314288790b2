//! Destination path resolution.
//!
//! The destination root of a run is either a caller-supplied override, taken
//! verbatim, or a fixed per-platform default root. An unrecognized platform
//! with no override resolves to the empty string, which callers must treat
//! as "no destination".

use vstd::prelude::*;

verus! {

/// The default destination root on macOS.
pub open spec fn macos_default_root() -> Seq<char> {
    "/Volumes/huge/media/youtube/"@
}

/// The default destination root on Windows.
pub open spec fn windows_default_root() -> Seq<char> {
    "M:/youtube/"@
}

/// The default destination root on Linux.
pub open spec fn linux_default_root() -> Seq<char> {
    "/home/phiro/huge/media/youtube/"@
}

/// The resolved destination root: a non-empty override wins unconditionally;
/// otherwise the platform identity selects a fixed default, and an
/// unrecognized platform yields the empty string.
pub open spec fn resolved_path(os: Seq<char>, override_path: Seq<char>) -> Seq<char> {
    if override_path.len() > 0 {
        override_path
    } else if os == "macos"@ {
        macos_default_root()
    } else if os == "windows"@ {
        windows_default_root()
    } else if os == "linux"@ {
        linux_default_root()
    } else {
        Seq::<char>::empty()
    }
}

/// True exactly when the two strings hold the same characters.
fn str_eq(a: &str, b: &str) -> (r: bool)
    ensures
        r == (a@ == b@),
{
    let sa = String::from_str(a);
    let sb = String::from_str(b);
    sa.eq(&sb)
}

/// Resolves the destination root for this run from the host platform identity
/// and an optional caller-supplied override.
pub fn evaluate_move_path(os_running: &str, path_to_nas: String) -> (r: String)
    ensures
        r@ == resolved_path(os_running@, path_to_nas@),
{
    if path_to_nas.as_str().is_empty() {
        if str_eq(os_running, "macos") {
            String::from_str("/Volumes/huge/media/youtube/")
        } else if str_eq(os_running, "windows") {
            String::from_str("M:/youtube/")
        } else if str_eq(os_running, "linux") {
            String::from_str("/home/phiro/huge/media/youtube/")
        } else {
            String::new()
        }
    } else {
        path_to_nas
    }
}

/// A non-empty override is always returned verbatim, whatever the platform.
pub proof fn lemma_override_returned_verbatim(os: Seq<char>, override_path: Seq<char>)
    requires
        override_path.len() > 0,
    ensures
        resolved_path(os, override_path) == override_path,
{
}

/// With no override, each recognized platform resolves to its fixed default
/// root, and every other platform resolves to the empty string.
pub proof fn lemma_platform_defaults()
    ensures
        resolved_path("macos"@, Seq::<char>::empty()) == macos_default_root(),
        resolved_path("windows"@, Seq::<char>::empty()) == windows_default_root(),
        resolved_path("linux"@, Seq::<char>::empty()) == linux_default_root(),
        forall|os: Seq<char>|
            os != "macos"@ && os != "windows"@ && os != "linux"@ ==> resolved_path(
                os,
                Seq::<char>::empty(),
            ) == Seq::<char>::empty(),
{
    reveal_strlit("macos");
    reveal_strlit("windows");
    reveal_strlit("linux");
    assert("macos"@.len() == 5);
    assert("windows"@.len() == 7);
    assert("linux"@[0] == 'l');
    assert("macos"@[0] == 'm');
}

} // verus!
