//! Platform-aware resolution of the log directory. The directory is the
//! OS-supplied per-user root followed by a fixed tail of segments; the tail is
//! a closed function of the platform family, so the rule is exhaustive and
//! testable without running on every OS.

use vstd::prelude::*;

verus! {

/// The fixed application identifier segment that every resolved log
/// directory contains.
pub open spec fn spec_app_id() -> Seq<char> {
    "com.tauri.auto-update-app"@
}

/// The application identifier, as a path segment.
pub fn app_id() -> (r: &'static str)
    ensures
        r@ == spec_app_id(),
{
    "com.tauri.auto-update-app"
}

/// The closed set of operating-system families the resolver distinguishes.
#[derive(Clone, Copy, PartialEq, Eq, Structural, Debug)]
pub enum Platform {
    WindowsFamily,
    AppleDesktop,
    UnixDesktop,
}

/// The per-user root directory a platform's log directory hangs under.
#[derive(Clone, Copy, PartialEq, Eq, Structural, Debug)]
pub enum RootKind {
    /// The per-user application data root.
    DataRoot,
    /// The user's home directory.
    HomeRoot,
    /// The per-user local application data root.
    LocalDataRoot,
}

/// Which per-user root the OS must supply for platform `p`.
pub open spec fn spec_required_root(p: Platform) -> RootKind {
    match p {
        Platform::WindowsFamily => RootKind::DataRoot,
        Platform::AppleDesktop => RootKind::HomeRoot,
        Platform::UnixDesktop => RootKind::LocalDataRoot,
    }
}

/// Returns the root kind the OS must supply for platform `p`.
pub fn required_root(p: Platform) -> (r: RootKind)
    ensures
        r == spec_required_root(p),
{
    match p {
        Platform::WindowsFamily => RootKind::DataRoot,
        Platform::AppleDesktop => RootKind::HomeRoot,
        Platform::UnixDesktop => RootKind::LocalDataRoot,
    }
}

/// The fixed segments appended to the per-user root, per platform family.
pub open spec fn spec_log_dir_tail(p: Platform) -> Seq<Seq<char>> {
    match p {
        Platform::WindowsFamily => seq![spec_app_id(), "logs"@],
        Platform::AppleDesktop => seq!["Library"@, "Logs"@, spec_app_id()],
        Platform::UnixDesktop => seq![spec_app_id(), "logs"@],
    }
}

/// Builds the fixed tail of path segments for platform `p`.
pub fn log_dir_tail(p: Platform) -> (segs: Vec<String>)
    ensures
        segs@.map_values(|s: String| s@) == spec_log_dir_tail(p),
{
    let mut segs: Vec<String> = Vec::new();
    match p {
        Platform::WindowsFamily => {
            segs.push(String::from_str(app_id()));
            segs.push(String::from_str("logs"));
        },
        Platform::AppleDesktop => {
            segs.push(String::from_str("Library"));
            segs.push(String::from_str("Logs"));
            segs.push(String::from_str(app_id()));
        },
        Platform::UnixDesktop => {
            segs.push(String::from_str(app_id()));
            segs.push(String::from_str("logs"));
        },
    }
    proof {
        assert(segs@.map_values(|s: String| s@) =~= spec_log_dir_tail(p));
    }
    segs
}

/// Raised when the OS API cannot supply the per-user root a platform needs;
/// this failure is fatal to startup.
#[derive(Clone, Copy, PartialEq, Eq, Structural, Debug)]
pub struct DirectoryResolutionError {
    /// The root that the OS could not supply.
    pub missing: RootKind,
}

impl DirectoryResolutionError {
    /// The diagnostic the startup sequence prints when it aborts: no log sink
    /// exists yet, so this line goes to the console directly.
    pub fn message(&self) -> (m: String)
        ensures
            self.missing == RootKind::DataRoot ==> m@ == "Could not find data directory"@,
            self.missing == RootKind::HomeRoot ==> m@ == "Could not find home directory"@,
            self.missing == RootKind::LocalDataRoot ==> m@ == "Could not find local data directory"@,
    {
        match self.missing {
            RootKind::DataRoot => String::from_str("Could not find data directory"),
            RootKind::HomeRoot => String::from_str("Could not find home directory"),
            RootKind::LocalDataRoot => String::from_str("Could not find local data directory"),
        }
    }
}

/// Resolves the log directory for platform `p`, given the per-user root the
/// OS supplied as a list of path segments, or `None` when the OS API could
/// not supply it. Succeeds exactly when the root is present; the result is
/// the root's segments followed by the platform's fixed tail.
pub fn resolve_log_directory(p: Platform, root: Option<Vec<String>>) -> (r: Result<
    Vec<String>,
    DirectoryResolutionError,
>)
    ensures
        r is Ok <==> root is Some,
        r matches Ok(path) ==> path@.map_values(|s: String| s@) == root->Some_0@.map_values(
            |s: String| s@,
        ) + spec_log_dir_tail(p),
        r matches Err(e) ==> e.missing == spec_required_root(p),
{
    match root {
        None => Err(DirectoryResolutionError { missing: required_root(p) }),
        Some(mut base) => {
            let ghost base0 = base@;
            let mut tail = log_dir_tail(p);
            base.append(&mut tail);
            proof {
                assert(base@.map_values(|s: String| s@) =~= base0.map_values(|s: String| s@)
                    + spec_log_dir_tail(p));
            }
            Ok(base)
        },
    }
}

/// Whether a path segment is the logs segment: the lower-case spelling, or
/// the capitalized spelling the Apple directory convention uses.
pub open spec fn is_logs_segment(s: Seq<char>) -> bool {
    s == "logs"@ || s == "Logs"@
}

/// Law: on every supported platform family, and whatever root the OS
/// supplied, the resolved log directory contains the fixed application
/// identifier segment and a logs segment.
pub proof fn lemma_log_dir_names_app_and_logs(p: Platform, root: Seq<Seq<char>>)
    ensures
        exists|i: int|
            0 <= i < (root + spec_log_dir_tail(p)).len() && (root + spec_log_dir_tail(p))[i]
                == spec_app_id(),
        exists|i: int|
            0 <= i < (root + spec_log_dir_tail(p)).len() && is_logs_segment(
                (root + spec_log_dir_tail(p))[i],
            ),
{
    let full = root + spec_log_dir_tail(p);
    let n = root.len() as int;
    match p {
        Platform::WindowsFamily => {
            assert(full[n] == spec_app_id());
            assert(is_logs_segment(full[n + 1]));
        },
        Platform::AppleDesktop => {
            assert(full[n + 2] == spec_app_id());
            assert(is_logs_segment(full[n + 1]));
        },
        Platform::UnixDesktop => {
            assert(full[n] == spec_app_id());
            assert(is_logs_segment(full[n + 1]));
        },
    }
}

} // verus!
