use vstd::prelude::*;

use crate::errors::Error;

verus! {

/// The kind of data directory the node will use. A data directory is either
/// persistent, surviving the handle, or temporary, deleted on disposal.
///
/// The directory is carried as its absolute path string; the unverified
/// shell owns the filesystem object itself and keeps this tag in step with
/// it, so the deletion behaviour is attached to the tag, not to call sites.
#[derive(Debug)]
pub enum DataDir {
    /// Persistent data directory: never auto-deleted.
    Persistent(String),
    /// Temporary data directory: deleted when the handle is disposed.
    Temporary(String),
}

impl DataDir {
    /// The absolute path of this data directory.
    pub open spec fn spec_path(&self) -> Seq<char> {
        match self {
            DataDir::Persistent(p) => p@,
            DataDir::Temporary(p) => p@,
        }
    }

    /// Whether this directory survives disposal of the owning handle.
    pub open spec fn is_persistent(&self) -> bool {
        self is Persistent
    }

    /// Return the data directory path.
    pub fn path(&self) -> (p: String)
        ensures
            p@ == self.spec_path(),
    {
        match self {
            DataDir::Persistent(path) => path.clone(),
            DataDir::Temporary(path) => path.clone(),
        }
    }
}

/// How the work directory is to be materialized on disk. The filesystem
/// work itself is carried out by the unverified shell, which then tags the
/// resulting path as [`DataDir::Temporary`] or [`DataDir::Persistent`]
/// as the plan dictates.
#[derive(Debug, PartialEq, Eq)]
pub enum WorkDirPlan {
    /// Create a fresh temporary directory nested under this root; the
    /// result is temporary.
    TempUnder(String),
    /// Create a fresh temporary directory under the process-wide default
    /// root; the result is temporary.
    TempDefault,
    /// Create this directory (and all missing parents) if absent, reuse it
    /// if present; the result is persistent.
    PersistAt(String),
}

/// Decide where the daemon's work directory lives.
///
/// `tmpdir` and `staticdir` are the caller's explicit roots, and at most
/// one of them may be set; `env_root` is the optional environment-configured
/// default temporary root, read only when neither explicit root is
/// supplied. So `staticdir` alone succeeds whatever the environment holds.
pub fn plan_workdir(tmpdir: Option<String>, env_root: Option<String>, staticdir: Option<String>) -> (r: Result<
    WorkDirPlan,
    Error,
>)
    ensures
        r is Err <==> (tmpdir is Some && staticdir is Some),
        r matches Err(e) ==> e is BothDirsSpecified,
        tmpdir matches Some(t) ==> (staticdir is None ==> r == Ok::<WorkDirPlan, Error>(
            WorkDirPlan::TempUnder(t),
        )),
        staticdir matches Some(s) ==> (tmpdir is None ==> r == Ok::<WorkDirPlan, Error>(
            WorkDirPlan::PersistAt(s),
        )),
        env_root matches Some(t) ==> (tmpdir is None && staticdir is None ==> r == Ok::<
            WorkDirPlan,
            Error,
        >(WorkDirPlan::TempUnder(t))),
        tmpdir is None && env_root is None && staticdir is None ==> r == Ok::<WorkDirPlan, Error>(
            WorkDirPlan::TempDefault,
        ),
{
    match (tmpdir, staticdir) {
        (Some(_), Some(_)) => Err(Error::BothDirsSpecified),
        (Some(t), None) => Ok(WorkDirPlan::TempUnder(t)),
        (None, Some(s)) => Ok(WorkDirPlan::PersistAt(s)),
        (None, None) => match env_root {
            Some(t) => Ok(WorkDirPlan::TempUnder(t)),
            None => Ok(WorkDirPlan::TempDefault),
        },
    }
}

/// The mandatory data-directory argument handed to the daemon, derived from
/// the work directory path: `--lightning-dir=<path>`.
pub fn lightning_dir_arg(path: &str) -> (a: String)
    ensures
        a@ == "--lightning-dir="@ + path@,
{
    let mut a = "--lightning-dir=".to_owned();
    a.append(path);
    a
}

/// The expected control-socket path beneath the work directory:
/// `<work_dir>/<network>/lightning-rpc`.
pub fn rpc_socket_path(workdir: &str, network: &str) -> (p: String)
    ensures
        p@ == workdir@ + "/"@ + network@ + "/lightning-rpc"@,
{
    let mut p = workdir.to_owned();
    p.append("/");
    p.append(network);
    p.append("/lightning-rpc");
    p
}

} // verus!
