use vstd::prelude::*;

use crate::errors::Error;

verus! {

/// Provide the path of a pre-provisioned `lightningd` executable.
///
/// No provisioning mechanism is available in this build, so the call always
/// reports its absence.
pub fn downloaded_exe_path() -> (r: Result<String, Error>)
    ensures
        r matches Err(e) && e is NoFeature,
{
    Err(Error::NoFeature)
}

/// Pick the daemon executable with the fixed precedence:
///
/// 1. the explicit override setting, if present;
/// 2. otherwise a pre-provisioned executable, if present;
/// 3. otherwise a system-wide search-path lookup, if it found one;
/// 4. otherwise fail: no executable can be resolved.
///
/// The shell reads the three sources and hands their findings in as plain
/// optional paths.
pub fn resolve_exe_path(env_exe: Option<String>, downloaded: Option<String>, path_lookup: Option<
    String,
>) -> (r: Result<String, Error>)
    ensures
        env_exe matches Some(p) ==> r == Ok::<String, Error>(p),
        downloaded matches Some(p) ==> (env_exe is None ==> r == Ok::<String, Error>(p)),
        path_lookup matches Some(p) ==> (env_exe is None && downloaded is None ==> r == Ok::<
            String,
            Error,
        >(p)),
        env_exe is None && downloaded is None && path_lookup is None ==> (r matches Err(e)
            && e is NoLightningdExecutableFound),
{
    match env_exe {
        Some(p) => Ok(p),
        None => match downloaded {
            Some(p) => Ok(p),
            None => match path_lookup {
                Some(p) => Ok(p),
                None => Err(Error::NoLightningdExecutableFound),
            },
        },
    }
}

} // verus!
