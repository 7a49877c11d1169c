use vstd::prelude::*;

verus! {

/// All the possible errors in this crate.
///
/// Exit statuses are carried as the raw OS status value, unmodified.
#[derive(Debug)]
pub enum Error {
    /// Wrapper of an input/output failure, with a short description.
    Io(String),
    /// Wrapper of a control-endpoint failure outside the polling loop.
    Rpc(),
    /// Returned when calling methods requiring a pre-provisioned executable,
    /// but none is provisioned.
    NoFeature,
    /// Returned when calling methods requiring the executable-override
    /// setting to exist, but it does not.
    NoEnvVar,
    /// Returned when no `lightningd` executable can be resolved at all.
    NoLightningdExecutableFound,
    /// The daemon process terminated before readiness and no attempts remain.
    EarlyExit(i32),
    /// Both a temporary and a persistent directory root were supplied.
    BothDirsSpecified,
    /// A `-rpcuser` or `-rpcpassword` argument was supplied; these
    /// credential-bearing flags are deprecated and rejected.
    RpcUserAndPasswordUsed,
}

impl Error {
    /// A human-readable description of the error.
    pub fn message(&self) -> (m: String)
        ensures
            m@.len() > 0,
            self is Io ==> m@ == "io error"@,
            self is Rpc ==> m@ == "rpc error"@,
            self is NoFeature ==> m@ == "called a method requiring a provisioned executable, but none is provisioned"@,
            self is NoEnvVar ==> m@ == "called a method requiring env var `LIGHTNINGD_EXE` to be set, but it's not"@,
            self is NoLightningdExecutableFound ==> m@ == "`lightningd` executable is required, set `LIGHTNINGD_EXE` or put `lightningd` in the search path"@,
            self is EarlyExit ==> m@ == "the lightningd process terminated early"@,
            self is BothDirsSpecified ==> m@ == "tempdir and staticdir cannot be enabled at same time in configuration options"@,
            self is RpcUserAndPasswordUsed ==> m@ == "`-rpcuser` and `-rpcpassword` cannot be used, use `-rpcauth` instead"@,
    {
        match self {
            Error::Io(_) => {
                let m = "io error".to_owned();
                proof {
                    reveal_strlit("io error");
                }
                m
            },
            Error::Rpc() => {
                let m = "rpc error".to_owned();
                proof {
                    reveal_strlit("rpc error");
                }
                m
            },
            Error::NoFeature => {
                let m =
                    "called a method requiring a provisioned executable, but none is provisioned".to_owned();
                proof {
                    reveal_strlit(
                        "called a method requiring a provisioned executable, but none is provisioned",
                    );
                }
                m
            },
            Error::NoEnvVar => {
                let m = "called a method requiring env var `LIGHTNINGD_EXE` to be set, but it's not".to_owned();
                proof {
                    reveal_strlit(
                        "called a method requiring env var `LIGHTNINGD_EXE` to be set, but it's not",
                    );
                }
                m
            },
            Error::NoLightningdExecutableFound => {
                let m = "`lightningd` executable is required, set `LIGHTNINGD_EXE` or put `lightningd` in the search path".to_owned();
                proof {
                    reveal_strlit(
                        "`lightningd` executable is required, set `LIGHTNINGD_EXE` or put `lightningd` in the search path",
                    );
                }
                m
            },
            Error::EarlyExit(_) => {
                let m = "the lightningd process terminated early".to_owned();
                proof {
                    reveal_strlit("the lightningd process terminated early");
                }
                m
            },
            Error::BothDirsSpecified => {
                let m = "tempdir and staticdir cannot be enabled at same time in configuration options".to_owned();
                proof {
                    reveal_strlit(
                        "tempdir and staticdir cannot be enabled at same time in configuration options",
                    );
                }
                m
            },
            Error::RpcUserAndPasswordUsed => {
                let m = "`-rpcuser` and `-rpcpassword` cannot be used, use `-rpcauth` instead".to_owned();
                proof {
                    reveal_strlit(
                        "`-rpcuser` and `-rpcpassword` cannot be used, use `-rpcauth` instead",
                    );
                }
                m
            },
        }
    }
}

} // verus!
