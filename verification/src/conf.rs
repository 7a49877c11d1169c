use vstd::prelude::*;

verus! {

/// The node configuration parameters; implements a convenient [`Default`]
/// for the most common use.
///
/// `#[non_exhaustive]` allows adding new parameters without breaking
/// downstream users: they create the struct via `default()` and mutate
/// fields according to their preference.
///
/// Directory roots are carried as plain path strings; the unverified shell
/// converts them to filesystem paths when it materializes the directory.
#[non_exhaustive]
#[derive(Debug, PartialEq, Eq, Clone)]
pub struct Conf<'a> {
    /// Command line arguments for the daemon, each a plain token containing
    /// no spaces, like `vec!["-dbcache=300", "-regtest"]`. Note that the
    /// data-directory argument cannot be used because it is automatically
    /// initialized.
    pub args: Vec<&'a str>,
    /// If `true`, the daemon's log output will not be suppressed.
    pub view_stdout: bool,
    /// Must match what is specified in args without dashes; needed to locate
    /// the control socket directory with different/esoteric networks.
    pub network: &'a str,
    /// Optional temporary directory root: a fresh temporary work directory
    /// is created beneath it. Cannot be combined with `staticdir`.
    pub tmpdir: Option<String>,
    /// Optional persistent directory path: created (with parents) if absent,
    /// reused if present, and never auto-deleted. Cannot be combined with
    /// `tmpdir`.
    pub staticdir: Option<String>,
    /// How many times to relaunch the process after an early exit.
    ///
    /// The OS hands out available ports without booking them, so rarely one
    /// is taken by the time the process binds; a relaunch picks fresh ports
    /// and makes the conflict probability negligible.
    pub attempts: u8,
}

impl Default for Conf<'_> {
    /// The default configuration: a single `--regtest` argument, suppressed
    /// output, the `regtest` network, no explicit directory roots, and a
    /// retry budget of 3.
    fn default() -> (c: Self)
        ensures
            c.args@.len() == 1,
            c.args@[0]@ == "--regtest"@,
            !c.view_stdout,
            c.network@ == "regtest"@,
            c.tmpdir is None,
            c.staticdir is None,
            c.attempts == 3,
    {
        Conf {
            args: vec!["--regtest"],
            view_stdout: false,
            network: "regtest",
            tmpdir: None,
            staticdir: None,
            attempts: 3,
        }
    }
}

} // verus!
