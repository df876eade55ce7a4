use vstd::prelude::*;

verus! {

/// The parsed user intent of one invocation: the target file paths and the
/// recognized flags. The shell that reads the command line fills this in;
/// everything the library decides is a function of these fields.
#[derive(Clone, Debug)]
pub struct Cli {
    /// The file paths to touch, in the order given; `None` when the command
    /// line named no file at all.
    pub file_paths: Option<Vec<String>>,
    /// Restrict the update to the access time only.
    pub access: bool,
    /// Do not create files that do not exist; silently skip them.
    pub no_create: bool,
    /// A date string to use instead of the current time.
    pub date: Option<String>,
    /// Restrict the update to the modification time only.
    pub modification: bool,
    /// A path whose existing times are used instead of the current time.
    pub reference: Option<String>,
}

/// The date string decides the timestamps: it takes precedence over a
/// reference path whenever both are supplied.
pub open spec fn wants_date(cli: Cli) -> bool {
    cli.date is Some
}

/// A reference path decides the timestamps only when no date string is given.
pub open spec fn wants_reference(cli: Cli) -> bool {
    cli.date is None && cli.reference is Some
}

/// With neither a date string nor a reference path, the current time decides.
pub open spec fn wants_now(cli: Cli) -> bool {
    cli.date is None && cli.reference is None
}

impl Cli {
    /// An invocation that names no file is a usage error; the shell prints
    /// the usage hint and exits non-zero exactly when this returns `false`.
    pub fn has_targets(&self) -> (r: bool)
        ensures
            r <==> self.file_paths is Some,
    {
        self.file_paths.is_some()
    }
}

} // verus!
