//! What the program is started with.

use crate::targets::{first_occurrences, texts, TargetResourceSet};
use vstd::prelude::*;

verus! {

/// The port listened on when none is given.
pub const DEFAULT_PORT: u16 = 3030;

/// The settings given on the command line.
#[derive(Clone, Debug, PartialEq, Eq)]
pub struct Arguments {
    /// The drives whose permissions are changed.
    pub drive_id: Vec<String>,
    /// The path of the service account's key file.
    pub secret: String,
    /// The port to listen on.
    pub port: u16,
}

impl Arguments {
    /// The path of the key file when none is given.
    pub open spec fn default_secret() -> Seq<char> {
        "clientsecret.json"@
    }

    /// The settings for the drives given, with the key file and the port
    /// left at their defaults.
    pub fn with_defaults(drive_id: Vec<String>) -> (arguments: Arguments)
        ensures
            arguments.drive_id == drive_id,
            arguments.secret@ == Arguments::default_secret(),
            arguments.port == DEFAULT_PORT,
    {
        Arguments { drive_id, secret: "clientsecret.json".to_owned(), port: DEFAULT_PORT }
    }

    /// The set of drives to fan out over: the drives given, each once, in
    /// the order given. None where no drive was given.
    pub fn targets(&self) -> (set: Option<TargetResourceSet>)
        ensures
            set is None <==> self.drive_id.len() == 0,
            set matches Some(targets) ==> targets@ == first_occurrences(texts(self.drive_id@)),
    {
        TargetResourceSet::new(&self.drive_id)
    }
}

} // verus!
