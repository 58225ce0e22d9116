use vstd::prelude::*;
use vstd::string::StringExecFns;

verus! {

/// Command-line arguments.
#[derive(Debug)]
pub struct Cli {
    /// Path to the config file.
    pub config: String,
}

impl Cli {
    /// The path used when `--config` is not given.
    pub open spec fn default_config_path() -> Seq<char> {
        "config.yaml"@
    }
}

impl Default for Cli {
    fn default() -> (cli: Self)
        ensures
            cli.config@ == Cli::default_config_path(),
    {
        Cli { config: String::from_str("config.yaml") }
    }
}

} // verus!
