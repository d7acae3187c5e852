//! How notifications are written.

use vstd::prelude::*;
use vstd::string::*;

verus! {

/// Settings of a run.
#[derive(Debug)]
pub struct Config {
    /// Stands at the start of every line written to the sink.
    pub prefix: String,
}

/// The prefix of the default configuration.
pub open spec fn default_prefix() -> Seq<char> {
    "🐚 $ "@
}

impl Default for Config {
    fn default() -> (config: Config)
        ensures
            config.prefix@ == default_prefix(),
    {
        Config { prefix: String::from_str("🐚 $ ") }
    }
}

impl Config {
    /// A configuration with the same prefix.
    pub fn copy(&self) -> (config: Config)
        ensures
            config.prefix@ == self.prefix@,
    {
        Config { prefix: self.prefix.clone() }
    }

    /// The line that carries `message`: the prefix, then the message.
    pub fn line(&self, message: &str) -> (line: String)
        ensures
            line@ == self.prefix@ + message@,
    {
        self.prefix.clone().concat(message)
    }
}

} // verus!
