//! The command line: which configuration files to try, and what a subcommand yields.
use vstd::prelude::*;
use crate::config;
use crate::config::{default_view, selected, text_of, written, Config, Document};

verus! {

/// A subcommand run instead of the panel.
#[derive(Clone, Copy, Debug, PartialEq, Eq, Structural)]
pub enum SubCommand {
    /// Print the default configuration.
    PrintConfig,
}

impl SubCommand {
    /// The document to print: every field at its default.
    pub fn run(&self) -> (r: Document)
        ensures
            written(default_view(), &r),
    {
        match self {
            SubCommand::PrintConfig => print_config(),
        }
    }
}

fn print_config() -> (r: Document)
    ensures
        written(default_view(), &r),
{
    let cfg = Config::default();
    cfg.to_document()
}

/// The panel's arguments: a configuration file, and a subcommand to run instead of
/// the panel.
#[derive(Clone, Debug)]
pub struct PolarBear {
    pub config: Option<String>,
    pub cmd: Option<SubCommand>,
}

impl PolarBear {
    /// The files to try, in order, given the platform's configuration directory.
    pub fn candidates(&self, config_dir: &Option<String>) -> (r: Vec<String>)
        ensures
            r@.map_values(|s: String| s@) == config::candidates_of(
                text_of(self.config),
                text_of(*config_dir),
            ),
    {
        config::candidate_paths(&self.config, config_dir)
    }

    /// The configuration from what was read of each candidate, in order; the defaults
    /// when none gives one.
    pub fn try_load_config(&self, documents: &Vec<Option<Document>>) -> (r: Config)
        ensures
            r@ == selected(documents@),
    {
        let (cfg, _) = config::resolve_first(documents);
        cfg
    }
}

} // verus!
