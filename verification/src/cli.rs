//! The changelog forms as the command line names them.

use crate::config::ChangelogFormat;
use vstd::prelude::*;

verus! {

/// A changelog form chosen on the command line.
#[derive(Debug, Clone, Copy, PartialEq, Eq, Structural)]
pub enum CliChangelogFormat {
    Markdown,
    Rst,
    Text,
}

impl From<CliChangelogFormat> for ChangelogFormat {
    fn from(f: CliChangelogFormat) -> (r: ChangelogFormat) {
        match f {
            CliChangelogFormat::Markdown => ChangelogFormat::Markdown,
            CliChangelogFormat::Rst => ChangelogFormat::Rst,
            CliChangelogFormat::Text => ChangelogFormat::Text,
        }
    }
}

impl vstd::std_specs::convert::FromSpecImpl<CliChangelogFormat> for ChangelogFormat {
    open spec fn obeys_from_spec() -> bool {
        true
    }

    open spec fn from_spec(f: CliChangelogFormat) -> ChangelogFormat {
        match f {
            CliChangelogFormat::Markdown => ChangelogFormat::Markdown,
            CliChangelogFormat::Rst => ChangelogFormat::Rst,
            CliChangelogFormat::Text => ChangelogFormat::Text,
        }
    }
}

} // verus!
