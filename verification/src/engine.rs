//! What the playback engine is told at start-up, and what it reports back.

use vstd::prelude::*;
use vstd::string::*;

verus! {

/// An event taken from the playback engine's queue.
#[derive(Clone, Debug, PartialEq, Eq)]
pub enum EngineEvent {
    /// The file being played has stopped.
    EndOfMedia,
    /// Any other event, with its description.
    Other(String),
    /// The engine reported an error, with its description.
    Error(String),
}

impl EngineEvent {
    /// True when the coordinator keeps draining after this event.
    pub open spec fn is_benign(self) -> bool {
        self is Other
    }

    /// Whether the coordinator keeps draining after this event.
    pub fn benign(&self) -> (b: bool)
        ensures
            b == self.is_benign(),
    {
        match self {
            EngineEvent::Other(_) => true,
            _ => false,
        }
    }
}

/// A start-up option of the engine: a name and the value it is set to.
#[derive(Clone, Debug, PartialEq, Eq)]
pub struct EngineOption {
    pub name: String,
    pub value: String,
}

/// The options an engine is created with, as views: video output delegated to the render API,
/// hardware decoding chosen automatically among the safe methods.
pub open spec fn startup_option_values() -> Seq<(Seq<char>, Seq<char>)> {
    seq![("vo"@, "libmpv"@), ("hwdec"@, "auto-safe"@)]
}

/// The options an engine is created with. They are read at construction only.
pub fn startup_options() -> (options: Vec<EngineOption>)
    ensures
        options@.len() == startup_option_values().len(),
        forall|i: int|
            0 <= i < options@.len() ==> (#[trigger] options@[i].name@, options@[i].value@)
                == startup_option_values()[i],
{
    let mut options: Vec<EngineOption> = Vec::new();
    options.push(
        EngineOption { name: String::from_str("vo"), value: String::from_str("libmpv") },
    );
    options.push(
        EngineOption { name: String::from_str("hwdec"), value: String::from_str("auto-safe") },
    );
    options
}

/// A command for the engine: its name and its arguments.
#[derive(Clone, Debug, PartialEq, Eq)]
pub struct Command {
    pub name: String,
    pub args: Vec<String>,
}

/// The command that replaces whatever is playing with `source_uri`. The engine answers at
/// once; whether the source could be opened is reported later through its event queue.
pub fn load_command(source_uri: &str) -> (command: Command)
    ensures
        command.name@ == "loadfile"@,
        command.args@.len() == 2,
        command.args@[0]@ == source_uri@,
        command.args@[1]@ == "replace"@,
{
    let mut args: Vec<String> = Vec::new();
    args.push(String::from_str(source_uri));
    args.push(String::from_str("replace"));
    Command { name: String::from_str("loadfile"), args }
}

} // verus!
