//! The fixed startup configuration: the command that launches the companion
//! server process and the set of capability plugins the GUI runtime is built
//! with.

use vstd::prelude::*;

verus! {

/// Identifier of a capability plugin registered with the GUI runtime.
#[derive(Clone, Copy, Debug, PartialEq, Eq, Structural)]
pub enum Plugin {
    /// Process-control capability.
    Process,
    /// External-opener capability (opening links and paths externally).
    Opener,
    /// Filesystem-access capability.
    Fs,
}

/// The command that launches the companion server process: a program name
/// and a single path argument, handed to the operating system unchanged.
#[derive(Debug)]
pub struct SpawnCommand {
    pub program: String,
    pub arg: String,
}

impl SpawnCommand {
    /// The one command this bootstrapper ever issues: `node`, pointed at the
    /// companion server's entry point by a fixed relative path.
    pub open spec fn is_companion_launch(self) -> bool {
        &&& self.program@ == "node"@
        &&& self.arg@ == "../../server/dist/index.js"@
    }
}

/// Builds the companion launch command.
pub fn companion_command() -> (c: SpawnCommand)
    ensures
        c.is_companion_launch(),
{
    SpawnCommand { program: "node".to_owned(), arg: "../../server/dist/index.js".to_owned() }
}

/// The fixed plugin set, in registration order: process control, external
/// opener, filesystem access.
pub open spec fn spec_plugin_set() -> Seq<Plugin> {
    seq![Plugin::Process, Plugin::Opener, Plugin::Fs]
}

/// Builds the plugin set the runtime is initialized with; exactly the three
/// capabilities, in their registration order.
pub fn plugin_set() -> (ps: Vec<Plugin>)
    ensures
        ps@ == spec_plugin_set(),
{
    let mut ps: Vec<Plugin> = Vec::new();
    ps.push(Plugin::Process);
    ps.push(Plugin::Opener);
    ps.push(Plugin::Fs);
    proof {
        assert(ps@ =~= spec_plugin_set());
    }
    ps
}

} // verus!
