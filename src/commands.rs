use vstd::prelude::*;

verus! {

/// A command that the embedded web content may invoke through the bridge.
#[derive(Clone, Copy, Debug, PartialEq, Eq, Structural)]
pub enum Command {
    ToggleDevTools,
}

impl Command {
    /// The identifier under which the command is registered and invoked.
    pub open spec fn spec_name(self) -> Seq<char> {
        match self {
            Command::ToggleDevTools => "toggle_dev_tools"@,
        }
    }

    pub fn name(&self) -> (r: &'static str)
        ensures
            r@ == self.spec_name(),
    {
        match self {
            Command::ToggleDevTools => "toggle_dev_tools",
        }
    }
}

/// Every command exposed to the web content, in registration order.
pub open spec fn spec_command_table() -> Seq<Command> {
    seq![Command::ToggleDevTools]
}

/// The command registered under `name`, if any.
pub open spec fn spec_resolve(name: Seq<char>) -> Option<Command> {
    if exists|i: int| 0 <= i < spec_command_table().len() && spec_command_table()[i].spec_name() == name {
        Some(
            spec_command_table()[choose|i: int|
                0 <= i < spec_command_table().len() && spec_command_table()[i].spec_name() == name],
        )
    } else {
        None
    }
}

/// The table that the bootstrap registers with the runtime.
pub fn command_table() -> (r: Vec<Command>)
    ensures
        r@ == spec_command_table(),
{
    let r = vec![Command::ToggleDevTools];
    assert(r@ =~= spec_command_table());
    r
}

/// Looks up the command that an invocation names.
pub fn resolve_command(name: &str) -> (r: Option<Command>)
    ensures
        r == spec_resolve(name@),
{
    let table = command_table();
    let wanted = name.to_owned();
    let mut i: usize = 0;
    while i < table.len()
        invariant
            table@ == spec_command_table(),
            wanted@ == name@,
            0 <= i <= table.len(),
            forall|j: int| 0 <= j < i ==> table@[j].spec_name() != name@,
        decreases table.len() - i,
    {
        let candidate = table[i].name().to_owned();
        if candidate == wanted {
            return Some(table[i]);
        }
        i += 1;
    }
    None
}

/// The table holds exactly one command, and a name reaches it exactly when it is
/// the identifier that the command is registered under.
pub proof fn lemma_single_command(name: Seq<char>)
    ensures
        spec_command_table().len() == 1,
        spec_resolve(name) is Some <==> name == Command::ToggleDevTools.spec_name(),
        name == Command::ToggleDevTools.spec_name() ==> spec_resolve(name) == Some(
            Command::ToggleDevTools,
        ),
{
    if name == Command::ToggleDevTools.spec_name() {
        assert(spec_command_table()[0].spec_name() == name);
    }
}

} // verus!
