use vstd::prelude::*;

use crate::action::Action;

verus! {

/// One external command: a program name and its arguments. The overlay
/// never runs a command itself; it only says which to run.
pub struct CommandLine {
    pub program: String,
    pub args: Vec<String>,
}

impl CommandLine {
    /// The command as plain character sequences: the program and each
    /// argument in order.
    pub open spec fn view_words(self) -> Seq<Seq<char>> {
        seq![self.program@] + self.args@.map_values(|a: String| a@)
    }
}

/// The commands each confirmed action runs, in order, each as its words.
/// Shutting down runs `shutdown now`; rebooting runs `reboot`; sleeping
/// pauses every media player, locks the screen, and suspends.
pub open spec fn spec_commands_for(action: Action) -> Seq<Seq<Seq<char>>> {
    match action {
        Action::ShutDown => seq![seq!["shutdown"@, "now"@]],
        Action::Reboot => seq![seq!["reboot"@]],
        Action::Sleep => seq![
            seq!["playerctl"@, "-a"@, "pause"@],
            seq!["hyprlock"@],
            seq!["systemctl"@, "suspend"@],
        ],
    }
}

fn one_word(program: &str) -> (c: CommandLine)
    ensures
        c.view_words() == seq![program@],
{
    let c = CommandLine { program: String::from_str(program), args: Vec::new() };
    proof {
        assert(c.args@.map_values(|a: String| a@) =~= Seq::<Seq<char>>::empty());
        assert(c.view_words() =~= seq![program@]);
    }
    c
}

fn two_words(program: &str, arg: &str) -> (c: CommandLine)
    ensures
        c.view_words() == seq![program@, arg@],
{
    let mut args: Vec<String> = Vec::new();
    args.push(String::from_str(arg));
    let c = CommandLine { program: String::from_str(program), args };
    proof {
        assert(c.args@.map_values(|a: String| a@) =~= seq![arg@]);
        assert(c.view_words() =~= seq![program@, arg@]);
    }
    c
}

fn three_words(program: &str, first: &str, second: &str) -> (c: CommandLine)
    ensures
        c.view_words() == seq![program@, first@, second@],
{
    let mut args: Vec<String> = Vec::new();
    args.push(String::from_str(first));
    args.push(String::from_str(second));
    let c = CommandLine { program: String::from_str(program), args };
    proof {
        assert(c.args@.map_values(|a: String| a@) =~= seq![first@, second@]);
        assert(c.view_words() =~= seq![program@, first@, second@]);
    }
    c
}

/// The commands a confirmed action runs, in the order to run them.
pub fn commands_for(action: &Action) -> (r: Vec<CommandLine>)
    ensures
        r@.map_values(|c: CommandLine| c.view_words()) == spec_commands_for(*action),
{
    let mut r: Vec<CommandLine> = Vec::new();
    match action {
        Action::ShutDown => {
            r.push(two_words("shutdown", "now"));
        },
        Action::Reboot => {
            r.push(one_word("reboot"));
        },
        Action::Sleep => {
            r.push(three_words("playerctl", "-a", "pause"));
            r.push(one_word("hyprlock"));
            r.push(two_words("systemctl", "suspend"));
        },
    }
    proof {
        assert(r@.map_values(|c: CommandLine| c.view_words()) =~~= spec_commands_for(*action));
    }
    r
}

/// Every action runs at least one command, and every command has at least
/// its program word.
pub proof fn lemma_commands_nonempty(action: Action)
    ensures
        spec_commands_for(action).len() >= 1,
        forall|i: int|
            0 <= i < spec_commands_for(action).len() ==> (#[trigger] spec_commands_for(action)[i]).len() >= 1,
{
}

} // verus!
