//! The command line.

use vstd::prelude::*;
use vstd::string::*;

verus! {

/// What is printed when the command line names no camera.
pub const USAGE: &'static str = "usage: viscous [--cli] <serial-port|tcp://host[:port]>";

/// The flag that asks for the bare command mode.
pub open spec fn is_flag(argument: String) -> bool {
    argument@ == "--cli"@
}

/// Whether the first argument that is not the flag sits at `place`.
pub open spec fn names_target(arguments: Seq<String>, place: int) -> bool {
    &&& 0 <= place < arguments.len()
    &&& !is_flag(arguments[place])
    &&& forall|earlier: int| 0 <= earlier < place ==> is_flag(#[trigger] arguments[earlier])
}

/// Whether nothing on the line is anything but the flag.
pub open spec fn only_flags(arguments: Seq<String>) -> bool {
    forall|place: int| 0 <= place < arguments.len() ==> is_flag(#[trigger] arguments[place])
}

/// Parses `[--cli] <target>`: whether bare command mode was asked for, anywhere
/// on the line, and what to connect to, which is the first argument that is
/// not the flag. `None` if there is nothing to connect to.
pub fn parse_args(arguments: &[String]) -> (parsed: Option<(bool, String)>)
    ensures
        parsed is None <==> (forall|place: int|
            0 <= place < arguments@.len() ==> is_flag(#[trigger] arguments@[place])),
        parsed is None <==> only_flags(arguments@),
        parsed matches Some((cli, target)) ==> {
            &&& cli == exists|place: int|
                0 <= place < arguments@.len() && is_flag(#[trigger] arguments@[place])
            &&& exists|place: int|
                #[trigger] names_target(arguments@, place) && target@ == arguments@[place]@
        },
{
    let mut cli_requested: bool = false;
    let mut target: Option<String> = None;
    let mut index: usize = 0;
    while index < arguments.len()
        invariant
            index <= arguments@.len(),
            cli_requested == exists|place: int|
                0 <= place < index && is_flag(#[trigger] arguments@[place]),
            target is None <==> (forall|place: int|
                0 <= place < index ==> is_flag(#[trigger] arguments@[place])),
            target matches Some(found) ==> exists|place: int|
                place < index && #[trigger] names_target(arguments@, place) && found@
                    == arguments@[place]@,
        decreases arguments@.len() - index,
    {
        let argument = &arguments[index];
        if is_cli_flag(argument.as_str()) {
            cli_requested = true;
            assert(is_flag(arguments@[index as int]));
        } else if target.is_none() {
            target = Some(argument.clone());
            assert(names_target(arguments@, index as int));
        }
        index += 1;
    }
    match target {
        Some(target) => Some((cli_requested, target)),
        None => None,
    }
}

fn is_cli_flag(argument: &str) -> (flag: bool)
    ensures
        flag == (argument@ == "--cli"@),
{
    argument.to_owned() == "--cli".to_owned()
}

/// The target is the one argument that comes after nothing but flags and is
/// none itself, so that there is one at most.
pub proof fn there_is_one_target(arguments: Seq<String>, first: int, second: int)
    requires
        names_target(arguments, first),
        names_target(arguments, second),
    ensures
        first == second,
        arguments[first]@ != "--cli"@,
        forall|earlier: int| 0 <= earlier < first ==> #[trigger] arguments[earlier]@ == "--cli"@,
{
    if first < second {
        assert(is_flag(arguments[first]));
    }
    if second < first {
        assert(is_flag(arguments[second]));
    }
    assert forall|earlier: int| 0 <= earlier < first implies #[trigger] arguments[earlier]@
        == "--cli"@ by {
        assert(is_flag(arguments[earlier]));
    }
}

} // verus!
