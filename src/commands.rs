//! The plugin's commands, registered and described together.
use vstd::prelude::*;
use crate::error::UmbrellaError;
use crate::wrapper::command::CommandRegistry;

verus! {

/// Registers every command of the plugin; there are none yet, so the
/// registry is left as it is.
pub fn register_all_commands(registry: &mut CommandRegistry) -> (r: Result<(), UmbrellaError>)
    requires
        old(registry).wf(),
    ensures
        r is Ok,
        final(registry).wf(),
        final(registry).spec_names() == old(registry).spec_names(),
{
    Ok(())
}

/// Deregisters every command of the registry.
pub fn deregister_all_commands(registry: &mut CommandRegistry) -> (r: Result<(), UmbrellaError>)
    requires
        old(registry).wf(),
    ensures
        r is Ok,
        final(registry).wf(),
        final(registry).spec_names().len() == 0,
{
    let names = registry.list_commands();
    proof {
        registry.lemma_names_unique();
        assert(registry.spec_names().skip(0) =~= registry.spec_names());
    }
    let mut i: usize = 0;
    while i < names.len()
        invariant
            i <= names@.len(),
            registry.wf(),
            names@.map_values(|s: String| s@).no_duplicates(),
            registry.spec_names() =~= names@.map_values(|s: String| s@).skip(i as int),
        decreases names@.len() - i,
    {
        let ghost rest = registry.spec_names();
        proof {
            assert(rest[0] == names@[i as int]@);
            assert(rest.contains(names@[i as int]@));
        }
        let _ = registry.deregister(names[i].as_str());
        proof {
            rest.index_of_first_ensures(names@[i as int]@);
            assert(rest.index_of(names@[i as int]@) == 0) by {
                assert(rest[0] == names@[i as int]@);
            }
            assert(rest.remove(0) =~= names@.map_values(|s: String| s@).skip(i as int + 1));
        }
        i += 1;
    }
    Ok(())
}

/// A description of the commands: a title, an underline and a blank line,
/// then the help of every command, or a note that none is registered.
pub fn get_commands_info(registry: &CommandRegistry) -> (r: String)
    requires
        registry.wf(),
    ensures
        registry.spec_names().len() > 0 ==> exists|h: Seq<char>|
            r@ == "Umbrella Maya Plugin Commands:\n"@ + "=====================================\n\n"@
                + h && h.take("Available commands:\n"@.len() as int) == "Available commands:\n"@,
        registry.spec_names().len() == 0 ==> r@ == "Umbrella Maya Plugin Commands:\n"@
            + "=====================================\n\n"@
            + "No commands are currently registered.\n"@,
{
    let mut info = "Umbrella Maya Plugin Commands:\n".to_string();
    info.append("=====================================\n\n");
    let commands = registry.list_commands();
    if commands.len() == 0 {
        info.append("No commands are currently registered.\n");
    } else {
        let help = registry.get_all_help();
        info.append(help.as_str());
        proof {
            assert(info@ == "Umbrella Maya Plugin Commands:\n"@
                + "=====================================\n\n"@ + help@);
        }
    }
    info
}

} // verus!
