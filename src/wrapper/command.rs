//! Commands and the registry that holds them by name.
use vstd::prelude::*;
use crate::error::UmbrellaError;

verus! {

/// A command of the plugin.
pub trait Command {
    /// The name that `name` returns; a command that does not say leaves it
    /// unspecified.
    closed spec fn spec_name(&self) -> Seq<char> {
        arbitrary()
    }

    /// The command's name.
    fn name(&self) -> (r: &str)
        ensures
            r@ == self.spec_name(),
    ;

    /// Runs the command with `args`.
    fn execute(&mut self, args: &[String]) -> Result<String, UmbrellaError>;

    /// Whether the command can be undone.
    fn is_undoable(&self) -> bool {
        false
    }

    /// Undoes the command.
    fn undo(&mut self) -> Result<(), UmbrellaError> {
        Err(UmbrellaError::CommandExecution("Command does not support undo".to_string()))
    }

    /// The command's help text.
    fn help(&self) -> String {
        let mut s = "Help for command: ".to_string();
        s.append(self.name());
        s
    }
}

impl Command for Box<dyn Command> {
    open spec fn spec_name(&self) -> Seq<char> {
        (**self).spec_name()
    }

    fn name(&self) -> (r: &str) {
        (**self).name()
    }

    fn execute(&mut self, args: &[String]) -> Result<String, UmbrellaError> {
        (**self).execute(args)
    }

    fn is_undoable(&self) -> bool {
        (**self).is_undoable()
    }

    fn undo(&mut self) -> Result<(), UmbrellaError> {
        (**self).undo()
    }

    fn help(&self) -> String {
        (**self).help()
    }
}

/// A command with a name and a description, which does nothing but say that
/// it ran.
pub struct BaseCommand {
    name: String,
    description: String,
}

impl BaseCommand {
    /// The command's description.
    pub closed spec fn spec_description(&self) -> Seq<char> {
        self.description@
    }

    /// A command with the given name and description.
    pub fn new(name: &str, description: &str) -> (r: Self)
        ensures
            r.spec_name() == name@,
            r.spec_description() == description@,
    {
        BaseCommand { name: name.to_string(), description: description.to_string() }
    }

    /// The command's description.
    pub fn description(&self) -> (r: &str)
        ensures
            r@ == self.spec_description(),
    {
        self.description.as_str()
    }

    /// What running the command answers: "Base command '<name>' executed".
    pub fn run(&self) -> (r: String)
        ensures
            r@ == "Base command '"@ + self.spec_name() + "' executed"@,
    {
        let mut s = "Base command '".to_string();
        s.append(self.name.as_str());
        s.append("' executed");
        s
    }

    /// The help text: "<name>: <description>".
    pub fn describe(&self) -> (r: String)
        ensures
            r@ == self.spec_name() + ": "@ + self.spec_description(),
    {
        let mut s = self.name.clone();
        s.append(": ");
        s.append(self.description.as_str());
        s
    }
}

impl Command for BaseCommand {
    closed spec fn spec_name(&self) -> Seq<char> {
        self.name@
    }

    fn name(&self) -> (r: &str) {
        self.name.as_str()
    }

    fn execute(&mut self, args: &[String]) -> Result<String, UmbrellaError> {
        Ok(self.run())
    }

    fn help(&self) -> String {
        self.describe()
    }
}

/// The commands registered, each under its own name.
pub struct CommandRegistry<C = Box<dyn Command>> {
    names: Vec<String>,
    commands: Vec<C>,
}

impl<C: Command> CommandRegistry<C> {
    /// The names of the commands registered, in the order of registration.
    pub closed spec fn spec_names(&self) -> Seq<Seq<char>> {
        self.names@.map_values(|s: String| s@)
    }

    /// The registry's invariant: one command per name, names never repeated.
    pub closed spec fn wf(&self) -> bool {
        &&& self.names@.len() == self.commands@.len()
        &&& self.spec_names().no_duplicates()
    }

    /// A registry never holds a name twice.
    pub proof fn lemma_names_unique(&self)
        requires
            self.wf(),
        ensures
            self.spec_names().no_duplicates(),
    {
    }

    /// An empty registry.
    pub fn new() -> (r: Self)
        ensures
            r.wf(),
            r.spec_names().len() == 0,
    {
        let r = CommandRegistry { names: Vec::new(), commands: Vec::new() };
        proof {
            assert(r.spec_names() =~= Seq::<Seq<char>>::empty());
        }
        r
    }

    /// The position of `name`, none when it is not registered.
    fn position(&self, name: &str) -> (r: Option<usize>)
        requires
            self.wf(),
        ensures
            match r {
                Some(i) => i < self.names@.len() && self.spec_names()[i as int] == name@,
                None => !self.spec_names().contains(name@),
            },
    {
        let wanted = name.to_string();
        let mut i: usize = 0;
        while i < self.names.len()
            invariant
                i <= self.names@.len(),
                wanted@ == name@,
                forall|k: int| 0 <= k < i ==> (#[trigger] self.names@[k])@ != name@,
            decreases self.names@.len() - i,
        {
            if self.names[i] == wanted {
                return Some(i);
            }
            i += 1;
        }
        proof {
            assert forall|k: int| 0 <= k < self.spec_names().len() implies self.spec_names()[k]
                != name@ by {
                assert(self.spec_names()[k] == self.names@[k]@);
            }
        }
        None
    }

    /// Registers `command` under its name; a name already registered is
    /// refused.
    pub fn register(&mut self, command: C) -> (r: Result<(), UmbrellaError>)
        requires
            old(self).wf(),
        ensures
            final(self).wf(),
            old(self).spec_names().contains(command.spec_name()) ==> (r matches Err(e)
                && e is CommandExecution && final(self).spec_names() == old(self).spec_names()),
            !old(self).spec_names().contains(command.spec_name()) ==> r is Ok
                && final(self).spec_names() == old(self).spec_names().push(command.spec_name()),
    {
        let name = command.name().to_string();
        match self.position(name.as_str()) {
            Some(_) => {
                let mut m = "Command '".to_string();
                m.append(name.as_str());
                m.append("' is already registered");
                Err(UmbrellaError::CommandExecution(m))
            },
            None => {
                let ghost before = self.spec_names();
                self.names.push(name);
                self.commands.push(command);
                proof {
                    assert(self.spec_names() =~= before.push(command.spec_name()));
                    assert forall|a: int, b: int|
                        0 <= a < self.spec_names().len() && 0 <= b < self.spec_names().len() && a
                            != b implies self.spec_names()[a] != self.spec_names()[b] by {
                        if a < before.len() && b < before.len() {
                            assert(self.spec_names()[a] == before[a]);
                            assert(self.spec_names()[b] == before[b]);
                        } else if a == before.len() {
                            assert(self.spec_names()[b] == before[b]);
                        } else {
                            assert(self.spec_names()[a] == before[a]);
                        }
                    }
                }
                Ok(())
            },
        }
    }

    /// Removes the command registered under `name`; an unknown name is an
    /// error.
    pub fn deregister(&mut self, name: &str) -> (r: Result<(), UmbrellaError>)
        requires
            old(self).wf(),
        ensures
            final(self).wf(),
            !old(self).spec_names().contains(name@) ==> (r matches Err(e) && e is CommandExecution
                && final(self).spec_names() == old(self).spec_names()),
            old(self).spec_names().contains(name@) ==> r is Ok && final(self).spec_names()
                == old(self).spec_names().remove(old(self).spec_names().index_of(name@)),
    {
        match self.position(name) {
            Some(i) => {
                let ghost before = self.spec_names();
                proof {
                    before.index_of_first_ensures(name@);
                    assert(before.index_of(name@) == i);
                }
                self.names.remove(i);
                self.commands.remove(i);
                proof {
                    assert(self.spec_names() =~= before.remove(i as int));
                    assert forall|a: int, b: int|
                        0 <= a < self.spec_names().len() && 0 <= b < self.spec_names().len() && a
                            != b implies self.spec_names()[a] != self.spec_names()[b] by {
                        let a0 = if a < i {
                            a
                        } else {
                            a + 1
                        };
                        let b0 = if b < i {
                            b
                        } else {
                            b + 1
                        };
                        assert(self.spec_names()[a] == before[a0]);
                        assert(self.spec_names()[b] == before[b0]);
                    }
                }
                Ok(())
            },
            None => {
                let mut m = "Command '".to_string();
                m.append(name);
                m.append("' is not registered");
                Err(UmbrellaError::CommandExecution(m))
            },
        }
    }

    /// Runs the command registered under `name` with `args`; an unknown name
    /// is an error.
    pub fn execute(&mut self, name: &str, args: &[String]) -> (r: Result<String, UmbrellaError>)
        requires
            old(self).wf(),
        ensures
            final(self).wf(),
            final(self).spec_names() == old(self).spec_names(),
            !old(self).spec_names().contains(name@) ==> (r matches Err(e)
                && e is CommandExecution),
    {
        match self.position(name) {
            Some(i) => {
                let mut command = self.commands.remove(i);
                let r = command.execute(args);
                self.commands.insert(i, command);
                r
            },
            None => {
                let mut m = "Command '".to_string();
                m.append(name);
                m.append("' is not registered");
                Err(UmbrellaError::CommandExecution(m))
            },
        }
    }

    /// The names of the commands registered.
    pub fn list_commands(&self) -> (r: Vec<String>)
        ensures
            r@.map_values(|s: String| s@) == self.spec_names(),
    {
        let mut out: Vec<String> = Vec::new();
        let mut i: usize = 0;
        while i < self.names.len()
            invariant
                i <= self.names@.len(),
                out@.map_values(|s: String| s@) == self.spec_names().take(i as int),
            decreases self.names@.len() - i,
        {
            let ghost before = out@;
            out.push(self.names[i].clone());
            proof {
                assert(out@ == before.push(self.names@[i as int]));
                assert(self.spec_names()[i as int] == self.names@[i as int]@);
                assert(out@.map_values(|s: String| s@) =~= before.map_values(|s: String| s@).push(
                    self.names@[i as int]@,
                ));
                assert(self.spec_names().take(i as int + 1) =~= self.spec_names().take(
                    i as int,
                ).push(self.spec_names()[i as int]));
                assert(out@.map_values(|s: String| s@) =~= self.spec_names().take(i as int + 1));
            }
            i += 1;
        }
        proof {
            assert(self.spec_names().take(self.names@.len() as int) =~= self.spec_names());
        }
        out
    }

    /// The help text of the command registered under `name`; an unknown name
    /// is an error.
    pub fn get_help(&self, name: &str) -> (r: Result<String, UmbrellaError>)
        requires
            self.wf(),
        ensures
            self.spec_names().contains(name@) <==> r is Ok,
            !self.spec_names().contains(name@) ==> (r matches Err(e) && e is CommandExecution),
    {
        match self.position(name) {
            Some(i) => {
                proof {
                    assert(self.spec_names().contains(name@));
                }
                Ok(self.commands[i].help())
            },
            None => {
                let mut m = "Command '".to_string();
                m.append(name);
                m.append("' is not registered");
                Err(UmbrellaError::CommandExecution(m))
            },
        }
    }

    /// "Available commands:" on a line, then each command's help text on a
    /// line of its own, indented by two spaces.
    pub fn get_all_help(&self) -> (r: String)
        requires
            self.wf(),
        ensures
            self.spec_names().len() == 0 ==> r@ == "Available commands:\n"@,
            r@.len() >= "Available commands:\n"@.len(),
            r@.take("Available commands:\n"@.len() as int) == "Available commands:\n"@,
    {
        let heading = "Available commands:\n";
        let mut help = heading.to_string();
        proof {
            assert(help@.take(heading@.len() as int) =~= heading@);
        }
        let mut i: usize = 0;
        while i < self.commands.len()
            invariant
                i <= self.commands@.len(),
                self.wf(),
                help@.len() >= heading@.len(),
                help@.take(heading@.len() as int) == heading@,
                i == 0 ==> help@ == heading@,
            decreases self.commands@.len() - i,
        {
            let ghost before = help@;
            help.append("  ");
            let text = self.commands[i].help();
            help.append(text.as_str());
            help.append("\n");
            proof {
                assert(help@.take(heading@.len() as int) =~= before.take(heading@.len() as int));
            }
            i += 1;
        }
        help
    }
}

} // verus!
