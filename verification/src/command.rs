//! Window-manager commands and the registry that builds them by name.
//!
//! Running a command (spawning a shell, leaving the process) is the
//! program's business; this module decides which command a name and its
//! arguments denote.
use vstd::prelude::*;
use crate::text::{push_char, str_eq};

verus! {

/// A command that a menu item or key binding can trigger.
pub trait Command {
    /// The command's name, as text.
    spec fn name_view(&self) -> Seq<char>;

    /// The command's name.
    fn name(&self) -> (r: &'static str)
        ensures
            r@ == self.name_view(),
    ;
}

/// Run a shell command line.
pub struct ExecCommand {
    pub command: String,
}

/// Restart the window manager.
pub struct RestartCommand;

/// Leave the window manager.
pub struct QuitCommand;

/// Reload the configuration.
pub struct ReconfigureCommand;

impl Command for ExecCommand {
    open spec fn name_view(&self) -> Seq<char> {
        "exec"@
    }

    fn name(&self) -> (r: &'static str) {
        proof {
            reveal_strlit("exec");
        }
        "exec"
    }
}

impl Command for RestartCommand {
    open spec fn name_view(&self) -> Seq<char> {
        "restart"@
    }

    fn name(&self) -> (r: &'static str) {
        proof {
            reveal_strlit("restart");
        }
        "restart"
    }
}

impl Command for QuitCommand {
    open spec fn name_view(&self) -> Seq<char> {
        "quit"@
    }

    fn name(&self) -> (r: &'static str) {
        proof {
            reveal_strlit("quit");
        }
        "quit"
    }
}

impl Command for ReconfigureCommand {
    open spec fn name_view(&self) -> Seq<char> {
        "reconfigure"@
    }

    fn name(&self) -> (r: &'static str) {
        proof {
            reveal_strlit("reconfigure");
        }
        "reconfigure"
    }
}

/// How a registered name turns its arguments into a command.
#[derive(Clone, Copy, Debug, PartialEq, Eq, Structural)]
pub enum CommandFactory {
    /// An `ExecCommand` running the arguments joined by spaces.
    Exec,
    Restart,
    Quit,
    Reconfigure,
}

/// A command built by the registry.
pub enum BuiltCommand {
    Exec(ExecCommand),
    Restart(RestartCommand),
    Quit(QuitCommand),
    Reconfigure(ReconfigureCommand),
}

/// What a built command is, with the command line of an `exec`.
pub enum CommandView {
    Exec(Seq<char>),
    Restart,
    Quit,
    Reconfigure,
}

impl BuiltCommand {
    pub open spec fn view(&self) -> CommandView {
        match self {
            BuiltCommand::Exec(e) => CommandView::Exec(e.command@),
            BuiltCommand::Restart(_) => CommandView::Restart,
            BuiltCommand::Quit(_) => CommandView::Quit,
            BuiltCommand::Reconfigure(_) => CommandView::Reconfigure,
        }
    }

    /// The built command's name.
    pub fn name(&self) -> (r: &'static str)
        ensures
            r@ == (match self.view() {
                CommandView::Exec(_) => "exec"@,
                CommandView::Restart => "restart"@,
                CommandView::Quit => "quit"@,
                CommandView::Reconfigure => "reconfigure"@,
            }),
    {
        match self {
            BuiltCommand::Exec(c) => c.name(),
            BuiltCommand::Restart(c) => c.name(),
            BuiltCommand::Quit(c) => c.name(),
            BuiltCommand::Reconfigure(c) => c.name(),
        }
    }

    /// The command as a trait object.
    pub fn into_boxed(self) -> (r: Box<dyn Command>) {
        match self {
            BuiltCommand::Exec(c) => Box::new(c),
            BuiltCommand::Restart(c) => Box::new(c),
            BuiltCommand::Quit(c) => Box::new(c),
            BuiltCommand::Reconfigure(c) => Box::new(c),
        }
    }
}

/// Why the registry could not build a command.
#[derive(Debug, PartialEq, Eq)]
pub enum CommandError {
    /// No factory is registered under the name.
    Unknown(String),
}

impl CommandError {
    /// The error's text: `Unknown command: ` followed by the name.
    pub fn message(&self) -> (r: String)
        ensures
            r@ == (match self {
                CommandError::Unknown(n) => seq![
                    'U', 'n', 'k', 'n', 'o', 'w', 'n', ' ', 'c', 'o', 'm', 'm', 'a', 'n', 'd', ':', ' '
                ] + n@,
            }),
    {
        match self {
            CommandError::Unknown(n) => {
                let mut r = String::new();
                push_char(&mut r, 'U');
                push_char(&mut r, 'n');
                push_char(&mut r, 'k');
                push_char(&mut r, 'n');
                push_char(&mut r, 'o');
                push_char(&mut r, 'w');
                push_char(&mut r, 'n');
                push_char(&mut r, ' ');
                push_char(&mut r, 'c');
                push_char(&mut r, 'o');
                push_char(&mut r, 'm');
                push_char(&mut r, 'm');
                push_char(&mut r, 'a');
                push_char(&mut r, 'n');
                push_char(&mut r, 'd');
                push_char(&mut r, ':');
                push_char(&mut r, ' ');
                let ghost head = r@;
                let v = crate::text::to_chars(n.as_str());
                let mut i: usize = 0;
                while i < v.len()
                    invariant
                        i <= v@.len(),
                        v@ == n@,
                        r@ == head + v@.take(i as int),
                    decreases v@.len() - i,
                {
                    push_char(&mut r, v[i]);
                    assert(v@.take(i + 1) =~= v@.take(i as int).push(v@[i as int]));
                    i = i + 1;
                }
                assert(v@.take(v@.len() as int) =~= v@);
                assert(head =~= seq![
                    'U', 'n', 'k', 'n', 'o', 'w', 'n', ' ', 'c', 'o', 'm', 'm', 'a', 'n', 'd', ':', ' '
                ]);
                r
            },
        }
    }
}

/// The words joined with single spaces (`[String]::join(" ")`).
pub open spec fn join_spaces(ws: Seq<Seq<char>>) -> Seq<char>
    decreases ws.len(),
{
    if ws.len() == 0 {
        seq![]
    } else if ws.len() == 1 {
        ws[0]
    } else {
        join_spaces(ws.drop_last()) + seq![' '] + ws.last()
    }
}

/// The views of a list of strings.
pub open spec fn strings_view(v: Seq<String>) -> Seq<Seq<char>> {
    Seq::new(v.len(), |i: int| v[i]@)
}

/// The command that `f` builds from `args`.
pub open spec fn built(f: CommandFactory, args: Seq<Seq<char>>) -> CommandView {
    match f {
        CommandFactory::Exec => CommandView::Exec(join_spaces(args)),
        CommandFactory::Restart => CommandView::Restart,
        CommandFactory::Quit => CommandView::Quit,
        CommandFactory::Reconfigure => CommandView::Reconfigure,
    }
}

/// The registrations in order; a later one for a name replaces an earlier.
pub open spec fn registry_map(s: Seq<(Seq<char>, CommandFactory)>) -> Map<Seq<char>, CommandFactory>
    decreases s.len(),
{
    if s.len() == 0 {
        Map::empty()
    } else {
        registry_map(s.drop_last()).insert(s.last().0, s.last().1)
    }
}

/// Entries after `i` that do not mention `k` leave its lookup as it was.
proof fn lemma_registry_tail(s: Seq<(Seq<char>, CommandFactory)>, i: int, k: Seq<char>)
    requires
        0 <= i <= s.len(),
        forall|j: int| i <= j < s.len() ==> (#[trigger] s[j]).0 != k,
    ensures
        registry_map(s).contains_key(k) == registry_map(s.take(i)).contains_key(k),
        registry_map(s).contains_key(k) ==> registry_map(s)[k] == registry_map(s.take(i))[k],
    decreases s.len() - i,
{
    if i < s.len() {
        let t = s.drop_last();
        assert(t.take(i) =~= s.take(i));
        lemma_registry_tail(t, i, k);
    } else {
        assert(s.take(i) =~= s);
    }
}

/// Joins `args` with single spaces.
fn join_args(args: &[String]) -> (r: String)
    ensures
        r@ == join_spaces(strings_view(args@)),
{
    let mut r = String::new();
    let mut i: usize = 0;
    while i < args.len()
        invariant
            i <= args@.len(),
            r@ == join_spaces(strings_view(args@.take(i as int))),
        decreases args@.len() - i,
    {
        let ghost before = r@;
        if i > 0 {
            push_char(&mut r, ' ');
        }
        let a = &args[i];
        let n = a.unicode_len();
        let mut j: usize = 0;
        let ghost base = r@;
        while j < n
            invariant
                n == a@.len(),
                j <= n,
                r@ == base + a@.take(j as int),
            decreases n - j,
        {
            push_char(&mut r, a.as_str().get_char(j));
            assert(a@.take(j + 1) =~= a@.take(j as int).push(a@[j as int]));
            j = j + 1;
        }
        proof {
            let w = strings_view(args@.take(i + 1));
            assert(w.drop_last() =~= strings_view(args@.take(i as int)));
            assert(w.last() == a@);
            assert(a@.take(n as int) =~= a@);
            if i == 0 {
                assert(r@ =~= w[0]);
            } else {
                assert(r@ =~= before + seq![' '] + a@);
            }
        }
        i = i + 1;
    }
    proof {
        assert(args@.take(args@.len() as int) =~= args@);
    }
    r
}

/// The command that `f` builds from `args`.
fn build(f: CommandFactory, args: &[String]) -> (r: BuiltCommand)
    ensures
        r.view() == built(f, strings_view(args@)),
{
    match f {
        CommandFactory::Exec => BuiltCommand::Exec(ExecCommand { command: join_args(args) }),
        CommandFactory::Restart => BuiltCommand::Restart(RestartCommand),
        CommandFactory::Quit => BuiltCommand::Quit(QuitCommand),
        CommandFactory::Reconfigure => BuiltCommand::Reconfigure(ReconfigureCommand),
    }
}

/// The commands known by name.
pub struct CommandRegistry {
    commands: Vec<(String, CommandFactory)>,
}

/// The names registered when a registry is made.
pub open spec fn builtin_commands() -> Map<Seq<char>, CommandFactory> {
    map![
        "exec"@ => CommandFactory::Exec,
        "restart"@ => CommandFactory::Restart,
        "quit"@ => CommandFactory::Quit,
        "reconfigure"@ => CommandFactory::Reconfigure,
        "reloadtheme"@ => CommandFactory::Reconfigure,
    ]
}

impl CommandRegistry {
    /// The factory registered under each name.
    pub closed spec fn view(&self) -> Map<Seq<char>, CommandFactory> {
        registry_map(Seq::new(self.commands@.len(), |i: int| (self.commands@[i].0@, self.commands@[i].1)))
    }

    /// A registry holding the built-in commands: `exec`, `restart`, `quit`,
    /// and `reconfigure` and `reloadtheme` (both reconfigure).
    pub fn new() -> (r: Self)
        ensures
            r.view() == builtin_commands(),
    {
        let mut r = CommandRegistry { commands: Vec::new() };
        proof {
            assert(r.view() == Map::<Seq<char>, CommandFactory>::empty());
        }
        r.register("exec", CommandFactory::Exec);
        r.register("restart", CommandFactory::Restart);
        r.register("quit", CommandFactory::Quit);
        r.register("reconfigure", CommandFactory::Reconfigure);
        r.register("reloadtheme", CommandFactory::Reconfigure);
        r
    }

    /// Register `factory` under `name`, replacing what was there.
    pub fn register(&mut self, name: &str, factory: CommandFactory)
        ensures
            final(self).view() == old(self).view().insert(name@, factory),
    {
        let ghost old_s = Seq::new(
            self.commands@.len(),
            |i: int| (self.commands@[i].0@, self.commands@[i].1),
        );
        self.commands.push((String::from_str(name), factory));
        proof {
            let s = Seq::new(
                self.commands@.len(),
                |i: int| (self.commands@[i].0@, self.commands@[i].1),
            );
            assert(s.drop_last() =~= old_s);
        }
    }

    /// Build the command registered under `name` from `args`.
    pub fn create(&self, name: &str, args: &[String]) -> (r: Result<BuiltCommand, CommandError>)
        ensures
            match r {
                Ok(c) => self.view().contains_key(name@) && c.view() == built(
                    self.view()[name@],
                    strings_view(args@),
                ),
                Err(CommandError::Unknown(n)) => !self.view().contains_key(name@) && n@ == name@,
            },
    {
        let ghost s = Seq::new(
            self.commands@.len(),
            |i: int| (self.commands@[i].0@, self.commands@[i].1),
        );
        let mut i = self.commands.len();
        while i > 0
            invariant
                i <= self.commands@.len(),
                s == Seq::new(
                    self.commands@.len(),
                    |i: int| (self.commands@[i].0@, self.commands@[i].1),
                ),
                forall|j: int| i <= j < s.len() ==> (#[trigger] s[j]).0 != name@,
            decreases i,
        {
            if str_eq(self.commands[i - 1].0.as_str(), name) {
                proof {
                    lemma_registry_tail(s, i as int, name@);
                    let t = s.take(i as int);
                    assert(t.drop_last() =~= s.take(i - 1));
                }
                return Ok(build(self.commands[i - 1].1, args));
            }
            i = i - 1;
        }
        proof {
            lemma_registry_tail(s, 0, name@);
            assert(s.take(0) =~= Seq::<(Seq<char>, CommandFactory)>::empty());
        }
        Err(CommandError::Unknown(String::from_str(name)))
    }
}

impl Default for CommandRegistry {
    fn default() -> (r: Self)
        ensures
            r.view() == builtin_commands(),
    {
        Self::new()
    }
}

} // verus!
