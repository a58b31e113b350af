//! Commands sent to a running window manager by its remote-control tool,
//! and the command line the window manager is started with.
use vstd::prelude::*;
use crate::text::{
    find_char, index_of, lemma_index_of, parse_unsigned, parse_unsigned_range, str_eq, string_of,
    to_chars, word_ranges, words_of,
};

verus! {

/// `p` starts `s`.
pub open spec fn starts_with(s: Seq<char>, p: Seq<char>) -> bool {
    p.len() <= s.len() && s.take(p.len() as int) == p
}

/// `s` split at single spaces into at most `n` parts, the last part taking
/// the rest (`str::splitn(n, ' ')`).
pub open spec fn split_space_n(s: Seq<char>, n: nat) -> Seq<Seq<char>>
    decreases n,
{
    let i = index_of(s, ' ');
    if n <= 1 || i < 0 {
        seq![s]
    } else {
        seq![s.take(i)] + split_space_n(s.skip(i + 1), (n - 1) as nat)
    }
}

/// What a remote command asks for.
#[derive(Debug, PartialEq, Eq)]
pub enum RemoteCommand {
    Restart,
    Quit,
    Reconfigure,
    /// Switch to the workspace with this index.
    SetWorkspace(u32),
    /// Rename the workspace with this index.
    RenameWorkspace(u32, String),
    /// A known command whose argument is missing or not a number.
    Ignored,
    Unknown,
}

/// A remote command with its texts as character sequences.
pub enum RemoteView {
    Restart,
    Quit,
    Reconfigure,
    SetWorkspace(u32),
    RenameWorkspace(u32, Seq<char>),
    Ignored,
    Unknown,
}

impl RemoteCommand {
    pub open spec fn view(&self) -> RemoteView {
        match self {
            RemoteCommand::Restart => RemoteView::Restart,
            RemoteCommand::Quit => RemoteView::Quit,
            RemoteCommand::Reconfigure => RemoteView::Reconfigure,
            RemoteCommand::SetWorkspace(n) => RemoteView::SetWorkspace(*n),
            RemoteCommand::RenameWorkspace(n, s) => RemoteView::RenameWorkspace(*n, s@),
            RemoteCommand::Ignored => RemoteView::Ignored,
            RemoteCommand::Unknown => RemoteView::Unknown,
        }
    }
}

/// What remote command `c` asks for: `restart`/`restartwm`, `quit`/`exit`,
/// `reconfig`/`reconfigure`; `setworkspace N` switches to workspace N
/// (counted from 1); `workspace rename I NAME` renames workspace I (counted
/// from 0) to NAME (empty when left out).
pub open spec fn remote_spec(c: Seq<char>) -> RemoteView {
    if c == "restart"@ || c == "restartwm"@ {
        RemoteView::Restart
    } else if c == "quit"@ || c == "exit"@ {
        RemoteView::Quit
    } else if c == "reconfig"@ || c == "reconfigure"@ {
        RemoteView::Reconfigure
    } else if starts_with(c, "setworkspace"@) {
        let ws = words_of(c);
        if ws.len() > 1 && parse_unsigned(ws[1], 10, u32::MAX as nat) is Some {
            let n = parse_unsigned(ws[1], 10, u32::MAX as nat)->0;
            RemoteView::SetWorkspace(
                if n >= 1 {
                    (n - 1) as u32
                } else {
                    0
                },
            )
        } else {
            RemoteView::Ignored
        }
    } else if starts_with(c, "workspace rename"@) {
        let ps = split_space_n(c, 4);
        if ps.len() >= 3 && parse_unsigned(ps[2], 10, u32::MAX as nat) is Some {
            RemoteView::RenameWorkspace(
                parse_unsigned(ps[2], 10, u32::MAX as nat)->0 as u32,
                if ps.len() > 3 {
                    ps[3]
                } else {
                    seq![]
                },
            )
        } else {
            RemoteView::Ignored
        }
    } else {
        RemoteView::Unknown
    }
}

/// The next space in `v[lo..]`, with what `split_space_n` makes of it.
proof fn lemma_split_step(s: Seq<char>, lo: int, i: int, n: nat)
    requires
        0 <= lo <= s.len(),
        n > 1,
        lo <= i < s.len(),
        index_of(s.subrange(lo, s.len() as int), ' ') == i - lo,
    ensures
        split_space_n(s.subrange(lo, s.len() as int), n) == seq![s.subrange(lo, i)] + split_space_n(
            s.subrange(i + 1, s.len() as int),
            (n - 1) as nat,
        ),
{
    let t = s.subrange(lo, s.len() as int);
    assert(t.take(i - lo) =~= s.subrange(lo, i));
    assert(t.skip(i - lo + 1) =~= s.subrange(i + 1, s.len() as int));
}

/// What a remote-control command asks for.
pub fn parse_remote_command(cmd: &str) -> (r: RemoteCommand)
    ensures
        r.view() == remote_spec(cmd@),
{
    if str_eq(cmd, "restart") || str_eq(cmd, "restartwm") {
        return RemoteCommand::Restart;
    }
    if str_eq(cmd, "quit") || str_eq(cmd, "exit") {
        return RemoteCommand::Quit;
    }
    if str_eq(cmd, "reconfig") || str_eq(cmd, "reconfigure") {
        return RemoteCommand::Reconfigure;
    }
    let v = to_chars(cmd);
    let n = v.len();
    assert(v@.subrange(0, n as int) =~= v@);
    if crate::text::range_starts_with(&v, 0, n, "setworkspace") {
        assert(v@.take("setworkspace"@.len() as int) =~= v@.subrange(0, "setworkspace"@.len() as int));
        let ws = word_ranges(&v, 0, n);
        if ws.len() > 1 {
            let (a, b) = ws[1];
            return match parse_unsigned_range(&v, a, b, 10, 0xffff_ffff) {
                Some(x) => RemoteCommand::SetWorkspace(
                    if x >= 1 {
                        (x - 1) as u32
                    } else {
                        0
                    },
                ),
                None => RemoteCommand::Ignored,
            };
        }
        return RemoteCommand::Ignored;
    }
    if !crate::text::range_starts_with(&v, 0, n, "workspace rename") {
        return RemoteCommand::Unknown;
    }
    assert(v@.take("workspace rename"@.len() as int) =~= v@.subrange(
        0,
        "workspace rename"@.len() as int,
    ));
    assert(!starts_with(cmd@, "setworkspace"@));
    let ghost s = v@;
    let i1 = match find_char(&v, 0, n, ' ') {
        Some(i) => i,
        None => {
            return RemoteCommand::Ignored;
        },
    };
    proof {
        lemma_split_step(s, 0, i1 as int, 4);
    }
    let i2 = match find_char(&v, i1 + 1, n, ' ') {
        Some(i) => i,
        None => {
            proof {
                let t = s.subrange(i1 + 1, n as int);
                assert(split_space_n(t, 3) == seq![t]);
            }
            return RemoteCommand::Ignored;
        },
    };
    proof {
        lemma_split_step(s, i1 + 1, i2 as int, 3);
    }
    let (third_end, has_fourth) = match find_char(&v, i2 + 1, n, ' ') {
        Some(i) => {
            proof {
                lemma_split_step(s, i2 + 1, i as int, 2);
                let t = s.subrange(i + 1, n as int);
                assert(split_space_n(t, 1) == seq![t]);
            }
            (i, true)
        },
        None => {
            proof {
                let t = s.subrange(i2 + 1, n as int);
                assert(split_space_n(t, 2) == seq![t]);
            }
            (n, false)
        },
    };
    proof {
        let ps = split_space_n(s, 4);
        assert(ps[2] == s.subrange(i2 + 1, third_end as int));
        if has_fourth {
            assert(ps.len() == 4);
            assert(ps[3] == s.subrange(third_end + 1, n as int));
        } else {
            assert(ps.len() == 3);
        }
    }
    match parse_unsigned_range(&v, i2 + 1, third_end, 10, 0xffff_ffff) {
        Some(idx) => {
            let name = if has_fourth {
                string_of(&v, third_end + 1, n)
            } else {
                String::new()
            };
            RemoteCommand::RenameWorkspace(idx as u32, name)
        },
        None => RemoteCommand::Ignored,
    }
}

/// How the window manager was asked to start.
#[derive(Debug, PartialEq, Eq)]
pub struct CliOptions {
    pub display: String,
    /// The configuration directory given with `-rc` (empty when none was).
    pub config_dir: String,
    pub socket_path: Option<String>,
}

/// What the command line asks for.
#[derive(Debug, PartialEq, Eq)]
pub enum CliAction {
    Run(CliOptions),
    /// Print the usage and leave.
    Help,
    /// Print the version and leave.
    Version,
    /// Print information about the build and leave.
    Info,
}

/// The command line read so far: display, configuration directory and
/// socket path.
pub struct CliState {
    pub display: Seq<char>,
    pub config_dir: Seq<char>,
    pub socket: Option<Seq<char>>,
}

/// What a command line asks for, with its texts as character sequences;
/// kind 0 run, 1 help, 2 version, 3 info.
pub struct CliView {
    pub kind: int,
    pub state: CliState,
}

/// The command line from argument `i` on, with `st` read before it:
/// `-display`/`-d`, `-socket` and `-rc` take the next argument (when there
/// is one); `-help`/`--help`, `-version`/`--version` and `-info` end it;
/// anything else is skipped.
pub open spec fn cli_from(args: Seq<Seq<char>>, i: int, st: CliState) -> CliView
    decreases args.len() - i,
{
    if i < 1 || i >= args.len() {
        CliView { kind: 0, state: st }
    } else {
        let a = args[i];
        let has_next = i + 1 < args.len();
        if a == "-display"@ || a == "-d"@ {
            if has_next {
                cli_from(args, i + 2, CliState { display: args[i + 1], ..st })
            } else {
                cli_from(args, i + 1, st)
            }
        } else if a == "-socket"@ {
            if has_next {
                cli_from(args, i + 2, CliState { socket: Some(args[i + 1]), ..st })
            } else {
                cli_from(args, i + 1, st)
            }
        } else if a == "-rc"@ {
            if has_next {
                cli_from(args, i + 2, CliState { config_dir: args[i + 1], ..st })
            } else {
                cli_from(args, i + 1, st)
            }
        } else if a == "-help"@ || a == "--help"@ {
            CliView { kind: 1, state: st }
        } else if a == "-version"@ || a == "--version"@ {
            CliView { kind: 2, state: st }
        } else if a == "-info"@ {
            CliView { kind: 3, state: st }
        } else {
            cli_from(args, i + 1, st)
        }
    }
}

/// The views of a list of strings.
pub open spec fn args_view(v: Seq<String>) -> Seq<Seq<char>> {
    Seq::new(v.len(), |i: int| v[i]@)
}

impl CliAction {
    /// Whether this is what `cli_from` gives.
    pub open spec fn is(&self, w: CliView) -> bool {
        match self {
            CliAction::Run(o) => w.kind == 0 && o.display@ == w.state.display && o.config_dir@
                == w.state.config_dir && match o.socket_path {
                Some(p) => w.state.socket == Some(p@),
                None => w.state.socket is None,
            },
            CliAction::Help => w.kind == 1,
            CliAction::Version => w.kind == 2,
            CliAction::Info => w.kind == 3,
        }
    }
}

fn copy_str(s: &String) -> (r: String)
    ensures
        r@ == s@,
{
    s.clone()
}

/// What the command line `args` (the program's name first) asks for, with
/// `default_display` the display to use when none is given.
pub fn parse_cli_args(args: &[String], default_display: &str) -> (r: CliAction)
    ensures
        r.is(
            cli_from(
                args_view(args@),
                1,
                CliState { display: default_display@, config_dir: seq![], socket: None },
            ),
        ),
{
    let ghost av = args_view(args@);
    let mut display = String::from_str(default_display);
    let mut config_dir = String::new();
    let mut socket_path: Option<String> = None;
    let mut i: usize = 1;
    while i < args.len()
        invariant
            av == args_view(args@),
            1 <= i,
            cli_from(av, 1, CliState { display: default_display@, config_dir: seq![], socket: None })
                == cli_from(
                av,
                i as int,
                CliState {
                    display: display@,
                    config_dir: config_dir@,
                    socket: match socket_path {
                        Some(p) => Some(p@),
                        None => None,
                    },
                },
            ),
        decreases args@.len() - i,
    {
        let a = args[i].as_str();
        let has_next = i + 1 < args.len();
        if str_eq(a, "-display") || str_eq(a, "-d") {
            if has_next {
                display = copy_str(&args[i + 1]);
                i = i + 1;
            }
        } else if str_eq(a, "-socket") {
            if has_next {
                socket_path = Some(copy_str(&args[i + 1]));
                i = i + 1;
            }
        } else if str_eq(a, "-rc") {
            if has_next {
                config_dir = copy_str(&args[i + 1]);
                i = i + 1;
            }
        } else if str_eq(a, "-help") || str_eq(a, "--help") {
            return CliAction::Help;
        } else if str_eq(a, "-version") || str_eq(a, "--version") {
            return CliAction::Version;
        } else if str_eq(a, "-info") {
            return CliAction::Info;
        }
        i = i + 1;
    }
    CliAction::Run(CliOptions { display, config_dir, socket_path })
}

/// The session commands and their spellings: a command quits exactly when
/// it is `quit` or `exit`, restarts exactly when it is `restart` or
/// `restartwm`, and reloads the configuration exactly when it is `reconfig`
/// or `reconfigure`.
pub proof fn lemma_remote_session_words(c: Seq<char>)
    ensures
        (remote_spec(c) == RemoteView::Quit) <==> (c == "quit"@ || c == "exit"@),
        (remote_spec(c) == RemoteView::Restart) <==> (c == "restart"@ || c == "restartwm"@),
        (remote_spec(c) == RemoteView::Reconfigure) <==> (c == "reconfig"@ || c == "reconfigure"@),
{
    reveal_strlit("quit");
    reveal_strlit("exit");
    reveal_strlit("restart");
    reveal_strlit("restartwm");
    reveal_strlit("reconfig");
    reveal_strlit("reconfigure");
    if c == "quit"@ || c == "exit"@ {
        assert(c != "restart"@ && c != "restartwm"@);
    }
    if c == "reconfig"@ || c == "reconfigure"@ {
        assert(c != "restart"@ && c != "restartwm"@ && c != "quit"@ && c != "exit"@);
    }
}

} // verus!