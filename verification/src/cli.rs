//! The command line: its commands, what each invocation leads to, and the
//! texts and choices of the commands that do not need the outside world to
//! decide (the scaffold written by `init`, the shell hook, the completion
//! shell, where the command is linked, which AI hosts `mcp connect` means,
//! how the MCP log listing is headed and labelled).
use vstd::prelude::*;
use crate::config::{DevflowConfig, interleave, opt_text, strs};
use crate::paths::{join, path_join};
use crate::text::{
    chars_of, concat_str, contains, contains_chars, owned, replace_all, replace_char, string_of,
    to_lowercase, unicode_lower, all_ascii, ascii_lower, occurs_at,
};

verus! {

/// What the command line leaves to do once a command ran.
#[derive(Debug)]
pub enum CliAction {
    /// The command did its work.
    Executed,
    /// Open the desktop or web companion on a workspace.
    LaunchGui { dir: String, port: u16, open_browser: bool },
    /// Open the terminal hub on a workspace.
    LaunchTui { dir: String },
}

/// The parsed command line.
#[derive(Debug)]
pub struct Cli {
    pub command: Option<Commands>,
    pub dir: Option<String>,
    pub gui: bool,
    pub web: bool,
    pub verbose: bool,
}

/// The commands.
#[derive(Debug)]
#[allow(inconsistent_fields)]
pub enum Commands {
    Init { platform: Option<String>, framework: Option<String> },
    Doctor { project_path: String, json: bool },
    Devices { boot: Option<String>, json: bool },
    Dev { target: Option<String>, framework: Option<String>, no_tui: bool, json: bool },
    Build { release: bool, target: Option<String>, json: bool },
    Logs { follow: bool, level: Option<char>, tag: Option<String>, query: Option<String>, limit: usize },
    Reload,
    Restart,
    Preview,
    Gui { path: String, port: u16, web: bool },
    Open { path: String, port: u16, web: bool },
    Shell { command: ShellCommands },
    Completions { shell: String },
    Mcp { command: McpCommands },
}

/// The shell integration commands.
#[derive(Debug)]
pub enum ShellCommands {
    Install { dest: Option<String> },
    Uninstall,
    Hook { shell: String },
}

/// The MCP server commands.
#[derive(Debug)]
#[allow(inconsistent_fields)]
pub enum McpCommands {
    Serve { http: bool, port: u16, token: Option<String>, agent: Option<String> },
    Start { http: bool, port: u16, token: Option<String>, agent: Option<String> },
    Connect { agent: String, force: bool },
    Install { agent: String, force: bool },
    Status { json: bool },
    Tools { json: bool },
    List { json: bool },
    Logs {
        limit: usize,
        session: Option<String>,
        agent: Option<String>,
        tool: Option<String>,
        status: Option<String>,
        full: bool,
        clear: bool,
        delete: Option<String>,
    },
}

/// Where an invocation leads.
#[derive(Debug)]
pub enum DispatchPlan {
    /// Return this action at once.
    Act(CliAction),
    /// Open the companion on this workspace path, made canonical when it
    /// can be.
    OpenGui { path: String, port: u16, open_browser: bool },
    /// Print the workspace summary (no command, not in a terminal).
    Hub,
    /// Run the command.
    Run(Commands),
}

/// The port the companion is served on when none is given.
pub open spec fn default_gui_port() -> u16 {
    9292
}

/// Where an invocation in `current_dir` leads: `--gui` or `--web` open the
/// companion there (in the browser with `--web`); `gui` and `open` open it
/// on their path (in the browser when either of them or the invocation asks
/// for the web); any other command runs; without one, the terminal hub
/// opens when both ends are a terminal, else the summary is printed.
pub fn dispatch(cli: Cli, current_dir: &str, interactive: bool) -> (r: DispatchPlan)
    ensures
        cli.gui || cli.web ==> (r matches DispatchPlan::Act(CliAction::LaunchGui { dir, port, open_browser }) && dir@
            == current_dir@ && port == default_gui_port() && open_browser == cli.web),
        !(cli.gui || cli.web) ==> match cli.command {
            Some(Commands::Gui { path, port, web }) | Some(Commands::Open { path, port, web }) => (r matches DispatchPlan::OpenGui {
                path: p,
                port: q,
                open_browser,
            } && p@ == path@ && q == port && open_browser == (web || cli.web)),
            Some(c) => (r matches DispatchPlan::Run(k) && k == c),
            None => if interactive {
                r matches DispatchPlan::Act(CliAction::LaunchTui { dir }) && dir@ == current_dir@
            } else {
                r is Hub
            },
        },
{
    if cli.gui || cli.web {
        return DispatchPlan::Act(CliAction::LaunchGui { dir: owned(current_dir), port: 9292, open_browser: cli.web });
    }
    let web = cli.web;
    match cli.command {
        Some(Commands::Gui { path, port, web: w }) => DispatchPlan::OpenGui { path, port, open_browser: w || web },
        Some(Commands::Open { path, port, web: w }) => DispatchPlan::OpenGui { path, port, open_browser: w || web },
        Some(c) => DispatchPlan::Run(c),
        None => if interactive {
            DispatchPlan::Act(CliAction::LaunchTui { dir: owned(current_dir) })
        } else {
            DispatchPlan::Hub
        },
    }
}

/// Whether the invocation serves MCP over standard input and output, where
/// nothing else may be written.
pub fn is_mcp_stdio(cli: &Cli) -> (r: bool)
    ensures
        r == (cli.command matches Some(Commands::Mcp { command: McpCommands::Serve { http, .. } }) && !http),
{
    match &cli.command {
        Some(Commands::Mcp { command: McpCommands::Serve { http, .. } }) => !*http,
        _ => false,
    }
}

/// The level of the diagnostics printed: `debug` when verbose, else `warn`.
pub fn log_filter(verbose: bool) -> (r: &'static str)
    ensures
        r@ == if verbose {
            "debug"@
        } else {
            "warn"@
        },
{
    if verbose {
        "debug"
    } else {
        "warn"
    }
}

/// The scaffold `init` writes for a framework (compared without regard to
/// case, generic when none is given).
pub open spec fn init_pieces(fw: Option<Seq<char>>) -> Seq<Seq<char>> {
    let l = match fw {
        Some(f) => unicode_lower(f),
        None => unicode_lower("generic"@),
    };
    if l == "kotlin"@ || l == "android"@ {
        crate::config::template_android_pieces()
    } else if l == "swift"@ || l == "swiftpm"@ || l == "macos"@ {
        crate::config::template_swift_pieces()
    } else if l == "react-native"@ || l == "rn"@ {
        crate::config::template_react_native_pieces()
    } else if l == "flutter"@ {
        crate::config::template_flutter_pieces()
    } else if l == "tauri"@ {
        crate::config::template_tauri_pieces()
    } else {
        crate::config::template_generic_pieces()
    }
}

/// How the platform line of a scaffold opens, right after the project name.
pub open spec fn platform_opening() -> Seq<char> {
    "\"\nplatform = \""@
}

/// What follows the platform value in a scaffold piece that starts with the
/// platform line: from the quote that closes the value on.
pub open spec fn after_value(piece: Seq<char>) -> Seq<char> {
    if piece.len() < platform_opening().len() {
        piece
    } else {
        let rest = piece.skip(platform_opening().len() as int);
        match crate::text::index_of(rest, "\""@) {
            Some(k) => rest.skip(k),
            None => Seq::empty(),
        }
    }
}

/// The scaffold pieces with the platform asked for, when one is, in place
/// of the scaffold's own in the `[project]` section's platform line.
pub open spec fn with_platform(pieces: Seq<Seq<char>>, platform: Option<Seq<char>>) -> Seq<Seq<char>> {
    match platform {
        Some(q) => if pieces.len() > 1 {
            pieces.update(1, platform_opening() + q + after_value(pieces[1]))
        } else {
            pieces
        },
        None => pieces,
    }
}

fn after_value_exec(piece: &str) -> (r: Vec<char>)
    ensures
        r@ == after_value(piece@),
{
    proof {
        reveal_strlit("\"\nplatform = \"");
        reveal_strlit("\"");
    }
    let c = chars_of(piece);
    if c.len() < 14 {
        return c;
    }
    let rest = crate::text::slice_of(c.as_slice(), 14, c.len());
    assert(rest@ =~= piece@.skip(14));
    let quote = vec!['"'];
    assert(quote@ =~= "\""@);
    match crate::text::find_index(rest.as_slice(), quote.as_slice()) {
        Some(k) => {
            let out = crate::text::slice_of(rest.as_slice(), k, rest.len());
            assert(out@ =~= rest@.skip(k as int));
            out
        },
        None => Vec::new(),
    }
}

/// The `devflow.toml` that `init` writes for a project of the given name:
/// the scaffold of the framework asked for (see `init_pieces`), with the
/// platform asked for, when one is, as its `[project]` platform (see
/// `with_platform`).
pub fn init_template(framework: Option<&str>, platform: Option<&str>, project_name: &str) -> (r: String)
    ensures
        r@ == interleave(
            with_platform(
                init_pieces(
                    match framework {
                        Some(f) => Some(f@),
                        None => None,
                    },
                ),
                match platform {
                    Some(p) => Some(p@),
                    None => None,
                },
            ),
            project_name@,
        ),
{
    let lower = match framework {
        Some(f) => to_lowercase(f),
        None => to_lowercase("generic"),
    };
    let l = chars_of(lower.as_str());
    let t = |lit: &str| -> (b: bool)
        ensures
            b == (l@ == lit@),
        { crate::config::is_text(l.as_slice(), lit) };
    let pieces = if t("kotlin") || t("android") {
        crate::config::android_parts()
    } else if t("swift") || t("swiftpm") || t("macos") {
        crate::config::swift_parts()
    } else if t("react-native") || t("rn") {
        crate::config::react_native_parts()
    } else if t("flutter") {
        crate::config::flutter_parts()
    } else if t("tauri") {
        crate::config::tauri_parts()
    } else {
        crate::config::generic_parts()
    };
    let ghost chosen = pieces@.map_values(|p: &str| p@);
    match platform {
        None => crate::config::fill_template(pieces.as_slice(), project_name),
        Some(p) => {
            let tail = after_value_exec(pieces[1]);
            let opening = concat_str("\"\nplatform = \"", p);
            let tail_s = string_of(tail.as_slice());
            let line = concat_str(opening.as_str(), tail_s.as_str());
            let mut parts: Vec<&str> = Vec::new();
            let mut i: usize = 0;
            while i < pieces.len()
                invariant
                    i <= pieces@.len(),
                    pieces@.len() >= 2,
                    parts@.len() == i,
                    forall|j: int| 0 <= j < i ==> (#[trigger] parts@[j])@ == (if j == 1 {
                        line@
                    } else {
                        pieces@[j]@
                    }),
                decreases pieces@.len() - i,
            {
                if i == 1 {
                    parts.push(line.as_str());
                } else {
                    parts.push(pieces[i]);
                }
                i = i + 1;
            }
            assert(parts@.map_values(|q: &str| q@) =~= with_platform(chosen, Some(p@)));
            crate::config::fill_template(parts.as_slice(), project_name)
        },
    }
}

proof fn lemma_interleave_prefix(pieces: Seq<Seq<char>>, name: Seq<char>)
    requires
        pieces.len() >= 2,
    ensures
        interleave(pieces, name).len() >= (pieces[0] + name + pieces[1]).len(),
        interleave(pieces, name).subrange(0, (pieces[0] + name + pieces[1]).len() as int) == pieces[0] + name
            + pieces[1],
    decreases pieces.len(),
{
    let head = pieces[0] + name + pieces[1];
    if pieces.len() == 2 {
        assert(pieces.drop_last().len() == 1);
        assert(interleave(pieces.drop_last(), name) == pieces[0]);
        assert(pieces.last() == pieces[1]);
        assert(interleave(pieces, name) == pieces[0] + name + pieces[1]);
        assert(head.subrange(0, head.len() as int) =~= head);
    } else {
        let d = pieces.drop_last();
        lemma_interleave_prefix(d, name);
        assert(d[0] == pieces[0] && d[1] == pieces[1]);
        let whole = interleave(pieces, name);
        assert(whole == interleave(d, name) + name + pieces.last());
        assert(whole.subrange(0, head.len() as int) =~= interleave(d, name).subrange(0, head.len() as int));
    }
}

/// When `init` is given a platform, the scaffold's `[project]` section
/// names it: right after the project name comes the platform line with the
/// platform asked for, whatever the framework.
pub proof fn law_init_names_platform(framework: Option<Seq<char>>, platform: Seq<char>, name: Seq<char>)
    ensures
        contains(
            interleave(with_platform(init_pieces(framework), Some(platform)), name),
            name + platform_opening() + platform,
        ),
{
    let pieces = with_platform(init_pieces(framework), Some(platform));
    let orig = init_pieces(framework);
    assert(orig.len() >= 2);
    assert(pieces[1] == platform_opening() + platform + after_value(orig[1]));
    lemma_interleave_prefix(pieces, name);
    let whole = interleave(pieces, name);
    let pat = name + platform_opening() + platform;
    let at = pieces[0].len() as int;
    assert(whole.subrange(at, at + pat.len()) =~= pat) by {
        let head = pieces[0] + name + pieces[1];
        assert(whole.subrange(0, head.len() as int) == head);
        assert forall|i: int| 0 <= i < pat.len() implies whole.subrange(at, at + pat.len())[i] == pat[i] by {
            assert(whole[at + i] == head[at + i]);
        }
    }
    assert(occurs_at(whole, pat, at));
}

/// The project name `init` uses: the directory's name, else `my-app`.
pub fn init_project_name(dir_name: Option<&str>) -> (r: String)
    ensures
        r@ == match dir_name {
            Some(n) => n@,
            None => "my-app"@,
        },
{
    match dir_name {
        Some(n) => owned(n),
        None => owned("my-app"),
    }
}

/// The shell integration script for Fish.
pub open spec fn fish_hook() -> Seq<char> {
    "# DevFlow Shell Integration for Fish\nalias dfr=\"devflow reload\"\nalias dfrs=\"devflow restart\"\nalias dflog=\"devflow logs -f\"\nalias dfopen=\"devflow open\"\nalias dfdoc=\"devflow doctor\"\n\nfunction __devflow_active_session\n    if test -n \"$DEVFLOW_SESSION\"\n        echo \"[devflow:$DEVFLOW_SESSION]\"\n    end\nend\n"@
}

/// The shell integration script for Bash.
pub open spec fn bash_hook() -> Seq<char> {
    "# DevFlow Shell Integration for Bash\nalias dfr='devflow reload'\nalias dfrs='devflow restart'\nalias dflog='devflow logs -f'\nalias dfopen='devflow open'\nalias dfdoc='devflow doctor'\n\n# Export DevFlow active terminal ID if inside VS Code\nif [ -n \"$VSCODE_GIT_ASKPASS_NODE\" ] || [ -n \"$VSCODE_INJECTION\" ]; then\n    export DEVFLOW_TERMINAL_SOURCE=\"vscode\"\nfi\n"@
}

/// The shell integration script for Zsh and any other shell.
pub open spec fn zsh_hook() -> Seq<char> {
    "# DevFlow Shell Integration for Zsh / Default\nalias dfr='devflow reload'\nalias dfrs='devflow restart'\nalias dflog='devflow logs -f'\nalias dfopen='devflow open'\nalias dfdoc='devflow doctor'\n\n# Fast DevFlow shell wrapper\ndevflow_reload_widget() {\n    devflow reload\n    zle reset-prompt\n}\n\n# Auto-detect VS Code integrated terminal environment\nif [[ -n \"$VSCODE_GIT_ASKPASS_NODE\" || -n \"$VSCODE_INJECTION\" ]]; then\n    export DEVFLOW_TERMINAL_SOURCE=\"vscode\"\nfi\n"@
}

/// The shell integration script for a shell whose lower-cased name is
/// `lower`: Fish, Bash, else the Zsh one.
pub open spec fn spec_shell_hook(lower: Seq<char>) -> Seq<char> {
    if lower == "fish"@ {
        fish_hook()
    } else if lower == "bash"@ {
        bash_hook()
    } else {
        zsh_hook()
    }
}

/// The shell integration script for a shell (named without regard to
/// case; see `spec_shell_hook`).
pub fn generate_shell_hook(shell_name: &str) -> (r: String)
    ensures
        r@ == spec_shell_hook(unicode_lower(shell_name@)),
        all_ascii(shell_name@) ==> r@ == spec_shell_hook(ascii_lower(shell_name@)),
{
    let lower = to_lowercase(shell_name);
    let l = chars_of(lower.as_str());
    if crate::config::is_text(l.as_slice(), "fish") {
        owned(
            "# DevFlow Shell Integration for Fish\nalias dfr=\"devflow reload\"\nalias dfrs=\"devflow restart\"\nalias dflog=\"devflow logs -f\"\nalias dfopen=\"devflow open\"\nalias dfdoc=\"devflow doctor\"\n\nfunction __devflow_active_session\n    if test -n \"$DEVFLOW_SESSION\"\n        echo \"[devflow:$DEVFLOW_SESSION]\"\n    end\nend\n",
        )
    } else if crate::config::is_text(l.as_slice(), "bash") {
        owned(
            "# DevFlow Shell Integration for Bash\nalias dfr='devflow reload'\nalias dfrs='devflow restart'\nalias dflog='devflow logs -f'\nalias dfopen='devflow open'\nalias dfdoc='devflow doctor'\n\n# Export DevFlow active terminal ID if inside VS Code\nif [ -n \"$VSCODE_GIT_ASKPASS_NODE\" ] || [ -n \"$VSCODE_INJECTION\" ]; then\n    export DEVFLOW_TERMINAL_SOURCE=\"vscode\"\nfi\n",
        )
    } else {
        owned(
            "# DevFlow Shell Integration for Zsh / Default\nalias dfr='devflow reload'\nalias dfrs='devflow restart'\nalias dflog='devflow logs -f'\nalias dfopen='devflow open'\nalias dfdoc='devflow doctor'\n\n# Fast DevFlow shell wrapper\ndevflow_reload_widget() {\n    devflow reload\n    zle reset-prompt\n}\n\n# Auto-detect VS Code integrated terminal environment\nif [[ -n \"$VSCODE_GIT_ASKPASS_NODE\" || -n \"$VSCODE_INJECTION\" ]]; then\n    export DEVFLOW_TERMINAL_SOURCE=\"vscode\"\nfi\n",
        )
    }
}

/// Every shell integration script defines the aliases `dfr`, `dfrs`,
/// `dflog` and `dfopen`, whatever lower-cased shell name chose it.
proof fn lemma_shell_hook_aliases(lower: Seq<char>)
    ensures
        contains(spec_shell_hook(lower), "alias dfr="@),
        contains(spec_shell_hook(lower), "alias dfrs="@),
        contains(spec_shell_hook(lower), "alias dflog="@),
        contains(spec_shell_hook(lower), "alias dfopen="@),
{
    reveal_strlit("alias dfr=");
    reveal_strlit("alias dfrs=");
    reveal_strlit("alias dflog=");
    reveal_strlit("alias dfopen=");
    if lower == "fish"@ {
        reveal_strlit("# DevFlow Shell Integration for Fish\nalias dfr=\"devflow reload\"\nalias dfrs=\"devflow restart\"\nalias dflog=\"devflow logs -f\"\nalias dfopen=\"devflow open\"\nalias dfdoc=\"devflow doctor\"\n\nfunction __devflow_active_session\n    if test -n \"$DEVFLOW_SESSION\"\n        echo \"[devflow:$DEVFLOW_SESSION]\"\n    end\nend\n");
        assert(fish_hook().subrange(37, 47) =~= "alias dfr="@);
        assert(occurs_at(fish_hook(), "alias dfr="@, 37));
        assert(fish_hook().subrange(64, 75) =~= "alias dfrs="@);
        assert(occurs_at(fish_hook(), "alias dfrs="@, 64));
        assert(fish_hook().subrange(93, 105) =~= "alias dflog="@);
        assert(occurs_at(fish_hook(), "alias dflog="@, 93));
        assert(fish_hook().subrange(123, 136) =~= "alias dfopen="@);
        assert(occurs_at(fish_hook(), "alias dfopen="@, 123));
    } else if lower == "bash"@ {
        reveal_strlit("# DevFlow Shell Integration for Bash\nalias dfr='devflow reload'\nalias dfrs='devflow restart'\nalias dflog='devflow logs -f'\nalias dfopen='devflow open'\nalias dfdoc='devflow doctor'\n\n# Export DevFlow active terminal ID if inside VS Code\nif [ -n \"$VSCODE_GIT_ASKPASS_NODE\" ] || [ -n \"$VSCODE_INJECTION\" ]; then\n    export DEVFLOW_TERMINAL_SOURCE=\"vscode\"\nfi\n");
        assert(bash_hook().subrange(37, 47) =~= "alias dfr="@);
        assert(occurs_at(bash_hook(), "alias dfr="@, 37));
        assert(bash_hook().subrange(64, 75) =~= "alias dfrs="@);
        assert(occurs_at(bash_hook(), "alias dfrs="@, 64));
        assert(bash_hook().subrange(93, 105) =~= "alias dflog="@);
        assert(occurs_at(bash_hook(), "alias dflog="@, 93));
        assert(bash_hook().subrange(123, 136) =~= "alias dfopen="@);
        assert(occurs_at(bash_hook(), "alias dfopen="@, 123));
    } else {
        reveal_strlit("# DevFlow Shell Integration for Zsh / Default\nalias dfr='devflow reload'\nalias dfrs='devflow restart'\nalias dflog='devflow logs -f'\nalias dfopen='devflow open'\nalias dfdoc='devflow doctor'\n\n# Fast DevFlow shell wrapper\ndevflow_reload_widget() {\n    devflow reload\n    zle reset-prompt\n}\n\n# Auto-detect VS Code integrated terminal environment\nif [[ -n \"$VSCODE_GIT_ASKPASS_NODE\" || -n \"$VSCODE_INJECTION\" ]]; then\n    export DEVFLOW_TERMINAL_SOURCE=\"vscode\"\nfi\n");
        assert(zsh_hook().subrange(46, 56) =~= "alias dfr="@);
        assert(occurs_at(zsh_hook(), "alias dfr="@, 46));
        assert(zsh_hook().subrange(73, 84) =~= "alias dfrs="@);
        assert(occurs_at(zsh_hook(), "alias dfrs="@, 73));
        assert(zsh_hook().subrange(102, 114) =~= "alias dflog="@);
        assert(occurs_at(zsh_hook(), "alias dflog="@, 102));
        assert(zsh_hook().subrange(132, 145) =~= "alias dfopen="@);
        assert(occurs_at(zsh_hook(), "alias dfopen="@, 132));
    }
}

/// A lower-cased shell name that is neither Fish nor Bash gets the Zsh
/// script.
proof fn lemma_shell_hook_default(lower: Seq<char>)
    requires
        lower != "fish"@,
        lower != "bash"@,
    ensures
        spec_shell_hook(lower) == spec_shell_hook("zsh"@),
{
    reveal_strlit("zsh");
    reveal_strlit("fish");
    reveal_strlit("bash");
    assert("zsh"@ != "fish"@) by {
        assert("zsh"@[0] != "fish"@[0]);
    }
    assert("zsh"@ != "bash"@) by {
        assert("zsh"@[0] != "bash"@[0]);
    }
}

/// For every shell name, the script `generate_shell_hook` gives (see its
/// contract) defines the aliases `dfr`, `dfrs`, `dflog` and `dfopen`, and a
/// name whose lower-cased form is neither `fish` nor `bash` gets the Zsh
/// script.
pub proof fn law_shell_hook(shell_name: Seq<char>)
    ensures
        contains(spec_shell_hook(unicode_lower(shell_name)), "alias dfr="@),
        contains(spec_shell_hook(unicode_lower(shell_name)), "alias dfrs="@),
        contains(spec_shell_hook(unicode_lower(shell_name)), "alias dflog="@),
        contains(spec_shell_hook(unicode_lower(shell_name)), "alias dfopen="@),
        unicode_lower(shell_name) != "fish"@ && unicode_lower(shell_name) != "bash"@ ==> spec_shell_hook(
            unicode_lower(shell_name),
        ) == zsh_hook(),
{
    lemma_shell_hook_aliases(unicode_lower(shell_name));
    if unicode_lower(shell_name) != "fish"@ && unicode_lower(shell_name) != "bash"@ {
        lemma_shell_hook_default(unicode_lower(shell_name));
    }
}

/// Lower-casing an ASCII shell name a second time changes nothing, so the
/// name and its lower-cased form get the same script.
pub proof fn law_shell_hook_lowercase_again(name: Seq<char>)
    requires
        all_ascii(name),
    ensures
        all_ascii(ascii_lower(name)),
        ascii_lower(ascii_lower(name)) == ascii_lower(name),
        spec_shell_hook(ascii_lower(ascii_lower(name))) == spec_shell_hook(ascii_lower(name)),
{
    assert forall|i: int| 0 <= i < ascii_lower(name).len() implies (#[trigger] ascii_lower(name)[i] as u32) < 128 by {
        assert((name[i] as u32) < 128);
    }
    assert(ascii_lower(ascii_lower(name)) =~= ascii_lower(name));
}

/// The shells completions can be made for.
#[derive(Clone, Copy, Debug, PartialEq, Eq, Structural)]
pub enum CompletionShell {
    Bash,
    Zsh,
    Fish,
    PowerShell,
    Elvish,
}

/// The shell a name (without regard to case) asks completions for, or the
/// error that names the supported ones.
pub fn completion_shell(shell_name: &str) -> (r: Result<CompletionShell, String>)
    ensures
        ({
            let l = unicode_lower(shell_name@);
            if l == "bash"@ {
                r == Ok::<CompletionShell, String>(CompletionShell::Bash)
            } else if l == "zsh"@ {
                r == Ok::<CompletionShell, String>(CompletionShell::Zsh)
            } else if l == "fish"@ {
                r == Ok::<CompletionShell, String>(CompletionShell::Fish)
            } else if l == "powershell"@ || l == "pwsh"@ {
                r == Ok::<CompletionShell, String>(CompletionShell::PowerShell)
            } else if l == "elvish"@ {
                r == Ok::<CompletionShell, String>(CompletionShell::Elvish)
            } else {
                r matches Err(m) && m@ == "Unsupported shell '"@ + shell_name@
                    + "'. Supported: bash, zsh, fish, powershell, elvish"@
            }
        }),
{
    let lower = to_lowercase(shell_name);
    let l = chars_of(lower.as_str());
    if crate::config::is_text(l.as_slice(), "bash") {
        Ok(CompletionShell::Bash)
    } else if crate::config::is_text(l.as_slice(), "zsh") {
        Ok(CompletionShell::Zsh)
    } else if crate::config::is_text(l.as_slice(), "fish") {
        Ok(CompletionShell::Fish)
    } else if crate::config::is_text(l.as_slice(), "powershell") || crate::config::is_text(l.as_slice(), "pwsh") {
        Ok(CompletionShell::PowerShell)
    } else if crate::config::is_text(l.as_slice(), "elvish") {
        Ok(CompletionShell::Elvish)
    } else {
        let a = concat_str("Unsupported shell '", shell_name);
        Err(concat_str(a.as_str(), "'. Supported: bash, zsh, fish, powershell, elvish"))
    }
}

/// The directories the command is linked into, in order of preference: the
/// one asked for; else `/usr/local/bin`, then under the home directory
/// (`.` when unknown) `.local/bin`, `.cargo/bin` and `bin`.
pub open spec fn spec_link_dirs(custom: Option<Seq<char>>, home: Option<Seq<char>>) -> Seq<Seq<char>> {
    match custom {
        Some(d) => seq![d],
        None => {
            let h = match home {
                Some(h) => h,
                None => "."@,
            };
            seq!["/usr/local/bin"@, h + "/.local/bin"@, h + "/.cargo/bin"@, h + "/bin"@]
        },
    }
}

/// The directories the command is linked into (see `spec_link_dirs`).
pub fn link_dirs(custom: Option<&str>, home: Option<&str>) -> (r: Vec<String>)
    ensures
        strs(r@) == spec_link_dirs(
            match custom {
                Some(d) => Some(d@),
                None => None,
            },
            match home {
                Some(h) => Some(h@),
                None => None,
            },
        ),
{
    match custom {
        Some(d) => {
            let r = vec![owned(d)];
            assert(strs(r@) =~= seq![d@]);
            r
        },
        None => {
            let h = match home {
                Some(h) => owned(h),
                None => owned("."),
            };
            let r = vec![
                owned("/usr/local/bin"),
                concat_str(h.as_str(), "/.local/bin"),
                concat_str(h.as_str(), "/.cargo/bin"),
                concat_str(h.as_str(), "/bin"),
            ];
            assert(strs(r@) =~= spec_link_dirs(
                None,
                match home {
                    Some(h) => Some(h@),
                    None => None,
                },
            ));
            r
        },
    }
}

/// The link made in a directory.
pub fn link_path(dir: &str) -> (r: String)
    ensures
        r@ == path_join(dir@, "devflow"@),
{
    join(dir, "devflow")
}

/// What uninstalling reports: where links were removed, or that none was
/// found.
pub fn uninstall_message(removed: &Vec<String>) -> (r: String)
    ensures
        r@ == if removed@.len() == 0 {
            "No existing 'devflow' symlink found in candidate PATH directories."@
        } else {
            "Removed 'devflow' symlink from: "@ + crate::text::join_with(strs(removed@), ", "@)
        },
{
    if removed.len() == 0 {
        owned("No existing 'devflow' symlink found in candidate PATH directories.")
    } else {
        let j = crate::text::join_strings(removed, ", ");
        proof {
            assert(removed@.map_values(|s: String| s@) =~= strs(removed@));
        }
        concat_str("Removed 'devflow' symlink from: ", j.as_str())
    }
}

/// A path as it is put in the companion's address: spaces as `%20`,
/// slashes as `%2F`.
pub fn urlencoding_simple(s: &str) -> (r: String)
    ensures
        r@ == replace_all(replace_all(s@, " "@, "%20"@), "/"@, "%2F"@),
{
    let c = chars_of(s);
    let sp = chars_of("%20");
    let sl = chars_of("%2F");
    let a = replace_char(c.as_slice(), ' ', sp.as_slice());
    let b = replace_char(a.as_slice(), '/', sl.as_slice());
    proof {
        reveal_strlit(" ");
        reveal_strlit("/");
        assert(seq![' '] =~= " "@);
        assert(seq!['/'] =~= "/"@);
    }
    string_of(b.as_slice())
}

/// The companion's address for a workspace.
pub fn gui_url(port: u16, dir: &str) -> (r: String)
    ensures
        r@ == "http://localhost:"@ + crate::number::decimal(port as nat) + "?dir="@ + replace_all(
            replace_all(dir@, " "@, "%20"@),
            "/"@,
            "%2F"@,
        ),
{
    let d = crate::number::to_decimal(port as u64);
    let ds = string_of(d.as_slice());
    let a = concat_str("http://localhost:", ds.as_str());
    let b = concat_str(a.as_str(), "?dir=");
    let e = urlencoding_simple(dir);
    concat_str(b.as_str(), e.as_str())
}

/// Where the desktop companion may be installed, in order: the macOS apps
/// (when on macOS), then the `devflow-gui` programs.
pub open spec fn spec_gui_candidates(home: Option<Seq<char>>, macos: bool) -> (Seq<Seq<char>>, Seq<Seq<char>>) {
    let apps = if macos {
        seq![
            "/Applications/DevFlow.app"@,
            match home {
                Some(h) => path_join(h, "Applications/DevFlow.app"@),
                None => Seq::empty(),
            },
        ]
    } else {
        Seq::empty()
    };
    let bins = seq![
        match home {
            Some(h) => path_join(h, ".local/bin/devflow-gui"@),
            None => Seq::empty(),
        },
        "/usr/local/bin/devflow-gui"@,
    ];
    (apps, bins)
}

/// Where the desktop companion may be installed (see
/// `spec_gui_candidates`); an unknown home directory gives an empty path.
pub fn gui_candidates(home: Option<&str>, macos: bool) -> (r: (Vec<String>, Vec<String>))
    ensures
        (strs(r.0@), strs(r.1@)) == spec_gui_candidates(
            match home {
                Some(h) => Some(h@),
                None => None,
            },
            macos,
        ),
{
    let under = |rel: &str| -> (p: String)
        ensures
            p@ == match home {
                Some(h) => path_join(h@, rel@),
                None => Seq::empty(),
            },
        {
            match home {
                Some(h) => join(h, rel),
                None => String::new(),
            }
        };
    let apps = if macos {
        vec![owned("/Applications/DevFlow.app"), under("Applications/DevFlow.app")]
    } else {
        Vec::new()
    };
    let bins = vec![under(".local/bin/devflow-gui"), owned("/usr/local/bin/devflow-gui")];
    proof {
        let g = spec_gui_candidates(
            match home {
                Some(h) => Some(h@),
                None => None,
            },
            macos,
        );
        assert(strs(apps@) =~= g.0);
        assert(strs(bins@) =~= g.1);
    }
    (apps, bins)
}

/// The kind of host a configuration file serves.
#[derive(Clone, Copy, Debug, PartialEq, Eq, Structural)]
pub enum HostFormat {
    CommandArgs,
}

/// An AI host's MCP configuration file.
#[derive(Debug)]
pub struct HostConfigTarget {
    pub name: String,
    pub path: String,
    pub server_key: String,
    pub format: HostFormat,
}

/// The contents of a host configuration target: name, path and key.
pub open spec fn host_view(t: HostConfigTarget) -> (Seq<char>, Seq<char>, Seq<char>) {
    (t.name@, t.path@, t.server_key@)
}

/// The AI hosts' configuration files, in order: Cursor globally and in the
/// workspace, Antigravity globally and in the workspace, and VS Code in the
/// workspace.
pub open spec fn spec_host_targets(home: Seq<char>) -> Seq<(Seq<char>, Seq<char>, Seq<char>)> {
    seq![
        ("Cursor (Global)"@, path_join(home, ".cursor/mcp.json"@), "mcpServers"@),
        ("Cursor (Workspace)"@, ".cursor/mcp.json"@, "mcpServers"@),
        ("Antigravity (Global)"@, path_join(home, ".gemini/antigravity-ide/mcp_config.json"@), "mcpServers"@),
        ("Antigravity (Workspace)"@, ".agents/mcp_config.json"@, "mcpServers"@),
        ("VS Code (Workspace)"@, ".vscode/mcp.json"@, "servers"@),
    ]
}

fn host(name: &str, path: String, key: &str) -> (r: HostConfigTarget)
    ensures
        host_view(r) == (name@, path@, key@),
        r.format == HostFormat::CommandArgs,
{
    HostConfigTarget { name: owned(name), path, server_key: owned(key), format: HostFormat::CommandArgs }
}

/// The AI hosts' configuration files (see `spec_host_targets`), given the
/// home directory (`.` when unknown).
pub fn get_known_host_targets(home: &str) -> (r: Vec<HostConfigTarget>)
    ensures
        r@.map_values(|t: HostConfigTarget| host_view(t)) == spec_host_targets(home@),
{
    let r = vec![
        host("Cursor (Global)", join(home, ".cursor/mcp.json"), "mcpServers"),
        host("Cursor (Workspace)", owned(".cursor/mcp.json"), "mcpServers"),
        host("Antigravity (Global)", join(home, ".gemini/antigravity-ide/mcp_config.json"), "mcpServers"),
        host("Antigravity (Workspace)", owned(".agents/mcp_config.json"), "mcpServers"),
        host("VS Code (Workspace)", owned(".vscode/mcp.json"), "servers"),
    ];
    assert(r@.map_values(|t: HostConfigTarget| host_view(t)) =~= spec_host_targets(home@));
    r
}

/// Whether `mcp connect` for an agent (lower-cased) means a host: `all`
/// means every host; `antigravity` (or `agy`) and `vscode` (or `code`) the
/// hosts whose lower-cased name holds `antigravity` and `vs code`; any
/// other text the hosts whose lower-cased name holds it.
pub open spec fn spec_agent_matches(filter: Seq<char>, host_name: Seq<char>) -> bool {
    let n = unicode_lower(host_name);
    if filter == "all"@ {
        true
    } else if filter == "antigravity"@ || filter == "agy"@ {
        contains(n, "antigravity"@)
    } else if filter == "vscode"@ || filter == "code"@ {
        contains(n, "vs code"@)
    } else {
        contains(n, filter)
    }
}

/// Whether `mcp connect` for an agent, as typed, means a host: the agent is
/// lower-cased, then `spec_agent_matches` decides.
pub fn agent_matches(agent: &str, host_name: &str) -> (r: bool)
    ensures
        r == spec_agent_matches(unicode_lower(agent@), host_name@),
{
    let filter = to_lowercase(agent);
    let f = chars_of(filter.as_str());
    let lower = to_lowercase(host_name);
    let n = chars_of(lower.as_str());
    let has = |lit: &str| -> (b: bool)
        ensures
            b == contains(n@, lit@),
        {
            let p = chars_of(lit);
            contains_chars(n.as_slice(), p.as_slice())
        };
    if crate::config::is_text(f.as_slice(), "all") {
        true
    } else if crate::config::is_text(f.as_slice(), "antigravity") || crate::config::is_text(f.as_slice(), "agy") {
        has("antigravity")
    } else if crate::config::is_text(f.as_slice(), "vscode") || crate::config::is_text(f.as_slice(), "code") {
        has("vs code")
    } else {
        contains_chars(n.as_slice(), f.as_slice())
    }
}

/// What `mcp logs` does.
#[derive(Debug)]
pub enum McpLogsMode {
    /// Clear the logs of this session.
    ClearSession(String),
    /// Clear all logs.
    ClearAll,
    /// Delete the entry with this id.
    Delete(String),
    /// List the entries that pass the filter.
    List,
}

/// What `mcp logs` does: clearing comes first (of the session's logs when
/// one is named), then deleting an entry, else listing.
pub fn mcp_logs_mode(clear: bool, session: &Option<String>, delete: &Option<String>) -> (r: McpLogsMode)
    ensures
        clear ==> match session {
            Some(s) => r matches McpLogsMode::ClearSession(x) && x@ == s@,
            None => r is ClearAll,
        },
        !clear ==> match delete {
            Some(d) => r matches McpLogsMode::Delete(x) && x@ == d@,
            None => r is List,
        },
{
    if clear {
        match session {
            Some(s) => McpLogsMode::ClearSession(owned(s.as_str())),
            None => McpLogsMode::ClearAll,
        }
    } else {
        match delete {
            Some(d) => McpLogsMode::Delete(owned(d.as_str())),
            None => McpLogsMode::List,
        }
    }
}

/// The part of the listing's heading that names the filter: the session,
/// agent and tool asked for, after ` | `; nothing when none is.
pub open spec fn spec_filter_description(session: Option<Seq<char>>, agent: Option<Seq<char>>, tool: Option<Seq<char>>) -> Seq<char> {
    let parts = match session {
        Some(s) => seq!["session: "@ + s],
        None => Seq::empty(),
    } + match agent {
        Some(a) => seq!["agent: "@ + a],
        None => Seq::empty(),
    } + match tool {
        Some(t) => seq!["tool: "@ + t],
        None => Seq::empty(),
    };
    if parts.len() == 0 {
        Seq::empty()
    } else {
        " | "@ + crate::text::join_with(parts, ", "@)
    }
}

/// The part of the listing's heading that names the filter (see
/// `spec_filter_description`).
pub fn filter_description(session: &Option<String>, agent: &Option<String>, tool: &Option<String>) -> (r: String)
    ensures
        r@ == spec_filter_description(opt_text(*session), opt_text(*agent), opt_text(*tool)),
{
    let mut parts: Vec<String> = Vec::new();
    if let Some(s) = session {
        parts.push(concat_str("session: ", s.as_str()));
    }
    if let Some(a) = agent {
        parts.push(concat_str("agent: ", a.as_str()));
    }
    if let Some(t) = tool {
        parts.push(concat_str("tool: ", t.as_str()));
    }
    let ghost want = match opt_text(*session) {
        Some(s) => seq!["session: "@ + s],
        None => Seq::empty(),
    } + match opt_text(*agent) {
        Some(a) => seq!["agent: "@ + a],
        None => Seq::empty(),
    } + match opt_text(*tool) {
        Some(t) => seq!["tool: "@ + t],
        None => Seq::empty(),
    };
    assert(parts@.map_values(|s: String| s@) =~= want);
    if parts.len() == 0 {
        let e = String::new();
        proof {
            assert(e@ == Seq::<char>::empty());
        }
        e
    } else {
        let j = crate::text::join_strings(&parts, ", ");
        concat_str(" | ", j.as_str())
    }
}

/// How an entry's outcome is shown.
pub fn status_label(status: &str) -> (r: &'static str)
    ensures
        r@ == if status@ == "success"@ {
            "\u{2713} SUCCESS"@
        } else {
            "\u{2717} FAILED"@
        },
{
    let c = chars_of(status);
    if crate::config::is_text(c.as_slice(), "success") {
        "\u{2713} SUCCESS"
    } else {
        "\u{2717} FAILED"
    }
}

/// A payload shown in full: each line indented by seven spaces.
pub open spec fn spec_indented(text: Seq<char>) -> Seq<char> {
    crate::text::join_with(crate::split::lines(text).map_values(|l: Seq<char>| "       "@ + l), "\n"@)
}

/// A payload shown in full (see `spec_indented`).
pub fn indent_lines(text: &str) -> (r: String)
    ensures
        r@ == spec_indented(text@),
{
    let c = chars_of(text);
    let ls = crate::split::split_lines(c.as_slice());
    let ghost gl = crate::split::lines(text@);
    let mut parts: Vec<String> = Vec::new();
    let mut i: usize = 0;
    while i < ls.len()
        invariant
            ls@.len() == gl.len(),
            forall|k: int| 0 <= k < ls@.len() ==> #[trigger] ls@[k]@ == gl[k],
            i <= ls@.len(),
            parts@.map_values(|s: String| s@) == gl.take(i as int).map_values(|l: Seq<char>| "       "@ + l),
        decreases ls@.len() - i,
    {
        let ghost before = parts@.map_values(|s: String| s@);
        let line = string_of(ls[i].as_slice());
        let piece = concat_str("       ", line.as_str());
        assert(piece@ == "       "@ + gl[i as int]);
        parts.push(piece);
        assert(parts@.map_values(|s: String| s@) =~= before.push(piece@));
        assert(gl.take(i + 1) =~= gl.take(i as int).push(gl[i as int]));
        assert(parts@.map_values(|s: String| s@) =~= gl.take(i + 1).map_values(|l: Seq<char>| "       "@ + l));
        i = i + 1;
    }
    assert(gl.take(gl.len() as int) =~= gl);
    crate::text::join_strings(&parts, "\n")
}

/// The summary line of `mcp connect`: how many files were configured, or
/// that no host matched the agent.
pub fn connect_summary(configured: usize, agent: &str) -> (r: String)
    ensures
        r@ == if configured == 0 {
            "No matching AI hosts found for '"@ + agent@ + "'. Available: cursor, antigravity, vscode, all"@
        } else {
            "Connected "@ + crate::number::decimal(configured as nat)
                + " configuration file(s). Restart your AI agent to activate DevFlow MCP tools."@
        },
{
    if configured == 0 {
        let a = concat_str("No matching AI hosts found for '", agent);
        concat_str(a.as_str(), "'. Available: cursor, antigravity, vscode, all")
    } else {
        let d = crate::number::to_decimal(configured as u64);
        let ds = string_of(d.as_slice());
        let a = concat_str("Connected ", ds.as_str());
        concat_str(a.as_str(), " configuration file(s). Restart your AI agent to activate DevFlow MCP tools.")
    }
}

} // verus!
