//! `doscmd`, `powershell` and `pwsh`: what command line to run, how, and how to read
//! what the shell printed. Starting the process is left to the caller.

use vstd::prelude::*;
use vstd::utf8::*;
use crate::builtin_args::{
    outcome, string_reading, three_state_reading, with_default, BuiltInResult, BuiltinFuncArgs, ThreeState,
};
use crate::args::ObjectModel;
use crate::codec::{as_wide, le_bytes, le_units, wide_units};
use crate::error::ErrorModel;
use crate::std_calls::{string_from_utf16_lossy, utf16_lossy, utf16_of};

verus! {

broadcast use vstd::string::group_string_axioms;

/// The shells that can be run.
#[derive(PartialEq, Eq, Clone, Copy, Structural)]
pub enum ShellType {
    Cmd,
    PowerShell,
    Pwsh,
}

/// The output option of a shell.
#[derive(PartialEq, Eq, Clone, Copy, Structural)]
pub enum ShellOption {
    /// `cmd /A`: output in the ANSI code page.
    CmdAnsi,
    /// `cmd /U`: output in UTF-16.
    CmdUnicode,
    /// PowerShell without the user profile.
    PsNoProfile,
    /// No option.
    Plain,
}

/// The program name of a shell.
pub open spec fn shell_name(s: ShellType) -> Seq<char> {
    match s {
        ShellType::Cmd => seq!['c', 'm', 'd'],
        ShellType::PowerShell => seq!['p', 'o', 'w', 'e', 'r', 's', 'h', 'e', 'l', 'l'],
        ShellType::Pwsh => seq!['p', 'w', 's', 'h'],
    }
}

/// The command-line switch of an option (empty for none).
pub open spec fn option_switch(o: ShellOption) -> Seq<char> {
    match o {
        ShellOption::CmdAnsi => seq!['/', 'A'],
        ShellOption::CmdUnicode => seq!['/', 'U'],
        ShellOption::PsNoProfile => seq!['-', 'N', 'o', 'P', 'r', 'o', 'f', 'i', 'l', 'e'],
        ShellOption::Plain => Seq::empty(),
    }
}

impl ShellType {
    /// The program name of this shell.
    pub fn name(&self) -> (r: String)
        ensures
            r@ == shell_name(*self),
    {
        let r = match self {
            ShellType::Cmd => String::from_str("cmd"),
            ShellType::PowerShell => String::from_str("powershell"),
            ShellType::Pwsh => String::from_str("pwsh"),
        };
        proof {
            reveal_strlit("cmd");
            reveal_strlit("powershell");
            reveal_strlit("pwsh");
        }
        r
    }
}

impl ShellOption {
    /// The command-line switch of this option (empty for none).
    pub fn switch(&self) -> (r: String)
        ensures
            r@ == option_switch(*self),
    {
        let r = match self {
            ShellOption::CmdAnsi => String::from_str("/A"),
            ShellOption::CmdUnicode => String::from_str("/U"),
            ShellOption::PsNoProfile => String::from_str("-NoProfile"),
            ShellOption::Plain => String::new(),
        };
        proof {
            reveal_strlit("/A");
            reveal_strlit("/U");
            reveal_strlit("-NoProfile");
        }
        r
    }
}

// ----- base64 -----

/// The base64 digit for `v` in `0..64` (standard alphabet).
pub open spec fn b64_digit(v: int) -> char {
    if v < 26 {
        (0x41 + v) as char
    } else if v < 52 {
        (0x61 + v - 26) as char
    } else if v < 62 {
        (0x30 + v - 52) as char
    } else if v == 62 {
        '+'
    } else {
        '/'
    }
}

/// Standard base64 with `=` padding: every three bytes become four digits.
pub open spec fn base64_of(b: Seq<u8>) -> Seq<char>
    decreases b.len(),
{
    if b.len() == 0 {
        Seq::empty()
    } else {
        let x0 = b[0] as int;
        let x1 = if b.len() > 1 { b[1] as int } else { 0 };
        let x2 = if b.len() > 2 { b[2] as int } else { 0 };
        let d0 = b64_digit(x0 / 4);
        let d1 = b64_digit((x0 % 4) * 16 + x1 / 16);
        let d2 = b64_digit((x1 % 16) * 4 + x2 / 64);
        let d3 = b64_digit(x2 % 64);
        if b.len() == 1 {
            seq![d0, d1, '=', '=']
        } else if b.len() == 2 {
            seq![d0, d1, d2, '=']
        } else {
            seq![d0, d1, d2, d3] + base64_of(b.skip(3))
        }
    }
}

/// `base64::encode`: standard base64 (alphabet `A`–`Z`, `a`–`z`, `0`–`9`, `+`, `/`)
/// with `=` padding.
#[verifier::external_body]
fn to_base64_string(b: &[u8]) -> (r: String)
    ensures
        r@ == base64_of(b@),
{
    #[allow(deprecated)]
    base64::encode(b)
}

/// `String::from_utf8`: the text the bytes encode, `None` when they are not UTF-8.
#[verifier::external_body]
fn string_from_utf8(b: Vec<u8>) -> (r: Option<String>)
    ensures
        r is Some <==> valid_utf8(b@),
        r matches Some(s) ==> s@ == decode_utf8(b@),
{
    String::from_utf8(b).ok()
}

// ----- the plan -----

/// One argument of the command line; a raw one is passed without quoting.
pub struct ShellArg {
    pub text: String,
    pub raw: bool,
}

/// How the console of the started process is set up.
#[derive(PartialEq, Eq, Clone, Copy, Structural)]
pub enum Console {
    /// A new console window (`CREATE_NEW_CONSOLE`).
    NewConsole,
    /// No window (`CREATE_NO_WINDOW`).
    NoWindow,
}

/// How the process is run.
#[derive(PartialEq, Eq, Clone, Copy, Structural)]
pub enum RunMode {
    /// Wait for it to end; nothing is read.
    Status,
    /// Start it and return.
    Spawn,
    /// Wait for it and read what it printed.
    Output,
}

/// How to start a shell.
pub struct ShellPlan {
    pub program: String,
    pub args: Vec<ShellArg>,
    pub console: Console,
    pub mode: RunMode,
}

/// A command for a shell and how to run it.
pub struct Shell {
    pub shell: ShellType,
    pub wait: bool,
    pub show: bool,
    pub minimize: bool,
    pub option: ShellOption,
    pub command: String,
}

/// The prefix that makes PowerShell print UTF-8.
pub open spec fn utf8_prefix() -> Seq<char> {
    "[console]::OutputEncoding = [System.Text.Encoding]::UTF8;"@
}

/// The arguments of a command line as (text, raw) pairs.
pub open spec fn args_view(a: Seq<ShellArg>) -> Seq<(Seq<char>, bool)> {
    a.map_values(|x: ShellArg| (x.text@, x.raw))
}

/// Plain (quoted as needed) arguments.
pub open spec fn plain(ts: Seq<Seq<char>>) -> Seq<(Seq<char>, bool)> {
    ts.map_values(|t: Seq<char>| (t, false))
}

/// The arguments of a shell: `cmd` gets its option switch, `/C` and the command, all
/// raw; PowerShell gets `-NoProfile` when asked, then `-Nologo -OutputFormat Text
/// -EncodedCommand` and the command (behind the UTF-8 prefix) in base64 of its UTF-16LE
/// bytes; a minimized window adds `-WindowStyle Minimized`.
pub open spec fn shell_args(s: ShellType, show: bool, minimize: bool, option: ShellOption, command: Seq<char>) -> Seq<(Seq<char>, bool)> {
    let base = if s == ShellType::Cmd {
        seq![(option_switch(option), true), ("/C"@, true), (command, true)]
    } else {
        (if option == ShellOption::PsNoProfile { plain(seq![option_switch(option)]) } else { Seq::empty() })
            + plain(seq![
                "-Nologo"@,
                "-OutputFormat"@,
                "Text"@,
                "-EncodedCommand"@,
                base64_of(le_bytes(utf16_of(utf8_prefix() + command))),
            ])
    };
    if show && minimize {
        base + plain(seq!["-WindowStyle"@, "Minimized"@])
    } else {
        base
    }
}

impl Shell {
    /// How to start this shell (see `shell_args`): a shown shell gets a new console and is
    /// waited for or only started; a hidden one gets no window and its output is read
    /// when it is waited for.
    pub fn plan(&self) -> (r: ShellPlan)
        ensures
            r.program@ == shell_name(self.shell),
            args_view(r.args@) == shell_args(self.shell, self.show, self.minimize, self.option, self.command@),
            r.console == (if self.show { Console::NewConsole } else { Console::NoWindow }),
            r.mode == (if !self.wait { RunMode::Spawn } else if self.show { RunMode::Status } else { RunMode::Output }),
    {
        proof {
            reveal_strlit("-Nologo");
            reveal_strlit("-OutputFormat");
            reveal_strlit("Text");
            reveal_strlit("-EncodedCommand");
            reveal_strlit("-WindowStyle");
            reveal_strlit("Minimized");
            reveal_strlit("[console]::OutputEncoding = [System.Text.Encoding]::UTF8;");
            reveal_strlit("/C");
        }
        let mut args: Vec<ShellArg> = Vec::new();
        let ghost base: Seq<(Seq<char>, bool)>;
        if self.shell == ShellType::Cmd {
            args.push(ShellArg { text: self.option.switch(), raw: true });
            args.push(ShellArg { text: String::from_str("/C"), raw: true });
            args.push(ShellArg { text: self.command.clone(), raw: true });
            proof {
                base = seq![(option_switch(self.option), true), ("/C"@, true), (self.command@, true)];
                assert(args_view(args@) =~= base);
            }
        } else {
            if self.option == ShellOption::PsNoProfile {
                args.push(ShellArg { text: self.option.switch(), raw: false });
            }
            let ghost first = args_view(args@);
            assert(first =~= (if self.option == ShellOption::PsNoProfile { plain(seq![option_switch(self.option)]) } else { Seq::empty() }));
            let mut command = String::from_str("[console]::OutputEncoding = [System.Text.Encoding]::UTF8;");
            command.append(self.command.as_str());
            let encoded = to_base64_string(as_wide(command.as_str()).as_slice());
            let ghost a0 = args@;
            args.push(ShellArg { text: String::from_str("-Nologo"), raw: false });
            args.push(ShellArg { text: String::from_str("-OutputFormat"), raw: false });
            args.push(ShellArg { text: String::from_str("Text"), raw: false });
            args.push(ShellArg { text: String::from_str("-EncodedCommand"), raw: false });
            args.push(ShellArg { text: encoded, raw: false });
            proof {
                base = first + plain(seq![
                    "-Nologo"@,
                    "-OutputFormat"@,
                    "Text"@,
                    "-EncodedCommand"@,
                    base64_of(le_bytes(utf16_of(utf8_prefix() + self.command@))),
                ]);
                assert(command@ == utf8_prefix() + self.command@);
                assert(args@.len() == a0.len() + 5);
                assert(args@.subrange(0, a0.len() as int) =~= a0);
                assert(args@[a0.len() as int].text@ == "-Nologo"@);
                assert(args@[a0.len() as int + 4].text@ == base64_of(le_bytes(utf16_of(utf8_prefix() + self.command@))));
                assert forall|i: int| 0 <= i < args@.len() implies #[trigger] args_view(args@)[i] == base[i] by {
                    if i < a0.len() {
                        assert(args@[i] == a0[i]);
                    }
                }
                assert(args_view(args@) =~= base);
            }
        }
        if self.show && self.minimize {
            args.push(ShellArg { text: String::from_str("-WindowStyle"), raw: false });
            args.push(ShellArg { text: String::from_str("Minimized"), raw: false });
            assert(args_view(args@) =~= base + plain(seq!["-WindowStyle"@, "Minimized"@]));
        }
        assert(args_view(args@) =~= shell_args(self.shell, self.show, self.minimize, self.option, self.command@));
        let console = if self.show { Console::NewConsole } else { Console::NoWindow };
        let mode = if !self.wait { RunMode::Spawn } else if self.show { RunMode::Status } else { RunMode::Output };
        ShellPlan { program: self.shell.name(), args, console, mode }
    }
}

/// What a waited-for hidden shell printed, read as text.
pub enum ShellOutput {
    Text(String),
    /// The bytes are to be read in the system's ANSI code page.
    Ansi(Vec<u8>),
}

/// What a waited-for hidden shell printed, as plain values.
pub enum ShellOutputModel {
    Text(Seq<char>),
    Ansi(Seq<u8>),
}

impl ShellOutput {
    pub open spec fn model(&self) -> ShellOutputModel {
        match self {
            ShellOutput::Text(s) => ShellOutputModel::Text(s@),
            ShellOutput::Ansi(b) => ShellOutputModel::Ansi(b@),
        }
    }
}

/// The bytes to read: `cmd` reports its error output when there is any; PowerShell
/// always its standard output.
pub open spec fn output_bytes(s: ShellType, stdout: Seq<u8>, stderr: Seq<u8>) -> Seq<u8> {
    if s == ShellType::Cmd && stderr.len() > 0 { stderr } else { stdout }
}

/// The output as text: UTF-16LE for `cmd /U`, the ANSI code page for `cmd /A`, UTF-8
/// otherwise (empty when it is not UTF-8).
pub open spec fn output_text(option: ShellOption, out: Seq<u8>) -> ShellOutputModel {
    match option {
        ShellOption::CmdUnicode => ShellOutputModel::Text(utf16_lossy(le_units(out))),
        ShellOption::CmdAnsi => ShellOutputModel::Ansi(out),
        _ => ShellOutputModel::Text(if valid_utf8(out) { decode_utf8(out) } else { Seq::empty() }),
    }
}

/// UTF-16LE output read as text, an odd last byte dropped.
pub fn unicode_output_to_string(b: &[u8]) -> (r: String)
    ensures
        r@ == utf16_lossy(le_units(b@)),
{
    let units = wide_units(b);
    string_from_utf16_lossy(units.as_slice())
}

impl Shell {
    /// What the shell printed, read as text (see `output_bytes` and `output_text`).
    pub fn read_output(&self, stdout: Vec<u8>, stderr: Vec<u8>) -> (r: ShellOutput)
        ensures
            r.model() == output_text(self.option, output_bytes(self.shell, stdout@, stderr@)),
    {
        let out = if self.shell == ShellType::Cmd && stderr.len() > 0 { stderr } else { stdout };
        match self.option {
            ShellOption::CmdUnicode => ShellOutput::Text(unicode_output_to_string(out.as_slice())),
            ShellOption::CmdAnsi => ShellOutput::Ansi(out),
            _ => match string_from_utf8(out) {
                Some(s) => ShellOutput::Text(s),
                None => ShellOutput::Text(String::new()),
            },
        }
    }
}

/// The `doscmd` builtin: argument 0 is the command; argument 1 true means "do not wait";
/// argument 2 shows the window; argument 3 asks for UTF-16 output.
pub open spec fn doscmd_call(objs: Seq<ObjectModel>) -> Result<(Seq<char>, bool, bool, ShellOption), ErrorModel> {
    match with_default(objs, 0, None, |o: ObjectModel| string_reading(o, 0)) {
        Err(e) => Err(e),
        Ok(command) => match with_default(objs, 1, Some(false), |o: ObjectModel| Ok::<bool, ErrorModel>(o.truthy)) {
            Err(e) => Err(e),
            Ok(no_wait) => match with_default(objs, 2, Some(false), |o: ObjectModel| Ok::<bool, ErrorModel>(o.truthy)) {
                Err(e) => Err(e),
                Ok(show) => match with_default(objs, 3, Some(false), |o: ObjectModel| Ok::<bool, ErrorModel>(o.truthy)) {
                    Err(e) => Err(e),
                    Ok(unicode) => Ok((command, !no_wait, show, if unicode { ShellOption::CmdUnicode } else { ShellOption::CmdAnsi })),
                },
            },
        },
    }
}

/// The shell that `doscmd` runs (see `doscmd_call`); the window is never minimized.
pub fn doscmd(args: &BuiltinFuncArgs) -> (r: BuiltInResult<Shell>)
    ensures
        outcome(r, |s: Shell| (s.command@, s.wait, s.show, s.option)) == doscmd_call(args.objects()),
        r matches Ok(s) ==> s.shell == ShellType::Cmd && !s.minimize,
{
    let command = match args.get_as_string(0, None) {
        Ok(s) => s,
        Err(e) => return Err(e),
    };
    let no_wait = match args.get_as_bool(1, Some(false)) {
        Ok(b) => b,
        Err(e) => return Err(e),
    };
    let show = match args.get_as_bool(2, Some(false)) {
        Ok(b) => b,
        Err(e) => return Err(e),
    };
    let unicode = match args.get_as_bool(3, Some(false)) {
        Ok(b) => b,
        Err(e) => return Err(e),
    };
    let option = if unicode { ShellOption::CmdUnicode } else { ShellOption::CmdAnsi };
    Ok(Shell { shell: ShellType::Cmd, wait: !no_wait, show, minimize: false, option, command })
}

/// `powershell`/`pwsh` arguments: argument 0 is the command; argument 1 true means "do
/// not wait"; argument 2 is TRUE (show), FALSE (hide) or 2 (show minimized); argument 3
/// skips the profile.
pub open spec fn powershell_call(objs: Seq<ObjectModel>) -> Result<(Seq<char>, bool, bool, bool, ShellOption), ErrorModel> {
    match with_default(objs, 0, None, |o: ObjectModel| string_reading(o, 0)) {
        Err(e) => Err(e),
        Ok(command) => match with_default(objs, 1, Some(false), |o: ObjectModel| Ok::<bool, ErrorModel>(o.truthy)) {
            Err(e) => Err(e),
            Ok(no_wait) => match with_default(objs, 2, Some(ThreeState::False), |o: ObjectModel| three_state_reading(o)) {
                Err(e) => Err(e),
                Ok(state) => match with_default(objs, 3, Some(false), |o: ObjectModel| Ok::<bool, ErrorModel>(o.truthy)) {
                    Err(e) => Err(e),
                    Ok(no_profile) => Ok((
                        command,
                        !no_wait,
                        state != ThreeState::False,
                        state == ThreeState::Other,
                        if no_profile { ShellOption::PsNoProfile } else { ShellOption::Plain },
                    )),
                },
            },
        },
    }
}

/// The shell that `powershell` (or, with `Pwsh`, `pwsh`) runs (see `powershell_call`).
pub fn run_powershell(shell: ShellType, args: &BuiltinFuncArgs) -> (r: BuiltInResult<Shell>)
    requires
        shell != ShellType::Cmd,
    ensures
        outcome(r, |s: Shell| (s.command@, s.wait, s.show, s.minimize, s.option)) == powershell_call(args.objects()),
        r matches Ok(s) ==> s.shell == shell,
{
    let command = match args.get_as_string(0, None) {
        Ok(s) => s,
        Err(e) => return Err(e),
    };
    let no_wait = match args.get_as_bool(1, Some(false)) {
        Ok(b) => b,
        Err(e) => return Err(e),
    };
    let state = match args.get_as_three_state(2, Some(ThreeState::False)) {
        Ok(t) => t,
        Err(e) => return Err(e),
    };
    let no_profile = match args.get_as_bool(3, Some(false)) {
        Ok(b) => b,
        Err(e) => return Err(e),
    };
    let (show, minimize) = match state {
        ThreeState::True => (true, false),
        ThreeState::False => (false, false),
        ThreeState::Other => (true, true),
    };
    let option = if no_profile { ShellOption::PsNoProfile } else { ShellOption::Plain };
    Ok(Shell { shell, wait: !no_wait, show, minimize, option, command })
}

} // verus!

verus! {

/// Base64 writes four digits for every three bytes, the last group padded.
pub proof fn law_base64_length(b: Seq<u8>)
    ensures
        base64_of(b).len() == 4 * ((b.len() + 2) / 3),
    decreases b.len(),
{
    if b.len() >= 3 {
        law_base64_length(b.skip(3));
    }
}


/// `cmd` gets the command as its third argument, right after `/C`, passed as it is; a
/// PowerShell gets it only encoded, as the argument right after `-EncodedCommand`: the
/// base64 of the UTF-16LE bytes of the command behind the UTF-8 prefix. A shown and
/// minimized window adds `-WindowStyle Minimized` at the end, and nothing else does.
pub proof fn law_shell_command_placement(s: ShellType, show: bool, minimize: bool, option: ShellOption, command: Seq<char>)
    ensures
        ({
            let a = shell_args(s, show, minimize, option, command);
            let extra: int = if show && minimize { 2 } else { 0 };
            &&& s == ShellType::Cmd ==> a.len() == 3 + extra && a[1] == ("/C"@, true) && a[2] == (command, true)
                && a[0] == (option_switch(option), true)
            &&& s != ShellType::Cmd ==> {
                let k: int = if option == ShellOption::PsNoProfile { 1 } else { 0 };
                &&& a.len() == k + 5 + extra
                &&& a[k + 3] == ("-EncodedCommand"@, false)
                &&& a[k + 4] == (base64_of(le_bytes(utf16_of(utf8_prefix() + command))), false)
            }
            &&& show && minimize ==> a[a.len() - 2] == ("-WindowStyle"@, false) && a[a.len() - 1] == ("Minimized"@, false)
        }),
{
    let a = shell_args(s, show, minimize, option, command);
    if s == ShellType::Cmd {
        let base = seq![(option_switch(option), true), ("/C"@, true), (command, true)];
        if show && minimize {
            let tail = plain(seq!["-WindowStyle"@, "Minimized"@]);
            assert(tail =~= seq![("-WindowStyle"@, false), ("Minimized"@, false)]);
            assert(a == base + tail);
            assert(a[0] == base[0] && a[1] == base[1] && a[2] == base[2]);
        }
    } else {
        let first = if option == ShellOption::PsNoProfile { plain(seq![option_switch(option)]) } else { Seq::empty() };
        let rest = plain(seq![
            "-Nologo"@,
            "-OutputFormat"@,
            "Text"@,
            "-EncodedCommand"@,
            base64_of(le_bytes(utf16_of(utf8_prefix() + command))),
        ]);
        let base = first + rest;
        assert(rest[3] == ("-EncodedCommand"@, false));
        assert(rest[4] == (base64_of(le_bytes(utf16_of(utf8_prefix() + command))), false));
        let k: int = if option == ShellOption::PsNoProfile { 1 } else { 0 };
        assert(first.len() == k);
        assert(base[k + 3] == rest[3]);
        assert(base[k + 4] == rest[4]);
        if show && minimize {
            let tail = plain(seq!["-WindowStyle"@, "Minimized"@]);
            assert(tail =~= seq![("-WindowStyle"@, false), ("Minimized"@, false)]);
            assert(a == base + tail);
            assert(a[k + 3] == base[k + 3]);
            assert(a[k + 4] == base[k + 4]);
        }
    }
}
} // verus!
