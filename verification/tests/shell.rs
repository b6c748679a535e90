use uwscr_builtins::args::{Expression, NumValue, Object, Value};
use uwscr_builtins::builtin_args::BuiltinFuncArgs;
use uwscr_builtins::shell::{doscmd, run_powershell, Console, RunMode, Shell, ShellOption, ShellOutput, ShellType};

fn text(s: &str) -> Object {
    Object { value: Value::String(s.to_string()), text: s.to_string(), truthy: !s.is_empty() }
}

fn flag(b: bool) -> Object {
    Object { value: Value::Bool(b), text: if b { "True" } else { "False" }.to_string(), truthy: b }
}

fn args(objs: Vec<Object>) -> BuiltinFuncArgs {
    let v: Vec<(Option<Expression>, Object)> = objs.into_iter().map(|o| (None, o)).collect();
    BuiltinFuncArgs::new(v, false)
}

fn arg_texts(shell: &Shell) -> Vec<(String, bool)> {
    shell.plan().args.iter().map(|a| (a.text.clone(), a.raw)).collect()
}

#[test]
fn cmd_plan() {
    let shell = Shell {
        shell: ShellType::Cmd,
        wait: true,
        show: false,
        minimize: false,
        option: ShellOption::CmdUnicode,
        command: "dir".to_string(),
    };
    let plan = shell.plan();
    assert_eq!(plan.program, "cmd");
    assert!(plan.console == Console::NoWindow);
    assert!(plan.mode == RunMode::Output);
    assert_eq!(arg_texts(&shell), vec![("/U".to_string(), true), ("/C".to_string(), true), ("dir".to_string(), true)]);
}

#[test]
fn powershell_plan() {
    let shell = Shell {
        shell: ShellType::PowerShell,
        wait: false,
        show: true,
        minimize: true,
        option: ShellOption::PsNoProfile,
        command: "echo 1".to_string(),
    };
    let plan = shell.plan();
    assert_eq!(plan.program, "powershell");
    assert!(plan.console == Console::NewConsole);
    assert!(plan.mode == RunMode::Spawn);
    let encoded = "WwBjAG8AbgBzAG8AbABlAF0AOgA6AE8AdQB0AHAAdQB0AEUAbgBjAG8AZABpAG4AZwAgAD0AIABbAFMAeQBzAHQAZQBtAC4AVABlAHgAdAAuAEUAbgBjAG8AZABpAG4AZwBdADoAOgBVAFQARgA4ADsAZQBjAGgAbwAgADEA";
    let expected: Vec<(String, bool)> = vec!["-NoProfile", "-Nologo", "-OutputFormat", "Text", "-EncodedCommand", encoded, "-WindowStyle", "Minimized"]
        .into_iter()
        .map(|s| (s.to_string(), false))
        .collect();
    assert_eq!(arg_texts(&shell), expected);
}

#[test]
fn reading_output() {
    let mut shell = Shell {
        shell: ShellType::Cmd,
        wait: true,
        show: false,
        minimize: false,
        option: ShellOption::CmdUnicode,
        command: String::new(),
    };
    // cmd reports its error output when there is any
    match shell.read_output(vec![0x41, 0x00], vec![0x42, 0x00]) {
        ShellOutput::Text(s) => assert_eq!(s, "B"),
        _ => panic!("text expected"),
    }
    shell.option = ShellOption::CmdAnsi;
    assert!(matches!(shell.read_output(vec![0x41], vec![]), ShellOutput::Ansi(_)));
    shell.shell = ShellType::Pwsh;
    shell.option = ShellOption::Plain;
    match shell.read_output(vec![0xe3, 0x81, 0x82], vec![0x42]) {
        ShellOutput::Text(s) => assert_eq!(s, "あ"),
        _ => panic!("text expected"),
    }
    // output that is not UTF-8 reads as empty
    match shell.read_output(vec![0xff], vec![]) {
        ShellOutput::Text(s) => assert_eq!(s, ""),
        _ => panic!("text expected"),
    }
}

#[test]
fn shell_builtins() {
    let s = doscmd(&args(vec![text("ver"), flag(true), flag(false), flag(true)])).ok().unwrap();
    assert!(s.shell == ShellType::Cmd);
    assert!(!s.wait);
    assert!(s.option == ShellOption::CmdUnicode);
    let two = Object { value: Value::Num(NumValue::Finite { mantissa: 2, exponent: 0 }), text: "2".to_string(), truthy: true };
    let s = run_powershell(ShellType::Pwsh, &args(vec![text("ls"), flag(false), two])).ok().unwrap();
    assert!(s.wait && s.show && s.minimize);
    assert!(s.option == ShellOption::Plain);
    assert!(doscmd(&args(vec![])).is_err());
}
