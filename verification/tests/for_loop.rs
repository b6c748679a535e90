use uwscr_builtins::args::{NumValue, Object, Value};
use uwscr_builtins::for_loop::{
    for_value, repeat_step, run_for, while_step, BlockEnd, ForExit, ForLoop, ForStep, LoopStep,
};
use uwscr_builtins::text::parse_i64;

fn text(s: &str) -> Object {
    Object { value: Value::String(s.to_string()), text: s.to_string(), truthy: !s.is_empty() }
}

#[test]
fn integers_from_text() {
    assert_eq!(parse_i64("42"), Some(42));
    assert_eq!(parse_i64("-42"), Some(-42));
    assert_eq!(parse_i64("+7"), Some(7));
    assert_eq!(parse_i64("-9223372036854775808"), Some(i64::MIN));
    assert_eq!(parse_i64("9223372036854775807"), Some(i64::MAX));
    assert_eq!(parse_i64("9223372036854775808"), None);
    assert_eq!(parse_i64("-"), None);
    assert_eq!(parse_i64(""), None);
    assert_eq!(parse_i64("1.5"), None);
}

#[test]
fn bounds_from_values() {
    let half = Object { value: Value::Num(NumValue::Finite { mantissa: 5, exponent: -1 }), text: "2.5".to_string(), truthy: true };
    assert_eq!(for_value(&half), Some(2));
    let b = Object { value: Value::Bool(true), text: "True".to_string(), truthy: true };
    assert_eq!(for_value(&b), Some(1));
    assert_eq!(for_value(&text("-3")), Some(-3));
    assert_eq!(for_value(&text("x")), None);
    assert_eq!(for_value(&Object::empty()), None);
}

#[test]
fn counting_loop() {
    assert!(ForLoop::new(1, 3, Some(0)).is_none());
    let mut l = ForLoop::new(1, 3, None).unwrap();
    let mut seen = vec![];
    while !l.is_done() {
        seen.push(l.counter);
        assert!(l.after_block(BlockEnd::Normal) == ForStep::Next);
    }
    assert_eq!(seen, vec![1, 2, 3]);
    let mut down = ForLoop::new(5, 1, Some(-2)).unwrap();
    assert!(!down.is_done());
    assert!(down.after_block(BlockEnd::Continue(1)) == ForStep::Next);
    assert_eq!(down.counter, 3);
    assert!(down.after_block(BlockEnd::Continue(3)) == ForStep::PassContinue(2));
    assert!(down.after_block(BlockEnd::Break(1)) == ForStep::Broke);
    assert!(down.after_block(BlockEnd::Break(2)) == ForStep::PassBreak(1));
    assert!(down.after_block(BlockEnd::Leave) == ForStep::Leave);
    assert_eq!(down.counter, 3);
}

#[test]
fn running_loops() {
    let (run, _) = run_for(1, 3, None, &|_c: i64| BlockEnd::Normal).unwrap();
    assert_eq!(run.runs, 3);
    assert_eq!(run.counter, 4);
    assert!(run.runs_else());
    let (run, _) = run_for(10, 1, Some(-3), &|_c: i64| BlockEnd::Normal).unwrap();
    assert_eq!(run.runs, 4);
    assert_eq!(run.counter, -2);
    let (run, _) = run_for(5, 1, None, &|_c: i64| BlockEnd::Normal).unwrap();
    assert_eq!(run.runs, 0);
    assert!(run.runs_else());
    let (run, _) = run_for(1, 10, None, &|c: i64| if c == 3 { BlockEnd::Break(1) } else { BlockEnd::Normal }).unwrap();
    assert_eq!(run.runs, 3);
    assert_eq!(run.counter, 3);
    assert!(!run.runs_else());
    assert!(run.exit == ForExit::Broke);
    let (run, _) = run_for(1, 10, None, &|_c: i64| BlockEnd::Continue(2)).unwrap();
    assert!(run.exit == ForExit::PassContinue(1));
    assert!(run_for(1, 10, Some(0), &|_c: i64| BlockEnd::Normal).is_none());
}

#[test]
fn while_and_repeat_steps() {
    assert!(while_step(BlockEnd::Normal) == LoopStep::Check);
    assert!(while_step(BlockEnd::Continue(1)) == LoopStep::Check);
    assert!(while_step(BlockEnd::Break(1)) == LoopStep::Exit(ForExit::Broke));
    assert!(repeat_step(BlockEnd::Normal) == LoopStep::Check);
    assert!(repeat_step(BlockEnd::Continue(1)) == LoopStep::Again);
    assert!(repeat_step(BlockEnd::Continue(3)) == LoopStep::Exit(ForExit::PassContinue(2)));
    assert!(repeat_step(BlockEnd::Leave) == LoopStep::Exit(ForExit::Leave));
}
