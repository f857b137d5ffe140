use rusty_quack::hello::{
    bind, greeting_for, result_column, rows_after_swap, BindError, HelloBindData, HelloInitData,
    ParamValue,
};

fn bound(name: &str) -> HelloBindData {
    match bind(&vec![ParamValue::Text(name.to_string())]) {
        Ok(d) => d,
        Err(e) => panic!("bind failed: {:?}", e),
    }
}

#[test]
fn result_column_name() {
    assert_eq!(result_column(), "column0");
}

#[test]
fn bind_captures_text_argument() {
    let d = bound("world");
    assert_eq!(d.name, "world");
}

#[test]
fn bind_without_arguments_fails() {
    assert!(matches!(bind(&Vec::new()), Err(BindError::ArgumentCount)));
}

#[test]
fn bind_with_two_arguments_fails() {
    let params = vec![
        ParamValue::Text("a".to_string()),
        ParamValue::Text("b".to_string()),
    ];
    assert!(matches!(bind(&params), Err(BindError::ArgumentCount)));
}

#[test]
fn bind_with_non_text_argument_fails() {
    assert!(matches!(
        bind(&vec![ParamValue::NonText]),
        Err(BindError::NotText)
    ));
}

#[test]
fn greeting_text() {
    assert_eq!(greeting_for("world"), "Rusty Quack world 🐥");
    assert_eq!(greeting_for(""), "Rusty Quack  🐥");
}

#[test]
fn rows_depend_on_flag() {
    let d = bound("duck");
    assert_eq!(rows_after_swap(false, &d), vec!["Rusty Quack duck 🐥"]);
    assert!(rows_after_swap(true, &d).is_empty());
}

#[test]
fn world_first_call_one_row_then_none() {
    let d = bound("world");
    let init = HelloInitData::new();
    assert_eq!(init.produce(&d), vec!["Rusty Quack world 🐥"]);
    assert!(init.produce(&d).is_empty());
}

#[test]
fn exhausted_execution_keeps_returning_nothing() {
    let d = bound("world");
    let init = HelloInitData::new();
    assert_eq!(init.produce(&d).len(), 1);
    for _ in 0..10 {
        assert!(init.produce(&d).is_empty());
    }
}

#[test]
fn separate_executions_each_produce_once() {
    let d = bound("x");
    let a = HelloInitData::new();
    let b = HelloInitData::new();
    assert_eq!(a.produce(&d).len(), 1);
    assert_eq!(b.produce(&d).len(), 1);
    assert!(a.produce(&d).is_empty());
    assert!(b.produce(&d).is_empty());
}

#[test]
fn racing_calls_emit_the_row_once() {
    let d = bound("race");
    let init = HelloInitData::new();
    let callers: Vec<&HelloInitData> = vec![&init, &init, &init, &init];
    let order = [2usize, 0, 3, 1, 1, 2, 0, 3, 2];
    let mut got = vec![0usize; callers.len()];
    for &c in order.iter() {
        got[c] += callers[c].produce(&d).len();
    }
    assert_eq!(got.iter().sum::<usize>(), 1);
    assert_eq!(got[2], 1);
}
