use rbgn::store::{getvar, setvar, VariableStore};

#[test]
fn unset_variable_reads_as_empty() {
    let vars = VariableStore::new();
    assert_eq!(getvar(&vars, "x"), "");
    assert!(vars.get("x").is_none());
}

#[test]
fn set_then_get() {
    let mut vars = VariableStore::new();
    setvar(&mut vars, "x", String::from("one"));
    setvar(&mut vars, "y", String::from("two"));
    assert_eq!(getvar(&vars, "x"), "one");
    assert_eq!(getvar(&vars, "y"), "two");
    assert_eq!(vars.get("x").unwrap(), "one");
    assert_eq!(getvar(&vars, "z"), "");
}

#[test]
fn set_overwrites() {
    let mut vars = VariableStore::new();
    setvar(&mut vars, "x", String::from("one"));
    setvar(&mut vars, "y", String::from("two"));
    setvar(&mut vars, "x", String::from("three"));
    assert_eq!(getvar(&vars, "x"), "three");
    assert_eq!(getvar(&vars, "y"), "two");
    vars.insert(String::from("y"), String::new());
    assert_eq!(vars.get("y").unwrap(), "");
    assert_eq!(getvar(&vars, "x"), "three");
}

#[test]
fn names_are_taken_as_they_are() {
    let mut vars = VariableStore::new();
    setvar(&mut vars, "", String::from("empty"));
    setvar(&mut vars, "X", String::from("upper"));
    setvar(&mut vars, "x", String::from("lower"));
    assert_eq!(getvar(&vars, ""), "empty");
    assert_eq!(getvar(&vars, "X"), "upper");
    assert_eq!(getvar(&vars, "x"), "lower");
}

#[test]
fn many_variables_keep_their_values() {
    let mut vars = VariableStore::new();
    for i in 0..2000u32 {
        setvar(&mut vars, &format!("v{}", i), format!("{}", i * 3));
    }
    for i in (0..2000u32).step_by(2) {
        setvar(&mut vars, &format!("v{}", i), format!("even {}", i));
    }
    for i in 0..2000u32 {
        let expected = if i % 2 == 0 { format!("even {}", i) } else { format!("{}", i * 3) };
        assert_eq!(getvar(&vars, &format!("v{}", i)), expected);
    }
    assert_eq!(getvar(&vars, "v2000"), "");
}
