use rusty_opengl::tools::macros::e2e_test;

fn test_zero_args() -> bool {
    true
}

fn test_one_arg(_data: u8) -> bool {
    true
}

fn test_multiple_args(_num: u8, _text: &String, _data: &Vec<u32>) -> bool {
    true
}

fn test_that_fails() -> bool {
    false
}

#[test]
fn macros_test_macro_e2e_test_no_args() {
    let line = e2e_test("test_zero_args", test_zero_args());
    println!("{}", line);
    assert_eq!("test_zero_args - PASSED", line);
}

#[test]
fn macros_test_macro_e2e_test_single_arg() {
    let line = e2e_test("test_one_arg", test_one_arg(250));
    println!("{}", line);
    assert_eq!("test_one_arg - PASSED", line);
}

#[test]
fn macros_test_macro_e2e_test_multiple_args() {
    let line = e2e_test(
        "test_multiple_args",
        test_multiple_args(250, &String::from("HelloWorld"), &vec![30, 40, 50]),
    );
    println!("{}", line);
    assert_eq!("test_multiple_args - PASSED", line);
}

#[test]
fn utilities_test_macro_e2e_test_no_args() {
    let line = e2e_test("test_zero_args", test_zero_args());
    println!("{}", line);
    assert_eq!("test_zero_args - PASSED", line);
}

#[test]
fn utilities_test_macro_e2e_test_single_arg() {
    let line = e2e_test("test_one_arg", test_one_arg(250));
    println!("{}", line);
    assert_eq!("test_one_arg - PASSED", line);
}

#[test]
fn utilities_test_macro_e2e_test_multiple_args() {
    let line = e2e_test(
        "test_multiple_args",
        test_multiple_args(250, &String::from("HelloWorld"), &vec![30, 40, 50]),
    );
    println!("{}", line);
    assert_eq!("test_multiple_args - PASSED", line);
}

#[test]
fn a_test_that_fails_is_reported_as_failed() {
    assert_eq!("test_that_fails - FAILED", e2e_test("test_that_fails", test_that_fails()));
}
