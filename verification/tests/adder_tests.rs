use rustbook::adder::{add, add_one, PrimaryColor};

#[test]
fn it_works() {
    let result = add(2, 2);
    assert_eq!(result, 4);
    assert_ne!(result, 0);
    assert!(true);
    assert!(result > 0, "There is a problem with {}", result);
}

#[test]
#[should_panic(expected = "msg")]
fn always_fails() {
    panic!("msg");
}

#[test]
fn test_with_result() -> Result<(), String> {
    if 2 + 2 == 4 {
        Ok(())
    } else {
        Err(String::from("2+2 is not 4 in this galaxy"))
    }
}

#[test]
fn lib_it_works() {
    let result = add(2, 2);
    assert_eq!(result, 4);
    assert_ne!(result, 0);
    assert!(true);
    assert!(result > 0, "There is a problem with {}", result);
}

#[test]
#[should_panic(expected = "msg")]
fn lib_always_fails() {
    panic!("msg");
}

#[test]
fn lib_test_with_result() -> Result<(), String> {
    if 2 + 2 == 4 {
        Ok(())
    } else {
        Err(String::from("2+2 is not 4 in this galaxy"))
    }
}

#[test]
fn it_adds_two() {
    assert_eq!(4, add(2, 2));
}

#[test]
fn add_large_values() {
    assert_eq!(add(usize::MAX - 1, 1), usize::MAX);
    assert_eq!(add(0, 0), 0);
}

#[test]
fn add_one_documented_example() {
    let arg = 5;
    let answer = add_one(arg);
    assert_eq!(6, answer);
}

#[test]
fn add_one_wraps_at_the_top() {
    assert_eq!(add_one(i32::MAX), i32::MIN);
    assert_eq!(add_one(-1), 0);
    assert_eq!(add_one(i32::MIN), i32::MIN + 1);
}

#[test]
fn primary_colors_are_distinct() {
    assert_ne!(PrimaryColor::Red, PrimaryColor::Yellow);
    assert_ne!(PrimaryColor::Yellow, PrimaryColor::Blue);
    assert_eq!(PrimaryColor::Blue, PrimaryColor::Blue);
}
