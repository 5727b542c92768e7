use h2s::adjust::ExactlyOne;
use h2s::adjust::{
    try_adjust, vec_to_array, vec_to_option, vec_to_single, VecToArrayError, VecToOptionError,
    VecToSingleError,
};

#[test]
fn adjuster_single() {
    assert_eq!(try_adjust("foo").unwrap(), "foo");
}

#[test]
fn adjuster_vec_to_single() {
    assert_eq!(vec_to_single(vec!["foo"]), Ok("foo"));
    let empty: Vec<&str> = vec![];
    assert_eq!(vec_to_single(empty), Err(VecToSingleError::NoElements));
    assert_eq!(
        VecToSingleError::NoElements.render(),
        "expected exactly one element, but no elements found"
    );
    assert_eq!(
        vec_to_single(vec!["foo", "bar"]),
        Err(VecToSingleError::TooManyElements { found: 2 })
    );
    assert_eq!(
        VecToSingleError::TooManyElements { found: 2 }.render(),
        "expected exactly one element, but found 2 elements"
    );
}

#[test]
fn adjuster_vec_to_array() {
    assert_eq!(vec_to_array(vec!["foo", "bar"], 2), Ok(vec!["foo", "bar"]));
    assert_eq!(
        vec_to_array(vec!["foo", "var"], 1),
        Err(VecToArrayError::ElementNumberUnmatched { expected: 1, found: 2 })
    );
    assert_eq!(
        VecToArrayError::ElementNumberUnmatched { expected: 1, found: 2 }.render(),
        "expected exactly 1 elements, but found 2 elements"
    );
    assert_eq!(
        vec_to_array(vec!["foo", "var"], 3),
        Err(VecToArrayError::ElementNumberUnmatched { expected: 3, found: 2 })
    );
    assert_eq!(
        VecToArrayError::ElementNumberUnmatched { expected: 3, found: 2 }.render(),
        "expected exactly 3 elements, but found 2 elements"
    );
}

#[test]
fn adjuster_vec_to_option() {
    let empty: Vec<&str> = vec![];
    assert_eq!(vec_to_option(empty), Ok(None));
    assert_eq!(vec_to_option(vec!["foo"]), Ok(Some("foo")));
    assert_eq!(
        vec_to_option(vec!["foo", "var"]),
        Err(VecToOptionError::TooManyElements { found: 2 })
    );
    assert_eq!(
        VecToOptionError::TooManyElements { found: 2 }.render(),
        "expected 0 or 1 element, but found 2 elements"
    );
}

#[test]
fn identity() {
    assert_eq!(try_adjust(ExactlyOne(0)), Ok(ExactlyOne(0)));
}

#[test]
fn transformable_vec_to_single() {
    assert_eq!(vec_to_single(vec![0]), Ok(0));
    let empty: Vec<()> = vec![];
    assert_eq!(vec_to_single(empty), Err(VecToSingleError::NoElements));
    assert_eq!(
        vec_to_single(vec![0, 1]),
        Err(VecToSingleError::TooManyElements { found: 2 })
    );
}

#[test]
fn transformable_vec_to_array() {
    assert_eq!(vec_to_array(vec!["foo", "bar"], 2), Ok(vec!["foo", "bar"]));
    assert_eq!(
        vec_to_array(vec!["foo", "var"], 3),
        Err(VecToArrayError::ElementNumberUnmatched { expected: 3, found: 2 })
    );
}

#[test]
fn transformable_vec_to_option() {
    let empty: Vec<()> = vec![];
    assert_eq!(vec_to_option(empty), Ok(None));
    assert_eq!(vec_to_option(vec!["foo"]), Ok(Some("foo")));
    assert_eq!(
        vec_to_option(vec!["foo", "var"]),
        Err(VecToOptionError::TooManyElements { found: 2 })
    );
}

#[test]
fn transformer_vec_to_single() {
    assert_eq!(vec_to_single(vec![0]) as Result<i32, _>, Ok(0));
    let empty: Vec<i32> = vec![];
    assert_eq!(vec_to_single(empty), Err(VecToSingleError::NoElements));
    assert_eq!(
        vec_to_single(vec![0, 1]),
        Err(VecToSingleError::TooManyElements { found: 2 })
    );
}

#[test]
fn transformer_vec_to_array() {
    assert_eq!(vec_to_array(vec!["foo", "bar"], 2), Ok(vec!["foo", "bar"]));
    assert_eq!(
        vec_to_array(vec!["foo", "var"], 3),
        Err(VecToArrayError::ElementNumberUnmatched { expected: 3, found: 2 })
    );
}

#[test]
fn transformer_vec_to_option() {
    let empty: Vec<&str> = vec![];
    assert_eq!(vec_to_option(empty), Ok(None));
    assert_eq!(vec_to_option(vec!["foo"]), Ok(Some("foo")));
    assert_eq!(
        vec_to_option(vec!["foo", "var"]),
        Err(VecToOptionError::TooManyElements { found: 2 })
    );
}
