use ticker::series::{yahoo_nums, NormError, SeriesElem};

fn num(x: f64) -> SeriesElem {
    SeriesElem::Num(f64::to_bits(x))
}

fn to_floats(bits: Vec<u64>) -> Vec<f64> {
    bits.into_iter().map(f64::from_bits).collect()
}

#[test]
fn flat_numbers_pass_through() {
    let node = vec![num(1.0), num(2.5), num(-3.0)];
    let r = yahoo_nums(&node).unwrap();
    assert_eq!(to_floats(r), vec![1.0, 2.5, -3.0]);
}

#[test]
fn empty_node_yields_empty_series() {
    let node: Vec<SeriesElem> = vec![];
    let r = yahoo_nums(&node).unwrap();
    assert!(r.is_empty());
}

#[test]
fn nulls_collapse_without_placeholder() {
    let node = vec![SeriesElem::Null, num(1.0), SeriesElem::Null, num(2.0), SeriesElem::Null];
    let r = yahoo_nums(&node).unwrap();
    assert_eq!(to_floats(r), vec![1.0, 2.0]);
}

#[test]
fn one_level_arrays_flatten_in_order() {
    let node = vec![
        num(4.5),
        SeriesElem::Null,
        SeriesElem::Arr(vec![num(4.6), num(4.7)]),
        num(5.0),
        SeriesElem::Arr(vec![num(5.1)]),
    ];
    let r = yahoo_nums(&node).unwrap();
    assert_eq!(to_floats(r), vec![4.5, 4.6, 4.7, 5.0, 5.1]);
}

#[test]
fn empty_inner_array_contributes_nothing() {
    let node = vec![num(1.0), SeriesElem::Arr(vec![]), num(2.0)];
    let r = yahoo_nums(&node).unwrap();
    assert_eq!(to_floats(r), vec![1.0, 2.0]);
}

#[test]
fn top_level_other_is_unexpected_type() {
    let node = vec![num(1.0), SeriesElem::Other, num(2.0)];
    let e = yahoo_nums(&node).unwrap_err();
    assert_eq!(e, NormError::UnexpectedType);
    assert_eq!(e.message(), "unexpected type");
}

#[test]
fn second_level_nesting_is_rejected() {
    let node = vec![SeriesElem::Arr(vec![num(1.0), SeriesElem::Arr(vec![num(2.0)])])];
    let e = yahoo_nums(&node).unwrap_err();
    assert_eq!(e, NormError::ExpectedNum);
    assert_eq!(e.message(), "expected Some num");
}

#[test]
fn null_inside_array_is_rejected() {
    let node = vec![SeriesElem::Arr(vec![SeriesElem::Null])];
    let e = yahoo_nums(&node).unwrap_err();
    assert_eq!(e, NormError::ExpectedNum);
}

#[test]
fn other_inside_array_is_rejected() {
    let node = vec![SeriesElem::Arr(vec![num(1.0), SeriesElem::Other])];
    let e = yahoo_nums(&node).unwrap_err();
    assert_eq!(e, NormError::ExpectedNum);
}

#[test]
fn first_offence_in_order_decides() {
    let node = vec![SeriesElem::Arr(vec![SeriesElem::Null]), SeriesElem::Other];
    let e = yahoo_nums(&node).unwrap_err();
    assert_eq!(e, NormError::ExpectedNum);
    let node = vec![SeriesElem::Other, SeriesElem::Arr(vec![SeriesElem::Null])];
    let e = yahoo_nums(&node).unwrap_err();
    assert_eq!(e, NormError::UnexpectedType);
}
