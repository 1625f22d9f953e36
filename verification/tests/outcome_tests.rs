use proof_batch::data::Position;
use proof_batch::outcome::partition_outcomes;

fn pos(row: u32, col: u16) -> Position {
    Position { row, col }
}

#[test]
fn partition_classifies_each_outcome() {
    let outcomes: Vec<(Position, Result<bool, String>)> = vec![
        (pos(0, 0), Ok(true)),
        (pos(0, 1), Ok(false)),
        (pos(1, 0), Ok(false)),
        (pos(1, 1), Ok(true)),
    ];
    let (verified, unverified) = partition_outcomes(outcomes).unwrap();
    assert_eq!(verified, vec![pos(0, 0), pos(1, 1)]);
    assert_eq!(unverified, vec![pos(0, 1), pos(1, 0)]);
}

#[test]
fn partition_of_no_outcomes_is_empty() {
    let outcomes: Vec<(Position, Result<bool, String>)> = vec![];
    let (verified, unverified) = partition_outcomes(outcomes).unwrap();
    assert!(verified.is_empty());
    assert!(unverified.is_empty());
}

#[test]
fn partition_is_complete_without_errors() {
    let positions = [pos(0, 0), pos(0, 1), pos(1, 0), pos(1, 1), pos(2, 3)];
    let outcomes: Vec<(Position, Result<bool, String>)> = positions
        .iter()
        .enumerate()
        .map(|(i, p)| (*p, Ok(i % 2 == 0)))
        .collect();
    let (verified, unverified) = partition_outcomes(outcomes).unwrap();
    assert_eq!(verified.len() + unverified.len(), positions.len());
    let mut classified: Vec<Position> = verified.iter().chain(unverified.iter()).copied().collect();
    classified.sort();
    let mut expected = positions.to_vec();
    expected.sort();
    assert_eq!(classified, expected);
}

#[test]
fn first_error_aborts_the_partition() {
    let outcomes: Vec<(Position, Result<bool, String>)> = vec![
        (pos(0, 0), Ok(true)),
        (pos(0, 1), Err("first".to_string())),
        (pos(1, 0), Err("second".to_string())),
        (pos(1, 1), Ok(false)),
    ];
    let err = partition_outcomes(outcomes).unwrap_err();
    assert_eq!(err, "first".to_string());
}

#[test]
fn partition_sets_do_not_depend_on_outcome_order() {
    let base: Vec<(Position, Result<bool, String>)> = vec![
        (pos(0, 0), Ok(true)),
        (pos(0, 1), Ok(false)),
        (pos(1, 0), Ok(false)),
        (pos(1, 1), Ok(true)),
    ];
    let mut shuffled = base.clone();
    shuffled.reverse();
    shuffled.swap(0, 2);

    let (mut v1, mut u1) = partition_outcomes(base).unwrap();
    let (mut v2, mut u2) = partition_outcomes(shuffled).unwrap();
    v1.sort();
    v2.sort();
    u1.sort();
    u2.sort();
    assert_eq!(v1, v2);
    assert_eq!(u1, u2);
}

#[test]
fn duplicate_positions_are_classified_once_each() {
    let outcomes: Vec<(Position, Result<bool, u32>)> = vec![
        (pos(3, 3), Ok(true)),
        (pos(3, 3), Ok(false)),
        (pos(3, 3), Ok(true)),
    ];
    let (verified, unverified) = partition_outcomes(outcomes).unwrap();
    assert_eq!(verified, vec![pos(3, 3), pos(3, 3)]);
    assert_eq!(unverified, vec![pos(3, 3)]);
}
