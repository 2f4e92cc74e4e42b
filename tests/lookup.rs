use game_score::lookup::{get_score, query, LookupError};
use game_score::stamp::{Score, Stamp};

fn stamp(offset: i32, home: i32, away: i32) -> Stamp {
    Stamp { offset, score: Score { home, away } }
}

#[test]
fn test_successful_match() {
    let mut stamps = Vec::new();

    let score = Score { home: 1, away: -1 };

    stamps.push(Stamp { offset: 10, score: Score { home: 1, away: 0 } });
    stamps.push(Stamp { offset: 20, score });
    stamps.push(Stamp { offset: 30, score: Score { home: 0, away: -1 } });

    assert_eq!(get_score(&stamps, 20), (score.home, score.away));
}

#[test]
fn test_match_before() {
    let stamp: Stamp = Stamp { offset: 10, score: Score { home: 10, away: -10 } };

    assert_eq!(get_score(&vec![stamp], 5), (0, 0));
}

#[test]
fn test_match_behind() {
    let stamp: Stamp = Stamp { offset: 10, score: Score { home: 10, away: -10 } };

    assert_eq!(get_score(&vec![stamp], 15), (stamp.score.home, stamp.score.away));
}

#[test]
fn query_empty_sequence_fails() {
    let stamps: Vec<Stamp> = Vec::new();
    assert_eq!(query(&stamps, 10), Err(LookupError::EmptySequence));
}

#[test]
fn query_non_empty_answers() {
    let stamps = vec![stamp(10, 10, -10)];
    assert_eq!(query(&stamps, 15), Ok((10, -10)));
    assert_eq!(query(&stamps, 5), Ok((0, 0)));
}

#[test]
fn get_score_between_stamps_takes_earlier() {
    let stamps = vec![stamp(0, 0, 0), stamp(3, 1, 0), stamp(7, 1, 1), stamp(9, 2, 1)];
    assert_eq!(get_score(&stamps, 0), (0, 0));
    assert_eq!(get_score(&stamps, 2), (0, 0));
    assert_eq!(get_score(&stamps, 3), (1, 0));
    assert_eq!(get_score(&stamps, 6), (1, 0));
    assert_eq!(get_score(&stamps, 8), (1, 1));
    assert_eq!(get_score(&stamps, 9), (2, 1));
    assert_eq!(get_score(&stamps, i32::MAX), (2, 1));
}

#[test]
fn get_score_before_first_is_zero() {
    let stamps = vec![stamp(0, 0, 0), stamp(2, 1, 0)];
    assert_eq!(get_score(&stamps, -1), (0, 0));
    assert_eq!(get_score(&stamps, i32::MIN), (0, 0));
}

#[test]
fn get_score_exact_offsets_give_own_score() {
    let stamps = vec![stamp(0, 0, 0), stamp(1, 0, 1), stamp(4, 1, 1), stamp(5, 2, 1)];
    for s in &stamps {
        assert_eq!(get_score(&stamps, s.offset), (s.score.home, s.score.away));
    }
}

#[test]
fn get_score_monotonic_in_offset() {
    let stamps = vec![stamp(0, 0, 0), stamp(2, 1, 0), stamp(3, 1, 1), stamp(6, 1, 2)];
    let mut previous = get_score(&stamps, -2);
    for offset in -1..10 {
        let current = get_score(&stamps, offset);
        assert!(previous.0 <= current.0 && previous.1 <= current.1);
        previous = current;
    }
}
