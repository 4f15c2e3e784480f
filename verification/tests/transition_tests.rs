use time_index_state_type_script::error::Error;
use time_index_state_type_script::record::Record;
use time_index_state_type_script::transition::{check_create, check_update, next_index};

fn record(index: u8) -> Record {
    Record { index, modulus: 12 }
}

#[test]
fn next_index_goes_up_by_one() {
    assert_eq!(next_index(0), 1);
    assert_eq!(next_index(1), 2);
    assert_eq!(next_index(5), 6);
    assert_eq!(next_index(10), 11);
}

#[test]
fn next_index_wraps_from_the_last_position_to_zero() {
    assert_eq!(next_index(11), 0);
}

#[test]
fn next_index_is_the_successor_modulo_twelve() {
    for index in 0u8..12 {
        assert_eq!(next_index(index), (index + 1) % 12);
    }
}

#[test]
fn twelve_steps_lead_back_to_the_start_and_fewer_do_not() {
    for start in 0u8..12 {
        let mut index = start;
        for step in 1..=12 {
            index = next_index(index);
            if step < 12 {
                assert_ne!(index, start);
            }
        }
        assert_eq!(index, start);
    }
}

#[test]
fn creation_at_zero_is_accepted() {
    assert_eq!(check_create(&record(0)), Ok(()));
}

#[test]
fn creation_at_one_is_an_invalid_transition() {
    assert_eq!(check_create(&record(1)), Err(Error::InvalidTransition));
}

#[test]
fn creation_anywhere_but_zero_is_an_invalid_transition() {
    for index in 1u8..12 {
        assert_eq!(check_create(&record(index)), Err(Error::InvalidTransition));
    }
}

#[test]
fn update_to_the_next_position_is_accepted() {
    assert_eq!(check_update(&record(0), &record(1)), Ok(()));
    assert_eq!(check_update(&record(5), &record(6)), Ok(()));
    assert_eq!(check_update(&record(10), &record(11)), Ok(()));
}

#[test]
fn update_from_the_last_position_must_go_to_zero() {
    assert_eq!(check_update(&record(11), &record(0)), Ok(()));
}

#[test]
fn update_from_the_last_position_to_one_is_an_invalid_transition() {
    assert_eq!(check_update(&record(11), &record(1)), Err(Error::InvalidTransition));
}

#[test]
fn update_from_the_last_position_to_itself_is_an_invalid_transition() {
    assert_eq!(check_update(&record(11), &record(11)), Err(Error::InvalidTransition));
}

#[test]
fn update_that_skips_a_position_is_an_invalid_transition() {
    assert_eq!(check_update(&record(5), &record(7)), Err(Error::InvalidTransition));
}

#[test]
fn update_that_stands_still_is_an_invalid_transition() {
    for index in 0u8..12 {
        assert_eq!(check_update(&record(index), &record(index)), Err(Error::InvalidTransition));
    }
}

#[test]
fn update_that_goes_back_is_an_invalid_transition() {
    assert_eq!(check_update(&record(6), &record(5)), Err(Error::InvalidTransition));
    assert_eq!(check_update(&record(0), &record(11)), Err(Error::InvalidTransition));
}

#[test]
fn update_is_accepted_for_the_successor_and_nothing_else() {
    for input in 0u8..12 {
        for output in 0u8..12 {
            let expected = if output == (input + 1) % 12 {
                Ok(())
            } else {
                Err(Error::InvalidTransition)
            };
            assert_eq!(check_update(&record(input), &record(output)), expected);
        }
    }
}

#[test]
fn every_position_has_exactly_one_way_on() {
    for input in 0u8..12 {
        let ways = (0u8..12)
            .filter(|output| check_update(&record(input), &record(*output)).is_ok())
            .count();
        assert_eq!(ways, 1);
    }
}
