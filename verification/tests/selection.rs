use evm_spec_tester::fork::pick_spec;
use evm_spec_tester::{Duplicate, SpecCases, Test, TestUnit};

fn group(name: &str, spec_id: u8) -> SpecCases {
    SpecCases { name: name.to_string(), spec_id, tests: Vec::new() }
}

fn group_with_cases(name: &str, spec_id: u8, cases: usize) -> SpecCases {
    let mut tests = Vec::new();
    for _ in 0..cases {
        tests.push(Test { txbytes: None, expect_exception: None });
    }
    SpecCases { name: name.to_string(), spec_id, tests }
}

#[test]
fn first_of_two_equal_forks_is_picked() {
    let specs = vec![group("A", 3), group("B", 5), group("C", 5)];
    let choice = pick_spec(&specs, 5);
    assert_eq!(choice.chosen, Some(1));
    assert_eq!(choice.duplicates, vec![Duplicate { kept: 1, repeated: 2 }]);
}

#[test]
fn first_of_two_equal_forks_is_picked_in_the_other_order() {
    let specs = vec![group("C", 5), group("A", 3), group("B", 5)];
    let choice = pick_spec(&specs, 5);
    assert_eq!(choice.chosen, Some(0));
    assert_eq!(specs[choice.chosen.unwrap()].name, "C");
    assert_eq!(choice.duplicates, vec![Duplicate { kept: 0, repeated: 2 }]);
}

#[test]
fn first_of_the_most_advanced_is_picked_in_every_order() {
    let forks = [("A", 3u8), ("B", 5u8), ("C", 5u8)];
    let orders = [[0, 1, 2], [0, 2, 1], [1, 0, 2], [1, 2, 0], [2, 0, 1], [2, 1, 0]];
    for order in orders {
        for cutoff in [5u8, 6, 18, 255] {
            let specs: Vec<SpecCases> =
                order.iter().map(|&i| group(forks[i].0, forks[i].1)).collect();
            let choice = pick_spec(&specs, cutoff);
            let first_of_b_and_c = order.iter().position(|&i| i != 0).unwrap();
            assert_eq!(choice.chosen, Some(first_of_b_and_c));
            assert_ne!(specs[choice.chosen.unwrap()].name, "A");
            let other = order.iter().rposition(|&i| i != 0).unwrap();
            assert_eq!(
                choice.duplicates,
                vec![Duplicate { kept: first_of_b_and_c, repeated: other }]
            );
        }
    }
}

#[test]
fn less_advanced_fork_is_never_picked_under_a_higher_cutoff() {
    for cutoff in 5..=255u8 {
        let specs = vec![group("A", 3), group("B", 5), group("C", 5)];
        let choice = pick_spec(&specs, cutoff);
        assert_eq!(choice.chosen, Some(1));
    }
}

#[test]
fn fork_beyond_the_cutoff_is_discarded() {
    let specs = vec![group("A", 3), group("B", 5), group("C", 5)];
    let choice = pick_spec(&specs, 4);
    assert_eq!(choice.chosen, Some(0));
    assert!(choice.duplicates.is_empty());
}

#[test]
fn no_fork_qualifies() {
    let specs = vec![group("Osaka", 19), group("Prague", 18)];
    let choice = pick_spec(&specs, 17);
    assert_eq!(choice.chosen, None);
    assert!(choice.duplicates.is_empty());
}

#[test]
fn no_fork_at_all() {
    let specs: Vec<SpecCases> = Vec::new();
    let choice = pick_spec(&specs, 255);
    assert_eq!(choice.chosen, None);
    assert!(choice.duplicates.is_empty());
}

#[test]
fn shanghai_is_picked_over_london() {
    let specs = vec![group_with_cases("Shanghai", 4, 2), group_with_cases("London", 3, 5)];
    let choice = pick_spec(&specs, 10);
    assert_eq!(choice.chosen, Some(0));
    assert_eq!(specs[0].name, "Shanghai");
    assert!(choice.duplicates.is_empty());

    let specs = vec![group_with_cases("London", 3, 5), group_with_cases("Shanghai", 4, 2)];
    let choice = pick_spec(&specs, 10);
    assert_eq!(choice.chosen, Some(1));
}

#[test]
fn tie_below_the_final_choice_is_still_noted() {
    let specs = vec![group("Paris", 3), group("Merge", 3), group("Cancun", 5)];
    let choice = pick_spec(&specs, 9);
    assert_eq!(choice.chosen, Some(2));
    assert_eq!(choice.duplicates, vec![Duplicate { kept: 0, repeated: 1 }]);
}

#[test]
fn repeat_of_a_superseded_fork_is_no_tie() {
    let specs = vec![group("a", 3), group("b", 5), group("c", 3), group("d", 5), group("e", 5)];
    let choice = pick_spec(&specs, 5);
    assert_eq!(choice.chosen, Some(1));
    assert_eq!(
        choice.duplicates,
        vec![Duplicate { kept: 1, repeated: 3 }, Duplicate { kept: 1, repeated: 4 }]
    );
}

#[test]
fn unsupported_forks_make_no_tie() {
    let specs = vec![group("x", 6), group("y", 6)];
    let choice = pick_spec(&specs, 5);
    assert_eq!(choice.chosen, None);
    assert!(choice.duplicates.is_empty());
}

#[test]
fn cutoff_is_inclusive() {
    let specs = vec![group("Prague", 18)];
    assert_eq!(pick_spec(&specs, 18).chosen, Some(0));
    assert_eq!(pick_spec(&specs, 17).chosen, None);
}

#[test]
fn unit_keeps_its_groups_in_order() {
    let unit = TestUnit::new(vec![group("Shanghai", 4), group("London", 3)]).unwrap();
    assert_eq!(unit.post().len(), 2);
    assert_eq!(unit.post()[0].name, "Shanghai");
    assert_eq!(unit.post()[1].spec_id, 3);
}

#[test]
fn unit_with_a_repeated_fork_name_is_refused() {
    assert!(TestUnit::new(vec![group("Paris", 15), group("Merge", 15)]).is_some());
    assert!(TestUnit::new(vec![group("Paris", 15), group("London", 12), group("Paris", 15)])
        .is_none());
    assert!(TestUnit::new(Vec::new()).is_some());
}
