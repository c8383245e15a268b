use hevy_bridge::outcome::{aggregate, classify, Color, Outcome};
use hevy_bridge::targets::TargetRange;

#[test]
fn classifies_below_inside_and_above_the_range() {
    let target = TargetRange { lo: 8, hi: 10 };
    assert_eq!(classify(7, target), Outcome::Struggled);
    assert_eq!(classify(8, target), Outcome::Succeeded);
    assert_eq!(classify(9, target), Outcome::Succeeded);
    assert_eq!(classify(10, target), Outcome::Succeeded);
    assert_eq!(classify(11, target), Outcome::Exceeded);
}

#[test]
fn classifies_zero_and_negative_rep_counts() {
    let target = TargetRange { lo: 0, hi: 1 };
    assert_eq!(classify(0, target), Outcome::Succeeded);
    assert_eq!(classify(-1, target), Outcome::Struggled);
    assert_eq!(classify(i64::MIN, target), Outcome::Struggled);
    assert_eq!(classify(i64::MAX, target), Outcome::Exceeded);
    let below_zero = TargetRange { lo: -5, hi: -3 };
    assert_eq!(classify(-6, below_zero), Outcome::Struggled);
    assert_eq!(classify(-4, below_zero), Outcome::Succeeded);
    assert_eq!(classify(-2, below_zero), Outcome::Exceeded);
    assert_eq!(classify(0, below_zero), Outcome::Exceeded);
}

#[test]
fn classification_matches_its_definition_on_a_grid() {
    for lo in -3i64..=12 {
        for hi in lo..=12 {
            for reps in -5i64..=15 {
                let got = classify(reps, TargetRange { lo, hi });
                assert_eq!(got == Outcome::Struggled, reps < lo);
                assert_eq!(got == Outcome::Exceeded, reps > hi);
                assert_eq!(got == Outcome::Succeeded, lo <= reps && reps <= hi);
            }
        }
    }
}

#[test]
fn a_point_range_is_exceeded_by_one_more_rep() {
    let target = TargetRange { lo: 8, hi: 8 };
    assert_eq!(classify(7, target), Outcome::Struggled);
    assert_eq!(classify(8, target), Outcome::Succeeded);
    assert_eq!(classify(9, target), Outcome::Exceeded);
}

#[test]
fn aggregate_of_no_sets_is_succeeded() {
    assert_eq!(aggregate(&vec![]), Outcome::Succeeded);
}

#[test]
fn one_struggling_set_marks_the_exercise() {
    assert_eq!(aggregate(&vec![Outcome::Struggled]), Outcome::Struggled);
    assert_eq!(
        aggregate(&vec![Outcome::Exceeded, Outcome::Struggled, Outcome::Exceeded]),
        Outcome::Struggled
    );
    assert_eq!(
        aggregate(&vec![Outcome::Succeeded, Outcome::Succeeded, Outcome::Struggled]),
        Outcome::Struggled
    );
    assert_eq!(aggregate(&vec![Outcome::Struggled, Outcome::Exceeded]), Outcome::Struggled);
}

#[test]
fn exceeding_counts_only_when_unanimous() {
    assert_eq!(aggregate(&vec![Outcome::Exceeded]), Outcome::Exceeded);
    assert_eq!(aggregate(&vec![Outcome::Exceeded, Outcome::Exceeded]), Outcome::Exceeded);
    assert_eq!(aggregate(&vec![Outcome::Exceeded, Outcome::Succeeded]), Outcome::Succeeded);
    assert_eq!(aggregate(&vec![Outcome::Succeeded, Outcome::Exceeded]), Outcome::Succeeded);
    assert_eq!(aggregate(&vec![Outcome::Succeeded]), Outcome::Succeeded);
}

#[test]
fn aggregate_matches_its_definition_on_every_list_of_three() {
    let all = [Outcome::Struggled, Outcome::Succeeded, Outcome::Exceeded];
    for a in all {
        for b in all {
            for c in all {
                let list = vec![a, b, c];
                let expected = if list.contains(&Outcome::Struggled) {
                    Outcome::Struggled
                } else if list.iter().all(|o| *o == Outcome::Exceeded) {
                    Outcome::Exceeded
                } else {
                    Outcome::Succeeded
                };
                assert_eq!(aggregate(&list), expected);
            }
        }
    }
}

#[test]
fn outcomes_have_words_and_colours() {
    assert_eq!(Outcome::Struggled.label(), "Struggled");
    assert_eq!(Outcome::Succeeded.label(), "Succeeded");
    assert_eq!(Outcome::Exceeded.label(), "Exceeded");
    assert_eq!(Outcome::Struggled.color(), Color::Yellow);
    assert_eq!(Outcome::Succeeded.color(), Color::Green);
    assert_eq!(Outcome::Exceeded.color(), Color::Cyan);
    assert_eq!(Color::Yellow.code(), "33");
    assert_eq!(Color::Green.code(), "32");
    assert_eq!(Color::Cyan.code(), "36");
}

#[test]
fn styled_outcomes_carry_their_escape_sequences() {
    assert_eq!(Outcome::Struggled.styled_text(), "\x1b[33mStruggled\x1b[0m");
    assert_eq!(Outcome::Succeeded.styled_text(), "\x1b[32mSucceeded\x1b[0m");
    assert_eq!(Outcome::Exceeded.styled_text(), "\x1b[36mExceeded\x1b[0m");
}
