use gradient_descent_neuron::naive::{naive_nudge, ErrorSign, Nudge};

#[test]
fn over_prediction_lowers() {
    assert_eq!(naive_nudge(ErrorSign::Above), Nudge::Lower);
}

#[test]
fn under_prediction_raises() {
    assert_eq!(naive_nudge(ErrorSign::Below), Nudge::Raise);
}

#[test]
fn exact_prediction_holds() {
    assert_eq!(naive_nudge(ErrorSign::Level), Nudge::Hold);
}

#[test]
fn opposite_errors_give_opposite_nudges() {
    let up = naive_nudge(ErrorSign::Below);
    let down = naive_nudge(ErrorSign::Above);
    assert_ne!(up, down);
    assert_ne!(up, Nudge::Hold);
    assert_ne!(down, Nudge::Hold);
}
