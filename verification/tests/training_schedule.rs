use gradient_descent_neuron::schedule::{is_report_epoch, Step, TrainingRun, REPORT_INTERVAL};

fn run_all(epochs: usize) -> Vec<Step> {
    let mut run = TrainingRun::new(epochs);
    let mut steps = Vec::new();
    loop {
        let s = run.step();
        steps.push(s);
        if s == Step::Finished {
            break;
        }
    }
    steps
}

#[test]
fn report_epochs_are_multiples_of_the_interval() {
    assert_eq!(REPORT_INTERVAL, 100);
    assert!(is_report_epoch(0));
    assert!(!is_report_epoch(1));
    assert!(!is_report_epoch(99));
    assert!(is_report_epoch(100));
    assert!(is_report_epoch(900));
    assert!(!is_report_epoch(999));
}

#[test]
fn empty_run_is_finished_at_once() {
    let mut run = TrainingRun::new(0);
    assert!(run.is_finished());
    assert_eq!(run.step(), Step::Finished);
    assert_eq!(run.completed(), 0);
    assert_eq!(run.epochs(), 0);
}

#[test]
fn run_hands_out_each_epoch_once_in_order() {
    let steps = run_all(3);
    assert_eq!(
        steps,
        vec![
            Step::Epoch { index: 0, report: true },
            Step::Epoch { index: 1, report: false },
            Step::Epoch { index: 2, report: false },
            Step::Finished,
        ]
    );
}

#[test]
fn finished_run_stays_finished() {
    let mut run = TrainingRun::new(1);
    assert_eq!(run.step(), Step::Epoch { index: 0, report: true });
    assert!(run.is_finished());
    assert_eq!(run.step(), Step::Finished);
    assert_eq!(run.step(), Step::Finished);
    assert_eq!(run.completed(), 1);
}

#[test]
fn thousand_epoch_run_gives_one_history_entry_per_epoch_and_ten_reports() {
    let steps = run_all(1000);
    let epochs: Vec<usize> = steps
        .iter()
        .filter_map(|s| match s {
            Step::Epoch { index, .. } => Some(*index),
            Step::Finished => None,
        })
        .collect();
    assert_eq!(epochs, (0..1000).collect::<Vec<usize>>());
    let reports: Vec<usize> = steps
        .iter()
        .filter_map(|s| match s {
            Step::Epoch { index, report: true } => Some(*index),
            _ => None,
        })
        .collect();
    assert_eq!(reports, vec![0, 100, 200, 300, 400, 500, 600, 700, 800, 900]);
}

#[test]
fn report_count_rounds_up() {
    for (epochs, expected) in [(1usize, 1usize), (100, 1), (101, 2), (250, 3), (50, 1)] {
        let count = run_all(epochs)
            .iter()
            .filter(|s| matches!(s, Step::Epoch { report: true, .. }))
            .count();
        assert_eq!(count, expected);
    }
}
