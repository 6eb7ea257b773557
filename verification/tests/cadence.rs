use azimuthal_fdf::integrator::RunCadence;
use azimuthal_fdf::parameters::Schedule;

/// Drive a cadence through a whole run the way the stepping loop does,
/// and return the number of samples it said to log, the initial one at
/// time zero included.
fn run_and_count(cadence: &mut RunCadence) -> usize {
    let mut samples: usize = 1;
    while cadence.is_running() {
        if cadence.advance() {
            samples += 1;
        }
    }
    samples
}

#[test]
fn reference_run_logs_51_samples() {
    // 12 burners, mode order 1, dt = 1e-4, 50 saves per cycle and one
    // cycle: 10000 steps, one save every 200 steps, and 51 logged
    // samples in all, the one at time zero included.
    let schedule = Schedule::new(10000, 10000, 50).unwrap();
    let mut cadence = RunCadence::new(&schedule);

    let samples = run_and_count(&mut cadence);

    assert_eq!(samples, 51);
    assert_eq!(cadence.samples_logged, 51);
    assert_eq!(cadence.step, 10000);
}

#[test]
fn saves_fall_on_multiples_of_the_skip() {
    // 12 steps with a save every 3: saves after steps 3, 6, 9 and 12.
    let schedule = Schedule::new(12, 12, 4).unwrap();
    assert_eq!(schedule.get_skip_per_save(), 3);

    let mut cadence = RunCadence::new(&schedule);
    let mut saved_steps: Vec<usize> = Vec::new();
    while cadence.is_running() {
        if cadence.advance() {
            saved_steps.push(cadence.step);
        }
    }

    assert_eq!(saved_steps, vec![3, 6, 9, 12]);
    assert_eq!(cadence.samples_logged, 5);
}

#[test]
fn leftover_steps_log_no_sample() {
    // 10 total steps with a save every 3: saves after steps 3, 6 and 9;
    // the tenth step ends the run without a save.
    let schedule = Schedule::new(9, 10, 3).unwrap();
    assert_eq!(schedule.get_skip_per_save(), 3);

    let mut cadence = RunCadence::new(&schedule);
    let samples = run_and_count(&mut cadence);

    assert_eq!(samples, 4);
    assert!(!cadence.is_running());
}

#[test]
fn zero_step_run_logs_only_the_initial_sample() {
    // Zero cycles: the run ends at once and only the sample at time
    // zero is logged.
    let schedule = Schedule::new(10000, 0, 50).unwrap();
    let mut cadence = RunCadence::new(&schedule);

    let samples = run_and_count(&mut cadence);

    assert_eq!(samples, 1);
    assert_eq!(cadence.step, 0);
}

#[test]
fn fresh_cadence_has_logged_only_the_initial_sample() {
    let schedule = Schedule::new(100, 400, 10).unwrap();
    let cadence = RunCadence::new(&schedule);

    assert_eq!(cadence.step, 0);
    assert_eq!(cadence.samples_logged, 1);
    assert!(cadence.is_running());
}
