use rusfun::control::{Controller, FitStatus, StepOutcome, MAX_RETRIES};
use rusfun::mask::{count_free, gather_free, scatter_free, vary_mask_from_bytes};
use rusfun::model::ParametricModel;
use rusfun::registry::{get_function, ModelKind};
use rusfun::result::FitResult;
use rusfun::validate::{degrees_of_freedom, validate_fit_input, FitLayout, InvalidArgument};

#[test]
fn registered_names_resolve() {
    assert_eq!(get_function("linear"), ModelKind::Linear);
    assert_eq!(get_function("parabola"), ModelKind::Parabola);
    assert_eq!(get_function("sqrt"), ModelKind::Sqrt);
    assert_eq!(get_function("cos"), ModelKind::Cos);
    assert_eq!(get_function("sin"), ModelKind::Sin);
    assert_eq!(get_function("tan"), ModelKind::Tan);
    assert_eq!(get_function("exp"), ModelKind::Exp);
    assert_eq!(get_function("gaussian"), ModelKind::Gaussian);
    assert_eq!(get_function("sas_sphere"), ModelKind::SasSphere);
    assert_eq!(get_function("sas_cube"), ModelKind::SasCube);
}

#[test]
fn unregistered_names_resolve_to_zero() {
    assert_eq!(get_function("bogus"), ModelKind::Zero);
    assert_eq!(get_function(""), ModelKind::Zero);
    assert_eq!(get_function("Linear"), ModelKind::Zero);
    assert_eq!(get_function("linear "), ModelKind::Zero);
    assert_eq!(get_function("sas_"), ModelKind::Zero);
}

#[test]
fn byte_flags_become_mask() {
    assert_eq!(vary_mask_from_bytes(&vec![0, 1, 2, 255, 0]), vec![false, true, true, true, false]);
    assert_eq!(vary_mask_from_bytes(&vec![]), Vec::<bool>::new());
}

#[test]
fn free_parameters_are_counted() {
    assert_eq!(count_free(&vec![true, false, true]), 2);
    assert_eq!(count_free(&vec![false, false]), 0);
    assert_eq!(count_free(&vec![]), 0);
}

#[test]
fn free_values_are_gathered_in_order() {
    let p = vec![1.5f64, 2.5, 3.5, 4.5];
    let m = vec![true, false, false, true];
    assert_eq!(gather_free(&p, &m), vec![1.5, 4.5]);
    assert_eq!(gather_free(&p, &vec![false; 4]), Vec::<f64>::new());
}

#[test]
fn held_parameter_keeps_initial_value() {
    let initial = vec![1.0f64, 2.0, 3.0];
    let m = vec![true, false, true];
    let r = scatter_free(&initial, &m, &vec![10.0, 30.0]);
    assert_eq!(r, vec![10.0, 2.0, 30.0]);
    assert_eq!(r[1].to_bits(), 2.0f64.to_bits());
}

#[test]
fn scatter_of_gather_is_identity() {
    let p = vec![0.25f64, -7.0, 1e10, 3.0];
    let m = vec![false, true, true, false];
    assert_eq!(scatter_free(&p, &m, &gather_free(&p, &m)), p);
}

#[test]
fn mismatched_mask_length_is_rejected() {
    let r = validate_fit_input(2, &vec![true], 5, 5, &vec![true; 5]);
    assert_eq!(r, Err(InvalidArgument::MaskLength));
    let r = validate_fit_input(2, &vec![true, true, true], 5, 5, &vec![true; 5]);
    assert_eq!(r, Err(InvalidArgument::MaskLength));
}

#[test]
fn each_input_error_is_reported() {
    assert_eq!(validate_fit_input(2, &vec![true, true], 0, 0, &vec![]), Err(InvalidArgument::EmptyDomain));
    assert_eq!(
        validate_fit_input(2, &vec![true, true], 5, 4, &vec![true; 5]),
        Err(InvalidArgument::ObservationLength)
    );
    assert_eq!(
        validate_fit_input(2, &vec![true, true], 5, 5, &vec![true; 6]),
        Err(InvalidArgument::UncertaintyLength)
    );
    assert_eq!(
        validate_fit_input(2, &vec![true, true], 3, 3, &vec![true, false, true]),
        Err(InvalidArgument::UncertaintyNotPositive)
    );
}

#[test]
fn valid_input_gives_layout() {
    let r = validate_fit_input(3, &vec![true, false, true], 5, 5, &vec![true; 5]);
    assert_eq!(r, Ok(FitLayout { n_params: 3, n_points: 5, n_free: 2 }));
}

#[test]
fn degrees_of_freedom_without_free_points_are_undefined() {
    assert_eq!(degrees_of_freedom(5, 2), Some(3));
    assert_eq!(degrees_of_freedom(2, 2), None);
    assert_eq!(degrees_of_freedom(2, 3), None);
    assert_eq!(degrees_of_freedom(1, 0), Some(1));
}

#[test]
fn new_fit_counts_first_evaluations() {
    let c = Controller::new(2, 100);
    assert_eq!(c.status, FitStatus::Iterating);
    assert_eq!(c.evaluations, 3);
    assert_eq!(c.damping_exp, 0);
    assert_eq!(Controller::new(0, 100).status, FitStatus::Converged);
    assert_eq!(Controller::new(2, 0).status, FitStatus::MaxIterationsReached);
    assert_eq!(Controller::new(usize::MAX, 5).evaluations, usize::MAX);
}

#[test]
fn accepted_steps_lower_damping_and_converge() {
    let mut c = Controller::new(2, 100);
    c.step(StepOutcome::Accepted { converged: false, small_step: false });
    assert_eq!(c.status, FitStatus::Iterating);
    assert_eq!(c.iteration, 1);
    assert_eq!(c.damping_exp, -1);
    assert_eq!(c.evaluations, 6);
    c.step(StepOutcome::Accepted { converged: true, small_step: false });
    assert_eq!(c.status, FitStatus::Converged);
    assert_eq!(c.iteration, 2);
    assert_eq!(c.evaluations, 9);
    assert!(c.is_finished());
}

#[test]
fn small_step_stalls() {
    let mut c = Controller::new(1, 100);
    c.step(StepOutcome::Accepted { converged: false, small_step: true });
    assert_eq!(c.status, FitStatus::Stalled);
}

#[test]
fn rejected_steps_raise_damping_until_stalled() {
    let mut c = Controller::new(1, 100);
    c.step(StepOutcome::Rejected);
    assert_eq!(c.damping_exp, 1);
    assert_eq!(c.retries, 1);
    assert_eq!(c.iteration, 0);
    assert_eq!(c.evaluations, 3);
    while !c.is_finished() {
        c.step(StepOutcome::Rejected);
    }
    assert_eq!(c.status, FitStatus::Stalled);
    assert_eq!(c.retries, MAX_RETRIES);
}

#[test]
fn failed_solves_end_the_fit() {
    let mut c = Controller::new(3, 100);
    for _ in 0..MAX_RETRIES {
        assert!(!c.is_finished());
        c.step(StepOutcome::SolveFailed);
    }
    assert_eq!(c.status, FitStatus::LinearSolveFailed);
    assert_eq!(c.evaluations, 4);
    assert_eq!(c.damping_exp, MAX_RETRIES as i32);
}

#[test]
fn accepted_step_clears_retries() {
    let mut c = Controller::new(1, 100);
    c.step(StepOutcome::SolveFailed);
    c.step(StepOutcome::Rejected);
    c.step(StepOutcome::Accepted { converged: false, small_step: false });
    assert_eq!(c.retries, 0);
    assert_eq!(c.damping_exp, 1);
}

#[test]
fn iteration_budget_is_enforced() {
    let mut c = Controller::new(1, 3);
    for _ in 0..3 {
        c.step(StepOutcome::Accepted { converged: false, small_step: false });
    }
    assert_eq!(c.status, FitStatus::MaxIterationsReached);
    assert_eq!(c.iteration, 3);
}

#[test]
fn messages_differ_per_state() {
    let all = [
        FitStatus::Iterating,
        FitStatus::Converged,
        FitStatus::MaxIterationsReached,
        FitStatus::Stalled,
        FitStatus::LinearSolveFailed,
    ];
    for (i, a) in all.iter().enumerate() {
        for b in all.iter().skip(i + 1) {
            assert_ne!(a.message(), b.message());
        }
    }
    assert_eq!(FitStatus::Converged.message(), "Converged: chi-square decrease below tolerance");
    assert_eq!(Controller::new(0, 1).convergence_message(), FitStatus::Converged.message());
}

#[test]
fn parameters_of_same_length_replace_old_ones() {
    let mut m = ParametricModel::new(ModelKind::Linear, vec![0.0f64, 0.0], vec![0.0, 1.0, 2.0]);
    assert_eq!(m.set_parameters(vec![2.0, 3.0]), Ok(()));
    assert_eq!(m.parameters(), vec![2.0, 3.0]);
    assert_eq!(m.domain(), vec![0.0, 1.0, 2.0]);
    assert_eq!(m.kind(), ModelKind::Linear);
}

#[test]
fn parameters_of_other_length_are_rejected() {
    let mut m = ParametricModel::new(ModelKind::Parabola, vec![1.0f64, 2.0, 3.0], vec![5.0]);
    assert_eq!(m.set_parameters(vec![1.0]), Err(InvalidArgument::ParameterLength));
    assert_eq!(m.parameters(), vec![1.0, 2.0, 3.0]);
}

#[test]
fn held_parameter_survives_many_steps() {
    let initial = vec![4.0f64, -1.0, 9.0];
    let m = vec![false, true, false];
    let mut p = initial.clone();
    for step in [vec![0.5], vec![7.0], vec![-3.25]] {
        p = scatter_free(&p, &m, &step);
    }
    assert_eq!(p, vec![4.0, -3.25, 9.0]);
}

#[test]
fn fit_result_keeps_what_it_was_given() {
    let mut c = Controller::new(2, 10);
    c.step(StepOutcome::Accepted { converged: true, small_step: false });
    let r = FitResult::assemble(
        vec![2.0f64, 3.0],
        vec![0.1, 0.2],
        vec![3.0, 5.0, 7.0],
        0.5,
        0.5,
        0.99,
        &c,
    );
    assert_eq!(r.parameters(), vec![2.0, 3.0]);
    assert_eq!(r.parameter_std_errors(), vec![0.1, 0.2]);
    assert_eq!(r.fitted_model(), vec![3.0, 5.0, 7.0]);
    assert_eq!(r.num_func_evaluation(), 6);
    assert_eq!(r.chi2(), 0.5);
    assert_eq!(r.redchi2(), 0.5);
    assert_eq!(r.R2(), 0.99);
    assert_eq!(r.convergence_message(), "Converged: chi-square decrease below tolerance".to_string());
}

#[test]
fn input_errors_are_described() {
    assert_eq!(InvalidArgument::EmptyDomain.describe(), "invalid argument: empty domain");
    assert_ne!(InvalidArgument::MaskLength.describe(), InvalidArgument::ParameterLength.describe());
}
