use ilqr::shape::{Dims, MatrixShape, ShapeError};

fn sq(n: usize) -> MatrixShape {
    MatrixShape { rows: n, cols: n }
}

#[test]
fn config_two_states_one_control_is_accepted() {
    let d = Dims::check_config(2, 1, sq(2), sq(2), sq(1)).unwrap();
    assert_eq!(d, Dims { state_dim: 2, control_dim: 1 });
    assert_eq!(d.check_endpoints(2, 2), Ok(()));
    assert_eq!(d.check_dynamics_output(2), Ok(()));
}

#[test]
fn config_zero_state_dim_is_refused() {
    assert_eq!(
        Dims::check_config(0, 1, sq(0), sq(0), sq(1)),
        Err(ShapeError::ZeroStateDim)
    );
}

#[test]
fn config_zero_control_dim_is_refused() {
    assert_eq!(
        Dims::check_config(2, 0, sq(2), sq(2), sq(0)),
        Err(ShapeError::ZeroControlDim)
    );
}

#[test]
fn config_wrong_state_cost_is_refused() {
    let q = MatrixShape { rows: 2, cols: 3 };
    assert_eq!(
        Dims::check_config(2, 1, q, sq(2), sq(1)),
        Err(ShapeError::StateCost { shape: q })
    );
}

#[test]
fn config_wrong_terminal_cost_is_refused() {
    assert_eq!(
        Dims::check_config(2, 1, sq(2), sq(3), sq(1)),
        Err(ShapeError::TerminalCost { shape: sq(3) })
    );
}

#[test]
fn config_wrong_control_cost_is_refused() {
    assert_eq!(
        Dims::check_config(2, 1, sq(2), sq(2), sq(2)),
        Err(ShapeError::ControlCost { shape: sq(2) })
    );
}

#[test]
fn config_reports_first_failed_check() {
    assert_eq!(
        Dims::check_config(2, 1, sq(1), sq(1), sq(2)),
        Err(ShapeError::StateCost { shape: sq(1) })
    );
}

#[test]
fn endpoints_wrong_initial_state_is_refused() {
    let d = Dims::check_config(3, 2, sq(3), sq(3), sq(2)).unwrap();
    assert_eq!(d.check_endpoints(2, 2), Err(ShapeError::InitialState { len: 2 }));
}

#[test]
fn endpoints_wrong_target_is_refused() {
    let d = Dims::check_config(3, 2, sq(3), sq(3), sq(2)).unwrap();
    assert_eq!(d.check_endpoints(3, 4), Err(ShapeError::Target { len: 4 }));
}

#[test]
fn dynamics_output_wrong_length_is_refused() {
    let d = Dims::check_config(3, 2, sq(3), sq(3), sq(2)).unwrap();
    assert_eq!(d.check_dynamics_output(1), Err(ShapeError::DynamicsOutput { len: 1 }));
}

#[test]
fn square_of_checks_both_sides() {
    assert!(sq(4).square_of(4));
    assert!(!MatrixShape { rows: 4, cols: 1 }.square_of(4));
    assert!(!MatrixShape { rows: 1, cols: 4 }.square_of(4));
}
