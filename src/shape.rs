//! Dimension checks for a solver configuration and for the vectors handed to a solve.

use vstd::prelude::*;

verus! {

/// The number of rows and columns of a matrix.
#[derive(Clone, Copy, Debug, PartialEq, Eq, Structural)]
pub struct MatrixShape {
    pub rows: usize,
    pub cols: usize,
}

/// What is wrong with the dimensions of a configuration or of a solve's inputs.
#[derive(Clone, Copy, Debug, PartialEq, Eq, Structural)]
pub enum ShapeError {
    /// The state dimension is zero.
    ZeroStateDim,
    /// The control dimension is zero.
    ZeroControlDim,
    /// The state cost matrix `Q` is not `n`-by-`n`.
    StateCost { shape: MatrixShape },
    /// The terminal state cost matrix `Qf` is not `n`-by-`n`.
    TerminalCost { shape: MatrixShape },
    /// The control cost matrix `R` is not `m`-by-`m`.
    ControlCost { shape: MatrixShape },
    /// The initial state does not have `n` entries.
    InitialState { len: usize },
    /// The target state does not have `n` entries.
    Target { len: usize },
    /// The dynamics returned a state that does not have `n` entries.
    DynamicsOutput { len: usize },
}

/// The state dimension `n` and the control dimension `m` of a problem, both positive.
#[derive(Clone, Copy, Debug, PartialEq, Eq, Structural)]
pub struct Dims {
    pub state_dim: usize,
    pub control_dim: usize,
}

impl MatrixShape {
    /// Whether this is the shape of an `n`-by-`n` matrix.
    pub open spec fn is_square_of(self, n: usize) -> bool {
        self.rows == n && self.cols == n
    }

    pub fn square_of(&self, n: usize) -> (r: bool)
        ensures
            r == self.is_square_of(n),
    {
        self.rows == n && self.cols == n
    }
}

/// The outcome of checking a configuration: the first failed check, in the order
/// state dimension, control dimension, `Q`, `Qf`, `R`.
pub open spec fn config_outcome(
    state_dim: usize,
    control_dim: usize,
    q: MatrixShape,
    qf: MatrixShape,
    r: MatrixShape,
) -> Result<Dims, ShapeError> {
    if state_dim == 0 {
        Err(ShapeError::ZeroStateDim)
    } else if control_dim == 0 {
        Err(ShapeError::ZeroControlDim)
    } else if !q.is_square_of(state_dim) {
        Err(ShapeError::StateCost { shape: q })
    } else if !qf.is_square_of(state_dim) {
        Err(ShapeError::TerminalCost { shape: qf })
    } else if !r.is_square_of(control_dim) {
        Err(ShapeError::ControlCost { shape: r })
    } else {
        Ok(Dims { state_dim, control_dim })
    }
}

impl Dims {
    pub open spec fn wf(self) -> bool {
        self.state_dim > 0 && self.control_dim > 0
    }

    /// Checks the dimensions of a configuration: both dimensions positive, `Q` and
    /// `Qf` of shape `n`-by-`n`, `R` of shape `m`-by-`m`.
    pub fn check_config(
        state_dim: usize,
        control_dim: usize,
        q: MatrixShape,
        qf: MatrixShape,
        r: MatrixShape,
    ) -> (res: Result<Dims, ShapeError>)
        ensures
            res == config_outcome(state_dim, control_dim, q, qf, r),
            res is Ok <==> (state_dim > 0 && control_dim > 0 && q.is_square_of(state_dim)
                && qf.is_square_of(state_dim) && r.is_square_of(control_dim)),
            res matches Ok(d) ==> d.wf() && d.state_dim == state_dim && d.control_dim
                == control_dim,
    {
        if state_dim == 0 {
            Err(ShapeError::ZeroStateDim)
        } else if control_dim == 0 {
            Err(ShapeError::ZeroControlDim)
        } else if !q.square_of(state_dim) {
            Err(ShapeError::StateCost { shape: q })
        } else if !qf.square_of(state_dim) {
            Err(ShapeError::TerminalCost { shape: qf })
        } else if !r.square_of(control_dim) {
            Err(ShapeError::ControlCost { shape: r })
        } else {
            Ok(Dims { state_dim, control_dim })
        }
    }

    /// Checks that the initial state and the target both have `n` entries; the
    /// initial state is checked first.
    pub fn check_endpoints(&self, x0_len: usize, target_len: usize) -> (res: Result<(), ShapeError>)
        ensures
            x0_len != self.state_dim ==> res == Err::<(), ShapeError>(
                ShapeError::InitialState { len: x0_len },
            ),
            x0_len == self.state_dim && target_len != self.state_dim ==> res == Err::<
                (),
                ShapeError,
            >(ShapeError::Target { len: target_len }),
            res is Ok <==> (x0_len == self.state_dim && target_len == self.state_dim),
    {
        if x0_len != self.state_dim {
            Err(ShapeError::InitialState { len: x0_len })
        } else if target_len != self.state_dim {
            Err(ShapeError::Target { len: target_len })
        } else {
            Ok(())
        }
    }

    /// Checks that a state returned by the dynamics has `n` entries.
    pub fn check_dynamics_output(&self, len: usize) -> (res: Result<(), ShapeError>)
        ensures
            res is Ok <==> len == self.state_dim,
            len != self.state_dim ==> res == Err::<(), ShapeError>(
                ShapeError::DynamicsOutput { len },
            ),
    {
        if len == self.state_dim {
            Ok(())
        } else {
            Err(ShapeError::DynamicsOutput { len })
        }
    }
}

} // verus!
