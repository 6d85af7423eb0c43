use vstd::prelude::*;

verus! {

/// Consecutive failed attempts (a failed linear solve or a rejected step)
/// after which a fit stops.
pub const MAX_RETRIES: usize = 10;

/// Bound on the damping exponent in either direction.
pub const DAMPING_EXP_LIMIT: i32 = 30;

/// The state of a fit.
#[derive(Clone, Copy, Debug, PartialEq, Eq, Structural)]
pub enum FitStatus {
    Iterating,
    /// The decrease of chi-square between accepted steps fell below the
    /// tolerance, or there was no free parameter to vary.
    Converged,
    MaxIterationsReached,
    /// The accepted step was below the step tolerance, or no step lowered
    /// chi-square after the allowed retries.
    Stalled,
    /// The normal equations could not be solved after the allowed retries.
    LinearSolveFailed,
}

/// What became of one attempted step, as the numeric side judged it.
#[derive(Clone, Copy, Debug, PartialEq, Eq, Structural)]
pub enum StepOutcome {
    /// The damped normal equations were singular; nothing was evaluated.
    SolveFailed,
    /// The trial parameters were evaluated and chi-square rose or was not
    /// finite.
    Rejected,
    /// The trial parameters were evaluated and chi-square fell; `converged`
    /// tells whether the decrease was below the tolerance, `small_step`
    /// whether the step was below the step tolerance.
    Accepted { converged: bool, small_step: bool },
}

/// The decisions of a Levenberg-Marquardt fit. The damping factor is the
/// seed times ten to the power `damping_exp`.
#[derive(Clone, Copy, Debug, PartialEq, Eq, Structural)]
pub struct Controller {
    pub status: FitStatus,
    pub n_free: usize,
    pub max_iterations: usize,
    /// Accepted steps so far.
    pub iteration: usize,
    /// Failed attempts since the last accepted step.
    pub retries: usize,
    pub damping_exp: i32,
    /// Evaluations of the model function so far (saturating).
    pub evaluations: usize,
}

/// The damping exponent after a failed attempt.
pub open spec fn damp_up(k: i32) -> i32 {
    if k < DAMPING_EXP_LIMIT {
        (k + 1) as i32
    } else {
        k
    }
}

/// The damping exponent after an accepted step.
pub open spec fn damp_down(k: i32) -> i32 {
    if k > -DAMPING_EXP_LIMIT {
        (k - 1) as i32
    } else {
        k
    }
}

/// The status after an accepted step that brought the count of accepted
/// steps to `iteration`.
pub open spec fn status_after_accept(
    converged: bool,
    small_step: bool,
    iteration: nat,
    max_iterations: nat,
) -> FitStatus {
    if converged {
        FitStatus::Converged
    } else if small_step {
        FitStatus::Stalled
    } else if iteration >= max_iterations {
        FitStatus::MaxIterationsReached
    } else {
        FitStatus::Iterating
    }
}

/// The convergence message of each status.
pub open spec fn message_of(s: FitStatus) -> Seq<char> {
    match s {
        FitStatus::Iterating => "Fit in progress"@,
        FitStatus::Converged => "Converged: chi-square decrease below tolerance"@,
        FitStatus::MaxIterationsReached => "Stopped: maximum number of iterations reached"@,
        FitStatus::Stalled => "Stopped: step size below tolerance or no improving step"@,
        FitStatus::LinearSolveFailed => "Stopped: normal equations could not be solved"@,
    }
}

impl FitStatus {
    /// The human-readable convergence message of this status.
    pub fn message(&self) -> (r: &'static str)
        ensures
            r@ == message_of(*self),
    {
        match self {
            FitStatus::Iterating => "Fit in progress",
            FitStatus::Converged => "Converged: chi-square decrease below tolerance",
            FitStatus::MaxIterationsReached => "Stopped: maximum number of iterations reached",
            FitStatus::Stalled => "Stopped: step size below tolerance or no improving step",
            FitStatus::LinearSolveFailed => "Stopped: normal equations could not be solved",
        }
    }
}

impl Controller {
    /// The bounds that every state of a fit keeps.
    pub open spec fn wf(&self) -> bool {
        &&& self.iteration <= self.max_iterations
        &&& self.retries <= MAX_RETRIES
        &&& -DAMPING_EXP_LIMIT <= self.damping_exp <= DAMPING_EXP_LIMIT
        &&& self.status == FitStatus::Iterating ==> self.iteration < self.max_iterations
            && self.retries < MAX_RETRIES
    }

    /// How much work is left at most: each attempt while iterating lowers it.
    pub open spec fn budget(&self) -> nat {
        ((self.max_iterations - self.iteration) * (MAX_RETRIES + 1) + (MAX_RETRIES
            - self.retries)) as nat
    }

    /// The state after `e`.
    pub open spec fn next(&self, e: StepOutcome) -> Controller {
        match e {
            StepOutcome::SolveFailed => Controller {
                status: if self.retries + 1 >= MAX_RETRIES {
                    FitStatus::LinearSolveFailed
                } else {
                    FitStatus::Iterating
                },
                retries: (self.retries + 1) as usize,
                damping_exp: damp_up(self.damping_exp),
                ..*self
            },
            StepOutcome::Rejected => Controller {
                status: if self.retries + 1 >= MAX_RETRIES {
                    FitStatus::Stalled
                } else {
                    FitStatus::Iterating
                },
                retries: (self.retries + 1) as usize,
                damping_exp: damp_up(self.damping_exp),
                evaluations: self.evaluations.saturating_add(1),
                ..*self
            },
            StepOutcome::Accepted { converged, small_step } => Controller {
                status: status_after_accept(
                    converged,
                    small_step,
                    (self.iteration + 1) as nat,
                    self.max_iterations as nat,
                ),
                iteration: (self.iteration + 1) as usize,
                retries: 0,
                damping_exp: damp_down(self.damping_exp),
                evaluations: self.evaluations.saturating_add(1).saturating_add(self.n_free),
                ..*self
            },
        }
    }

    /// Starts a fit of `n_free` free parameters with at most
    /// `max_iterations` accepted steps. The initial evaluation and the first
    /// Jacobian are counted. With no free parameter the fit is a plain
    /// evaluation and is converged at once.
    pub fn new(n_free: usize, max_iterations: usize) -> (r: Controller)
        ensures
            r.wf(),
            r.n_free == n_free,
            r.max_iterations == max_iterations,
            r.iteration == 0,
            r.retries == 0,
            r.damping_exp == 0,
            r.evaluations == 1usize.saturating_add(n_free),
            r.status == if n_free == 0 {
                FitStatus::Converged
            } else if max_iterations == 0 {
                FitStatus::MaxIterationsReached
            } else {
                FitStatus::Iterating
            },
    {
        let status = if n_free == 0 {
            FitStatus::Converged
        } else if max_iterations == 0 {
            FitStatus::MaxIterationsReached
        } else {
            FitStatus::Iterating
        };
        Controller {
            status,
            n_free,
            max_iterations,
            iteration: 0,
            retries: 0,
            damping_exp: 0,
            evaluations: 1usize.saturating_add(n_free),
        }
    }

    /// Whether the fit has reached one of its terminal states.
    pub fn is_finished(&self) -> (r: bool)
        ensures
            r == (self.status != FitStatus::Iterating),
    {
        self.status != FitStatus::Iterating
    }

    /// Records the outcome of one attempted step: a failed solve or a
    /// rejected step raises the damping and counts a retry, an accepted one
    /// lowers the damping, counts an iteration and clears the retries.
    pub fn step(&mut self, e: StepOutcome)
        requires
            old(self).wf(),
            old(self).status == FitStatus::Iterating,
        ensures
            *final(self) == old(self).next(e),
            final(self).wf(),
            final(self).status == FitStatus::Iterating ==> final(self).budget() < old(self).budget(),
    {
        let ghost o = *self;
        let k = self.damping_exp;
        match e {
            StepOutcome::SolveFailed => {
                self.retries = self.retries + 1;
                self.damping_exp = if k < DAMPING_EXP_LIMIT { k + 1 } else { k };
                if self.retries >= MAX_RETRIES {
                    self.status = FitStatus::LinearSolveFailed;
                }
            },
            StepOutcome::Rejected => {
                self.retries = self.retries + 1;
                self.damping_exp = if k < DAMPING_EXP_LIMIT { k + 1 } else { k };
                self.evaluations = self.evaluations.saturating_add(1);
                if self.retries >= MAX_RETRIES {
                    self.status = FitStatus::Stalled;
                }
            },
            StepOutcome::Accepted { converged, small_step } => {
                self.iteration = self.iteration + 1;
                self.retries = 0;
                self.damping_exp = if k > -DAMPING_EXP_LIMIT { k - 1 } else { k };
                self.evaluations = self.evaluations.saturating_add(1).saturating_add(self.n_free);
                self.status = if converged {
                    FitStatus::Converged
                } else if small_step {
                    FitStatus::Stalled
                } else if self.iteration >= self.max_iterations {
                    FitStatus::MaxIterationsReached
                } else {
                    FitStatus::Iterating
                };
            },
        }
        proof {
            lemma_fit_terminates(o, e);
        }
    }

    /// The convergence message of the current state.
    pub fn convergence_message(&self) -> (r: &'static str)
        ensures
            r@ == message_of(self.status),
    {
        self.status.message()
    }
}

/// Every attempt while a fit is iterating either ends the fit or lowers its
/// remaining budget, so every fit reaches a terminal state.
pub proof fn lemma_fit_terminates(c: Controller, e: StepOutcome)
    requires
        c.wf(),
        c.status == FitStatus::Iterating,
    ensures
        c.next(e).wf(),
        c.next(e).status == FitStatus::Iterating ==> c.next(e).budget() < c.budget(),
{
    if c.next(e).status == FitStatus::Iterating {
        match e {
            StepOutcome::Accepted { .. } => {
                let d: int = c.max_iterations - c.iteration;
                assert((d - 1) * (MAX_RETRIES + 1) + MAX_RETRIES < d * (MAX_RETRIES + 1) + (
                    MAX_RETRIES - c.retries));
            },
            _ => {},
        }
    }
}

} // verus!
