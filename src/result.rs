use vstd::prelude::*;
use crate::control::{Controller, message_of};

verus! {

/// An element-by-element copy of `v`.
pub fn copy_values<T: Copy>(v: &Vec<T>) -> (r: Vec<T>)
    ensures
        r@ == v@,
{
    let mut r: Vec<T> = Vec::new();
    let mut i: usize = 0;
    while i < v.len()
        invariant
            i <= v.len(),
            r@ =~= v@.take(i as int),
        decreases v.len() - i,
    {
        r.push(v[i]);
        i = i + 1;
    }
    assert(r@ =~= v@);
    r
}

/// What a finished fit produced, over the number type `T`: the final
/// parameters, their standard errors, the fitted curve, the count of model
/// evaluations, chi-square, reduced chi-square, R-squared and the
/// convergence message.
#[allow(non_snake_case)]
pub struct FitResult<T> {
    parameters: Vec<T>,
    parameter_std_errors: Vec<T>,
    fitted_model: Vec<T>,
    num_func_evaluation: usize,
    chi2: T,
    redchi2: T,
    R2: T,
    convergence_message: String,
}

#[allow(non_snake_case)]
impl<T: Copy> FitResult<T> {
    pub closed spec fn spec_parameters(&self) -> Seq<T> {
        self.parameters@
    }

    pub closed spec fn spec_parameter_std_errors(&self) -> Seq<T> {
        self.parameter_std_errors@
    }

    pub closed spec fn spec_fitted_model(&self) -> Seq<T> {
        self.fitted_model@
    }

    pub closed spec fn spec_num_func_evaluation(&self) -> usize {
        self.num_func_evaluation
    }

    pub closed spec fn spec_chi2(&self) -> T {
        self.chi2
    }

    pub closed spec fn spec_redchi2(&self) -> T {
        self.redchi2
    }

    pub closed spec fn spec_r2(&self) -> T {
        self.R2
    }

    pub closed spec fn spec_convergence_message(&self) -> Seq<char> {
        self.convergence_message@
    }

    /// One standard error per parameter.
    pub open spec fn wf(&self) -> bool {
        self.spec_parameter_std_errors().len() == self.spec_parameters().len()
    }

    /// Takes the final numbers of a fit, and the evaluation count and the
    /// convergence message from the state that the fit ended in.
    pub fn assemble(
        parameters: Vec<T>,
        parameter_std_errors: Vec<T>,
        fitted_model: Vec<T>,
        chi2: T,
        redchi2: T,
        r2: T,
        control: &Controller,
    ) -> (r: FitResult<T>)
        requires
            parameter_std_errors.len() == parameters.len(),
        ensures
            r.wf(),
            r.spec_parameters() == parameters@,
            r.spec_parameter_std_errors() == parameter_std_errors@,
            r.spec_fitted_model() == fitted_model@,
            r.spec_num_func_evaluation() == control.evaluations,
            r.spec_chi2() == chi2,
            r.spec_redchi2() == redchi2,
            r.spec_r2() == r2,
            r.spec_convergence_message() == message_of(control.status),
    {
        let message = control.convergence_message();
        FitResult {
            parameters,
            parameter_std_errors,
            fitted_model,
            num_func_evaluation: control.evaluations,
            chi2,
            redchi2,
            R2: r2,
            convergence_message: message.to_owned(),
        }
    }

    pub fn parameters(&self) -> (r: Vec<T>)
        ensures
            r@ == self.spec_parameters(),
    {
        copy_values(&self.parameters)
    }

    pub fn parameter_std_errors(&self) -> (r: Vec<T>)
        ensures
            r@ == self.spec_parameter_std_errors(),
    {
        copy_values(&self.parameter_std_errors)
    }

    pub fn fitted_model(&self) -> (r: Vec<T>)
        ensures
            r@ == self.spec_fitted_model(),
    {
        copy_values(&self.fitted_model)
    }

    pub fn num_func_evaluation(&self) -> (r: usize)
        ensures
            r == self.spec_num_func_evaluation(),
    {
        self.num_func_evaluation
    }

    pub fn chi2(&self) -> (r: T)
        ensures
            r == self.spec_chi2(),
    {
        self.chi2
    }

    pub fn redchi2(&self) -> (r: T)
        ensures
            r == self.spec_redchi2(),
    {
        self.redchi2
    }

    pub fn R2(&self) -> (r: T)
        ensures
            r == self.spec_r2(),
    {
        self.R2
    }

    pub fn convergence_message(&self) -> (r: String)
        ensures
            r@ == self.spec_convergence_message(),
    {
        self.convergence_message.clone()
    }
}

} // verus!
