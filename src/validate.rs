use vstd::prelude::*;
use crate::mask::{num_free, count_free};

verus! {

/// Why the inputs of a fit were rejected before any iteration ran.
#[derive(Clone, Copy, Debug, PartialEq, Eq, Structural)]
pub enum InvalidArgument {
    /// The vary mask has not one entry per parameter.
    MaskLength,
    /// The domain holds no point.
    EmptyDomain,
    /// The observed values are not one per domain point.
    ObservationLength,
    /// The uncertainties are not one per domain point.
    UncertaintyLength,
    /// Some uncertainty is zero, negative or not a number.
    UncertaintyNotPositive,
    /// A new parameter vector differs in length from the current one.
    ParameterLength,
}

/// The description of each input error.
pub open spec fn describe_of(e: InvalidArgument) -> Seq<char> {
    match e {
        InvalidArgument::MaskLength => "invalid argument: vary mask length differs from parameter count"@,
        InvalidArgument::EmptyDomain => "invalid argument: empty domain"@,
        InvalidArgument::ObservationLength => "invalid argument: observed values differ in length from domain"@,
        InvalidArgument::UncertaintyLength => "invalid argument: uncertainties differ in length from domain"@,
        InvalidArgument::UncertaintyNotPositive => "invalid argument: uncertainties must be positive"@,
        InvalidArgument::ParameterLength => "invalid argument: parameter vector length changed"@,
    }
}

impl InvalidArgument {
    /// A human-readable description of the error.
    pub fn describe(&self) -> (r: &'static str)
        ensures
            r@ == describe_of(*self),
    {
        match self {
            InvalidArgument::MaskLength => "invalid argument: vary mask length differs from parameter count",
            InvalidArgument::EmptyDomain => "invalid argument: empty domain",
            InvalidArgument::ObservationLength => "invalid argument: observed values differ in length from domain",
            InvalidArgument::UncertaintyLength => "invalid argument: uncertainties differ in length from domain",
            InvalidArgument::UncertaintyNotPositive => "invalid argument: uncertainties must be positive",
            InvalidArgument::ParameterLength => "invalid argument: parameter vector length changed",
        }
    }
}

/// The sizes of a fit whose inputs were accepted.
#[derive(Clone, Copy, Debug, PartialEq, Eq, Structural)]
pub struct FitLayout {
    pub n_params: usize,
    pub n_points: usize,
    pub n_free: usize,
}

/// The first problem found with the inputs of a fit, checked in the order
/// of the first five variants of `InvalidArgument`; `None` when there is none.
pub open spec fn input_error(
    n_params: nat,
    vary: Seq<bool>,
    n_x: nat,
    n_y: nat,
    sy_positive: Seq<bool>,
) -> Option<InvalidArgument> {
    if vary.len() != n_params {
        Some(InvalidArgument::MaskLength)
    } else if n_x == 0 {
        Some(InvalidArgument::EmptyDomain)
    } else if n_y != n_x {
        Some(InvalidArgument::ObservationLength)
    } else if sy_positive.len() != n_x {
        Some(InvalidArgument::UncertaintyLength)
    } else if exists|i: int| 0 <= i < sy_positive.len() && !#[trigger] sy_positive[i] {
        Some(InvalidArgument::UncertaintyNotPositive)
    } else {
        None
    }
}

fn all_true(v: &Vec<bool>) -> (r: bool)
    ensures
        r == (forall|i: int| 0 <= i < v.len() ==> #[trigger] v@[i]),
{
    let mut i: usize = 0;
    while i < v.len()
        invariant
            i <= v.len(),
            forall|j: int| 0 <= j < i ==> #[trigger] v@[j],
        decreases v.len() - i,
    {
        if !v[i] {
            return false;
        }
        i = i + 1;
    }
    true
}

/// Checks the shapes of a fit's inputs: `n_params` parameters, the vary
/// mask, `n_x` domain points, `n_y` observed values, and for each
/// uncertainty whether it is positive.
pub fn validate_fit_input(
    n_params: usize,
    vary: &Vec<bool>,
    n_x: usize,
    n_y: usize,
    sy_positive: &Vec<bool>,
) -> (r: Result<FitLayout, InvalidArgument>)
    ensures
        match input_error(n_params as nat, vary@, n_x as nat, n_y as nat, sy_positive@) {
            Some(e) => r == Err::<FitLayout, InvalidArgument>(e),
            None => r == Ok::<FitLayout, InvalidArgument>(
                FitLayout { n_params, n_points: n_x, n_free: num_free(vary@) as usize },
            ),
        },
{
    if vary.len() != n_params {
        Err(InvalidArgument::MaskLength)
    } else if n_x == 0 {
        Err(InvalidArgument::EmptyDomain)
    } else if n_y != n_x {
        Err(InvalidArgument::ObservationLength)
    } else if sy_positive.len() != n_x {
        Err(InvalidArgument::UncertaintyLength)
    } else if !all_true(sy_positive) {
        Err(InvalidArgument::UncertaintyNotPositive)
    } else {
        let n_free = count_free(vary);
        Ok(FitLayout { n_params, n_points: n_x, n_free })
    }
}

/// The degrees of freedom of a fit of `n_points` points with `n_free` free
/// parameters; `None` when there are none, so that the reduced chi-square is
/// reported as undefined.
pub fn degrees_of_freedom(n_points: usize, n_free: usize) -> (r: Option<usize>)
    ensures
        n_points > n_free ==> r == Some((n_points - n_free) as usize),
        n_points <= n_free ==> r.is_none(),
{
    if n_points > n_free {
        Some(n_points - n_free)
    } else {
        None
    }
}

/// A vary mask whose length differs from the number of parameters is
/// rejected, whatever the other inputs are.
pub proof fn lemma_mask_length_rejected(
    n_params: nat,
    vary: Seq<bool>,
    n_x: nat,
    n_y: nat,
    sy_positive: Seq<bool>,
)
    requires
        vary.len() != n_params,
    ensures
        input_error(n_params, vary, n_x, n_y, sy_positive) == Some(InvalidArgument::MaskLength),
{
}

} // verus!
