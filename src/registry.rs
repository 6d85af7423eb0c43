use vstd::prelude::*;

verus! {

/// The model functions that a name can resolve to.
#[derive(Clone, Copy, Debug, PartialEq, Eq, Structural)]
pub enum ModelKind {
    Linear,
    Parabola,
    Sqrt,
    Cos,
    Sin,
    Tan,
    Exp,
    Gaussian,
    SasSphere,
    SasCube,
    /// The constant-zero function, which every unregistered name resolves to.
    Zero,
}

/// Whether `name` is one of the registered model names.
pub open spec fn is_registered(name: Seq<char>) -> bool {
    name == "linear"@ || name == "parabola"@ || name == "sqrt"@ || name == "cos"@
        || name == "sin"@ || name == "tan"@ || name == "exp"@ || name == "gaussian"@
        || name == "sas_sphere"@ || name == "sas_cube"@
}

/// The model that `name` resolves to.
pub open spec fn model_of(name: Seq<char>) -> ModelKind {
    if name == "linear"@ {
        ModelKind::Linear
    } else if name == "parabola"@ {
        ModelKind::Parabola
    } else if name == "sqrt"@ {
        ModelKind::Sqrt
    } else if name == "cos"@ {
        ModelKind::Cos
    } else if name == "sin"@ {
        ModelKind::Sin
    } else if name == "tan"@ {
        ModelKind::Tan
    } else if name == "exp"@ {
        ModelKind::Exp
    } else if name == "gaussian"@ {
        ModelKind::Gaussian
    } else if name == "sas_sphere"@ {
        ModelKind::SasSphere
    } else if name == "sas_cube"@ {
        ModelKind::SasCube
    } else {
        ModelKind::Zero
    }
}

fn same_text(a: &str, b: &str) -> (r: bool)
    ensures
        r == (a@ == b@),
{
    a.to_owned() == b.to_owned()
}

/// Resolves a model name; every name that is not registered resolves to
/// the constant-zero function.
pub fn get_function(function_name: &str) -> (r: ModelKind)
    ensures
        r == model_of(function_name@),
{
    if same_text(function_name, "linear") {
        ModelKind::Linear
    } else if same_text(function_name, "parabola") {
        ModelKind::Parabola
    } else if same_text(function_name, "sqrt") {
        ModelKind::Sqrt
    } else if same_text(function_name, "cos") {
        ModelKind::Cos
    } else if same_text(function_name, "sin") {
        ModelKind::Sin
    } else if same_text(function_name, "tan") {
        ModelKind::Tan
    } else if same_text(function_name, "exp") {
        ModelKind::Exp
    } else if same_text(function_name, "gaussian") {
        ModelKind::Gaussian
    } else if same_text(function_name, "sas_sphere") {
        ModelKind::SasSphere
    } else if same_text(function_name, "sas_cube") {
        ModelKind::SasCube
    } else {
        ModelKind::Zero
    }
}

/// An unregistered name resolves to the constant-zero function, and a
/// registered one never does.
pub proof fn lemma_unregistered_is_zero(name: Seq<char>)
    ensures
        !is_registered(name) ==> model_of(name) == ModelKind::Zero,
        is_registered(name) ==> model_of(name) != ModelKind::Zero,
{
}

} // verus!
