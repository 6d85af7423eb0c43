use vstd::prelude::*;
use crate::registry::ModelKind;
use crate::validate::InvalidArgument;
use crate::result::copy_values;

verus! {

/// A model function bound to a parameter vector and a domain, over the
/// number type `T`. The domain and the length of the parameter vector stay
/// fixed; only the parameter values change.
pub struct ParametricModel<T> {
    kind: ModelKind,
    parameters: Vec<T>,
    domain: Vec<T>,
}

impl<T: Copy> ParametricModel<T> {
    pub closed spec fn spec_kind(&self) -> ModelKind {
        self.kind
    }

    pub closed spec fn spec_parameters(&self) -> Seq<T> {
        self.parameters@
    }

    pub closed spec fn spec_domain(&self) -> Seq<T> {
        self.domain@
    }

    pub fn new(kind: ModelKind, parameters: Vec<T>, domain: Vec<T>) -> (r: ParametricModel<T>)
        ensures
            r.spec_kind() == kind,
            r.spec_parameters() == parameters@,
            r.spec_domain() == domain@,
    {
        ParametricModel { kind, parameters, domain }
    }

    pub fn kind(&self) -> (r: ModelKind)
        ensures
            r == self.spec_kind(),
    {
        self.kind
    }

    pub fn parameters(&self) -> (r: Vec<T>)
        ensures
            r@ == self.spec_parameters(),
    {
        copy_values(&self.parameters)
    }

    pub fn domain(&self) -> (r: Vec<T>)
        ensures
            r@ == self.spec_domain(),
    {
        copy_values(&self.domain)
    }

    /// Replaces the parameter values; a vector of another length is
    /// rejected and leaves the model as it was.
    pub fn set_parameters(&mut self, new: Vec<T>) -> (r: Result<(), InvalidArgument>)
        ensures
            final(self).spec_kind() == old(self).spec_kind(),
            final(self).spec_domain() == old(self).spec_domain(),
            new@.len() == old(self).spec_parameters().len() ==> r is Ok
                && final(self).spec_parameters() == new@,
            new@.len() != old(self).spec_parameters().len() ==> r == Err::<(), InvalidArgument>(
                InvalidArgument::ParameterLength,
            ) && final(self).spec_parameters() == old(self).spec_parameters(),
    {
        if new.len() == self.parameters.len() {
            self.parameters = new;
            Ok(())
        } else {
            Err(InvalidArgument::ParameterLength)
        }
    }
}

} // verus!
