//! What every request has: a model, and perhaps parameters.

use vstd::prelude::*;

verus! {

/// A request to a model. The checks that are made before a request is sent
/// read it through this trait.
pub trait RequestTrait {
    /// The type of the parameters.
    type P;

    /// The name of the model.
    spec fn model_text(&self) -> Seq<char>;

    /// The parameters, where the request has any.
    spec fn shared_parameters(&self) -> Option<Self::P>;

    /// The name of the model that the request is for.
    fn model(&self) -> (r: &str)
        ensures
            r@ == self.model_text(),
    ;

    /// The parameters of the request, where it has any.
    fn parameters(&self) -> (r: Option<&Self::P>)
        ensures
            match r {
                Some(p) => self.shared_parameters() == Some(*p),
                None => self.shared_parameters() is None,
            },
    ;
}

} // verus!
