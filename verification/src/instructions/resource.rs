use crate::errors::ValidationError;
use crate::identity::Id;
use crate::state::resource::Resource;
use crate::state::resource::ResourceView;
use crate::state::resource::INPUT_MAX_SIZE;
use vstd::prelude::*;

verus! {

/// Defines a resource and the recipe that makes it.
///
/// A recipe asks for at most `INPUT_MAX_SIZE` inputs, and every input
/// needs its amount.
pub fn init_resource(owner: Id, name: String, inputs: Vec<Id>, input_amounts: Vec<i64>) -> (r:
    Result<Resource, ValidationError>)
    ensures
        match r {
            Ok(resource) => {
                &&& resource@ == (ResourceView {
                    owner,
                    name: name@,
                    input: inputs@,
                    input_amount: input_amounts@,
                })
                &&& resource@.wf()
            },
            Err(e) => e == (if inputs@.len() > INPUT_MAX_SIZE {
                ValidationError::ResourceInputMax
            } else {
                ValidationError::MissingResourceInputAmount
            }),
        },
        r is Ok <==> inputs@.len() <= INPUT_MAX_SIZE && inputs@.len() == input_amounts@.len(),
{
    if inputs.len() > INPUT_MAX_SIZE {
        return Err(ValidationError::ResourceInputMax);
    }
    if inputs.len() != input_amounts.len() {
        return Err(ValidationError::MissingResourceInputAmount);
    }
    Ok(Resource { owner, name, input: inputs, input_amount: input_amounts })
}

} // verus!
