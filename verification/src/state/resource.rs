use crate::identity::Id;
use vstd::prelude::*;

verus! {

/// The most inputs a recipe can ask for.
pub const INPUT_MAX_SIZE: usize = 2;

/// A named resource with the recipe that makes it: the resources that one
/// unit of output consumes, and how much of each.
///
/// `input_amount[i]` is the amount of `input[i]` per unit of output.
#[derive(Clone, Debug, PartialEq, Eq)]
pub struct Resource {
    pub owner: Id,
    pub name: String,
    pub input: Vec<Id>,
    pub input_amount: Vec<i64>,
}

/// A resource as a mathematical value.
pub struct ResourceView {
    pub owner: Id,
    pub name: Seq<char>,
    pub input: Seq<Id>,
    pub input_amount: Seq<i64>,
}

impl View for Resource {
    type V = ResourceView;

    open spec fn view(&self) -> ResourceView {
        ResourceView {
            owner: self.owner,
            name: self.name@,
            input: self.input@,
            input_amount: self.input_amount@,
        }
    }
}

impl ResourceView {
    /// Every input has its amount, and there are no more inputs than a
    /// recipe can ask for.
    pub open spec fn wf(self) -> bool {
        &&& self.input.len() == self.input_amount.len()
        &&& self.input.len() <= INPUT_MAX_SIZE
    }
}

impl Resource {
    /// The first position of the recipe that asks for `resource_id`.
    pub fn input_position(&self, resource_id: Id) -> (r: Option<usize>)
        ensures
            match r {
                Some(index) => self@.input.index_of_first(resource_id) == Some(index as int),
                None => self@.input.index_of_first(resource_id) is None,
            },
    {
        let mut index: usize = 0;
        while index < self.input.len()
            invariant
                index <= self.input.len(),
                forall|j: int| 0 <= j < index ==> self.input@[j] != resource_id,
            decreases self.input.len() - index,
        {
            if self.input[index] == resource_id {
                proof {
                    self.input@.index_of_first_ensures(resource_id);
                }
                return Some(index);
            }
            index = index + 1;
        }
        proof {
            self.input@.index_of_first_ensures(resource_id);
        }
        None
    }
}

} // verus!
