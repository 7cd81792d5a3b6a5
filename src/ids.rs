use vstd::prelude::*;

verus! {

/// The largest group id, `i64::MAX`.
pub const MAX_GROUP_ID: u64 = 9223372036854775807;

/// Whether `v` lies in the id space `[1, 2^63 - 1]`.
pub open spec fn is_group_id(v: int) -> bool {
    1 <= v <= MAX_GROUP_ID as int
}

/// A group id: a positive integer below `2^63`.
#[derive(Clone, Copy, Debug, PartialEq, Eq, Structural, Hash, PartialOrd, Ord)]
pub struct Id {
    value: u64,
}

impl View for Id {
    type V = int;

    closed spec fn view(&self) -> int {
        self.value as int
    }
}

/// Two ids are equal exactly when their values are.
pub broadcast proof fn lemma_id_eq(a: Id, b: Id)
    ensures
        #![trigger a@, b@]
        (a@ == b@) <==> a == b,
{
}

impl Id {
    #[verifier::type_invariant]
    spec fn in_range(self) -> bool {
        is_group_id(self.value as int)
    }

    /// The id `value`, or `None` where it lies outside the id space.
    pub fn new(value: u64) -> (r: Option<Id>)
        ensures
            r is Some <==> is_group_id(value as int),
            r matches Some(id) ==> id@ == value as int,
    {
        if 1 <= value && value <= MAX_GROUP_ID {
            Some(Id { value })
        } else {
            None
        }
    }

    /// The id with value `value`, which the caller knows to be in range.
    pub fn from_value(value: u64) -> (r: Id)
        requires
            is_group_id(value as int),
        ensures
            r@ == value as int,
    {
        Id { value }
    }

    /// The smallest id, 1.
    pub fn min_id() -> (r: Id)
        ensures
            r@ == 1,
    {
        Id { value: 1 }
    }

    /// The largest id, `2^63 - 1`.
    pub fn max_id() -> (r: Id)
        ensures
            r@ == MAX_GROUP_ID as int,
    {
        Id { value: MAX_GROUP_ID }
    }

    /// The value of the id; it always lies in the id space, as the type's
    /// invariant keeps it there from every constructor on.
    pub fn get(&self) -> (r: u64)
        ensures
            r as int == self@,
            is_group_id(r as int),
    {
        proof {
            use_type_invariant(self);
        }
        self.value
    }
}

} // verus!
