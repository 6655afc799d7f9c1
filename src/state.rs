use crate::data::ZFData;
use crate::error::{ZFError, ZFResult};
use vstd::prelude::*;

verus! {

/// A unit's persistent state, kept by the tag of its concrete type and its encoding.
#[derive(Debug)]
pub struct ZFState {
    pub type_tag: String,
    pub value: Vec<u8>,
}

/// What a unit's downcast of its state gives for an expected type tag: the
/// stored bytes where the tags agree, a state error otherwise.
pub open spec fn downcast_result(state_tag: Seq<char>, value: Seq<u8>, expected: Seq<char>) -> Result<
    Seq<u8>,
    ZFError,
> {
    if state_tag == expected {
        Ok(value)
    } else {
        Err(ZFError::InvalidState)
    }
}

impl ZFState {
    pub fn new(type_tag: String, value: Vec<u8>) -> (r: ZFState)
        ensures
            r.type_tag == type_tag,
            r.value == value,
    {
        ZFState { type_tag, value }
    }

    /// Builds the state of a value that describes itself.
    pub fn of<S: StateTrait>(s: &S) -> (r: ZFState)
        ensures
            r.type_tag@ == s.spec_state_type(),
            r.value@ == s.spec_state_bytes(),
    {
        ZFState { type_tag: s.state_type(), value: s.to_bytes() }
    }

    /// The state's bytes, provided it holds the type named `expected`.
    pub fn downcast(&self, expected: &str) -> (r: ZFResult<&Vec<u8>>)
        ensures
            match downcast_result(self.type_tag@, self.value@, expected@) {
                Ok(v) => r is Ok && r->Ok_0@ == v,
                Err(e) => r == Err::<&Vec<u8>, ZFError>(e),
            },
    {
        let expected_tag = expected.to_owned();
        if self.type_tag == expected_tag {
            Ok(&self.value)
        } else {
            Err(ZFError::InvalidState)
        }
    }
}

/// A stored state, downcast with the tag it was stored under, gives back the
/// bytes that were stored; downcast with another tag it fails with a state
/// error and gives nothing.
pub proof fn lemma_state_round_trip(tag: Seq<char>, value: Seq<u8>, other: Seq<char>)
    ensures
        downcast_result(tag, value, tag) == Ok::<Seq<u8>, ZFError>(value),
        other != tag ==> downcast_result(tag, value, other) == Err::<Seq<u8>, ZFError>(
            ZFError::InvalidState,
        ),
{
}

/// A value that can stand as a unit's state: it names its type and encodes itself.
pub trait StateTrait {
    /// The name of the value's type.
    spec fn spec_state_type(&self) -> Seq<char>;

    /// The value's encoding.
    spec fn spec_state_bytes(&self) -> Seq<u8>;

    fn state_type(&self) -> (r: String)
        ensures
            r@ == self.spec_state_type(),
    ;

    fn to_bytes(&self) -> (r: Vec<u8>)
        ensures
            r@ == self.spec_state_bytes(),
    ;
}

/// A payload value that names its type and encodes itself.
pub trait DataTrait {
    /// The name of the value's type.
    spec fn spec_data_type(&self) -> Seq<char>;

    /// The value's encoding.
    spec fn spec_data_bytes(&self) -> Seq<u8>;

    fn data_type(&self) -> (r: String)
        ensures
            r@ == self.spec_data_type(),
    ;

    fn to_bytes(&self) -> (r: Vec<u8>)
        ensures
            r@ == self.spec_data_bytes(),
    ;
}

impl ZFData {
    /// Builds the payload of a value that describes itself.
    pub fn of<D: DataTrait>(d: &D) -> (r: ZFData)
        ensures
            r.type_tag@ == d.spec_data_type(),
            r.value@ == d.spec_data_bytes(),
    {
        ZFData { type_tag: d.data_type(), value: d.to_bytes() }
    }
}

/// The state of a unit that keeps none.
#[derive(Debug, Clone, Copy)]
pub struct EmptyState;

impl StateTrait for EmptyState {
    open spec fn spec_state_type(&self) -> Seq<char> {
        "EmptyState"@
    }

    open spec fn spec_state_bytes(&self) -> Seq<u8> {
        Seq::empty()
    }

    fn state_type(&self) -> (r: String) {
        let r = "EmptyState".to_string();
        proof {
            reveal_strlit("EmptyState");
        }
        r
    }

    fn to_bytes(&self) -> (r: Vec<u8>) {
        Vec::new()
    }
}

/// A unit's execution mode, kept as a number; what the numbers mean is left
/// to the units.
pub trait OperatorMode: Into<usize> + From<usize> {

}

} // verus!
