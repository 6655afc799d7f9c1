use crate::data::ZFDataMessage;
use crate::ports::{entry_found, entry_replaced, has_port, PortMap};
use vstd::prelude::*;

verus! {

/// The messages handed to a unit's run for one cycle, one per input port.
#[derive(Debug)]
pub struct ZFInput(pub PortMap<ZFDataMessage>);

impl View for ZFInput {
    type V = Seq<(Seq<char>, ZFDataMessage)>;

    open spec fn view(&self) -> Seq<(Seq<char>, ZFDataMessage)> {
        self.0@
    }
}

impl ZFInput {
    /// Port names are unique.
    pub open spec fn wf(&self) -> bool {
        self.0.wf()
    }

    pub fn new() -> (r: ZFInput)
        ensures
            r@ == Seq::<(Seq<char>, ZFDataMessage)>::empty(),
            r.wf(),
    {
        ZFInput(PortMap::new())
    }

    /// Sets the message of port `id`, handing back the one it replaces.
    pub fn insert(&mut self, id: String, data: ZFDataMessage) -> (r: Option<ZFDataMessage>)
        requires
            old(self).wf(),
        ensures
            final(self).wf(),
            match r {
                Some(v) => entry_replaced(old(self)@, final(self)@, id@, v, data),
                None => !has_port(old(self)@, id@) && final(self)@ == old(self)@.push((id@, data)),
            },
    {
        self.0.insert(id, data)
    }

    /// The message of port `id`.
    pub fn get(&self, id: &str) -> (r: Option<&ZFDataMessage>)
        ensures
            match r {
                Some(v) => entry_found(self@, id@, *v),
                None => !has_port(self@, id@),
            },
    {
        self.0.get(id)
    }

    /// The message of port `id`, to be changed in place.
    pub fn get_mut(&mut self, id: &str) -> (r: Option<&mut ZFDataMessage>)
        ensures
            final(self)@.len() == old(self)@.len(),
            match r {
                Some(v) => entry_replaced(old(self)@, final(self)@, id@, *v, *final(v)),
                None => !has_port(old(self)@, id@) && final(self)@ == old(self)@,
            },
    {
        self.0.get_mut(id)
    }

    /// The number of ports with a message.
    pub fn len(&self) -> (r: usize)
        ensures
            r == self@.len(),
    {
        self.0.len()
    }

    /// The port name and message at position `i`.
    pub fn entry_at(&self, i: usize) -> (r: (&String, &ZFDataMessage))
        requires
            i < self@.len(),
        ensures
            r.0@ == self@[i as int].0,
            *r.1 == self@[i as int].1,
    {
        (self.0.key_at(i), self.0.value_at(i))
    }
}

impl Default for ZFInput {
    fn default() -> (r: ZFInput)
        ensures
            r@ == Seq::<(Seq<char>, ZFDataMessage)>::empty(),
            r.wf(),
    {
        ZFInput::new()
    }
}

} // verus!
