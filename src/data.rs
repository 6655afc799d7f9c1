use vstd::prelude::*;

verus! {

#[verifier::external_type_specification]
#[verifier::external_body]
pub struct ExHlcId(uhlc::ID);

/// A hybrid-logical-clock timestamp: a time in the clock's native 64-bit
/// fixed-point resolution, paired with the identity of the clock that made it.
#[derive(Debug, Clone, Copy)]
pub struct HlcTimestamp {
    pub time: u64,
    pub id: uhlc::ID,
}

/// A payload whose concrete type is known only by its tag: the tag names the
/// type, the bytes hold its encoding.
#[derive(Debug)]
pub struct ZFData {
    pub type_tag: String,
    pub value: Vec<u8>,
}

impl View for ZFData {
    type V = (Seq<char>, Seq<u8>);

    open spec fn view(&self) -> (Seq<char>, Seq<u8>) {
        (self.type_tag@, self.value@)
    }
}

/// Copies a byte buffer.
pub fn copy_bytes(b: &Vec<u8>) -> (r: Vec<u8>)
    ensures
        r@ == b@,
{
    let mut r: Vec<u8> = Vec::with_capacity(b.len());
    let mut i: usize = 0;
    while i < b.len()
        invariant
            i <= b@.len(),
            r@ == b@.subrange(0, i as int),
        decreases b@.len() - i,
    {
        r.push(b[i]);
        i = i + 1;
    }
    assert(r@ =~= b@);
    r
}

impl ZFData {
    pub fn new(type_tag: String, value: Vec<u8>) -> (r: ZFData)
        ensures
            r.type_tag == type_tag,
            r.value == value,
    {
        ZFData { type_tag, value }
    }

    /// A copy of this payload, with the same tag and bytes.
    pub fn duplicate(&self) -> (r: ZFData)
        ensures
            r@ == self@,
    {
        ZFData { type_tag: self.type_tag.clone(), value: copy_bytes(&self.value) }
    }
}

/// A message carrying data: a payload and the time it was stamped with.
#[derive(Debug)]
pub struct ZFDataMessage {
    pub data: ZFData,
    pub timestamp: HlcTimestamp,
}

impl ZFDataMessage {
    pub fn new(data: ZFData, timestamp: HlcTimestamp) -> (r: ZFDataMessage)
        ensures
            r.data == data,
            r.timestamp == timestamp,
    {
        ZFDataMessage { data, timestamp }
    }

    /// A copy of this message: the same payload and the same timestamp.
    pub fn duplicate(&self) -> (r: ZFDataMessage)
        ensures
            r.data@ == self.data@,
            r.timestamp == self.timestamp,
    {
        ZFDataMessage { data: self.data.duplicate(), timestamp: self.timestamp }
    }
}

/// Signalling between runtimes; never shown to a unit's own logic.
#[derive(Debug)]
pub struct ZFControlMessage {
    pub signal: String,
}

/// A message as the transport hands it over.
#[derive(Debug)]
pub enum ZFMessage {
    Control(ZFControlMessage),
    Data(ZFDataMessage),
}

} // verus!
