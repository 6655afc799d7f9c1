use crate::context::ZFContext;
use crate::data::{ZFControlMessage, ZFData};
use crate::error::ZFResult;
use crate::ports::{entries_view, keys_unique, PortMap};
use crate::token::Token;
use vstd::prelude::*;

verus! {

/// What a unit hands to the runtime on one output port.
#[derive(Debug)]
pub enum ZFComponentOutput {
    Data(ZFData),
    Control(ZFControlMessage),
}

/// Whether every port's token is ready.
pub open spec fn all_ready(tokens: Seq<(Seq<char>, Token)>) -> bool {
    forall|i: int| 0 <= i < tokens.len() ==> (#[trigger] tokens[i]).1 is Ready
}

/// Every produced value, wrapped as data for the same port.
pub open spec fn as_data_outputs(outputs: Seq<(Seq<char>, ZFData)>) -> Seq<
    (Seq<char>, ZFComponentOutput),
> {
    outputs.map_values(|e: (Seq<char>, ZFData)| (e.0, ZFComponentOutput::Data(e.1)))
}

/// The input rule of a unit with no rule of its own: ready when every input
/// port has a message, and every token left to be consumed.
pub fn default_input_rule(_ctx: ZFContext, inputs: &mut PortMap<Token>) -> (r: ZFResult<bool>)
    ensures
        final(inputs)@ == old(inputs)@,
        r == Ok::<bool, crate::error::ZFError>(all_ready(old(inputs)@)),
{
    let mut i: usize = 0;
    while i < inputs.len()
        invariant
            i <= inputs@.len(),
            forall|j: int| 0 <= j < i ==> (#[trigger] inputs@[j]).1 is Ready,
        decreases inputs@.len() - i,
    {
        match inputs.value_at(i) {
            Token::Ready(_) => {},
            Token::NotReady => {
                return Ok(false);
            },
        }
        i = i + 1;
    }
    Ok(true)
}

/// The output rule of a unit with no rule of its own: every produced value
/// goes out as data on its port.
pub fn default_output_rule(_ctx: ZFContext, outputs: PortMap<ZFData>) -> (r: ZFResult<
    PortMap<ZFComponentOutput>,
>)
    requires
        outputs.wf(),
    ensures
        r is Ok,
        r->Ok_0@ == as_data_outputs(outputs@),
        r->Ok_0.wf(),
{
    let ghost source = outputs@;
    let mut pending = outputs.into_entries();
    let mut results: Vec<(String, ZFComponentOutput)> = Vec::new();
    let ghost n = pending@.len();
    assert(entries_view(pending@) =~= source.subrange(0, n as int));
    assert(entries_view(results@) =~= as_data_outputs(source.subrange(0, 0)));
    while pending.len() > 0
        invariant
            n == source.len(),
            results@.len() + pending@.len() == n,
            entries_view(pending@) == source.subrange(n - pending@.len(), n as int),
            entries_view(results@) == as_data_outputs(source.subrange(0, results@.len() as int)),
        decreases pending@.len(),
    {
        let ghost k = results@.len();
        let ghost before = pending@;
        let ghost done = results@;
        assert(entries_view(before)[0] == source[k as int]);
        let (port, value) = pending.remove(0);
        assert(pending@ =~= before.subrange(1, before.len() as int));
        assert(source[k as int] == (port@, value));
        results.push((port, ZFComponentOutput::Data(value)));
        assert forall|j: int| 0 <= j < pending@.len() implies entries_view(pending@)[j] == source[n
            - pending@.len() + j] by {
            assert(pending@[j] == before[j + 1]);
            assert(entries_view(before)[j + 1] == source.subrange(n - before.len(), n as int)[j + 1]);
        }
        assert(entries_view(pending@) =~= source.subrange(n - pending@.len(), n as int));
        assert forall|j: int| 0 <= j < results@.len() implies entries_view(results@)[j]
            == as_data_outputs(source.subrange(0, results@.len() as int))[j] by {
            if j < k {
                assert(results@[j] == done[j]);
                assert(entries_view(done)[j] == as_data_outputs(source.subrange(0, k as int))[j]);
            }
        }
        assert(entries_view(results@) =~= as_data_outputs(source.subrange(0, results@.len() as int)));
    }
    assert(source.subrange(0, n as int) =~= source);
    assert(keys_unique(entries_view(results@)));
    Ok(PortMap::from_entries(results))
}

/// The default input rule's verdict fails exactly when some port's token is
/// not ready.
pub proof fn lemma_all_ready(tokens: Seq<(Seq<char>, Token)>)
    ensures
        all_ready(tokens) <==> !exists|i: int|
            0 <= i < tokens.len() && (#[trigger] tokens[i]).1 is NotReady,
{
}

/// The default output rule keeps every port and its value, wrapped as data,
/// and adds nothing: an empty mapping stays empty.
pub proof fn lemma_default_output(outputs: Seq<(Seq<char>, ZFData)>)
    ensures
        as_data_outputs(outputs).len() == outputs.len(),
        forall|i: int|
            0 <= i < outputs.len() ==> #[trigger] as_data_outputs(outputs)[i] == (
                outputs[i].0,
                ZFComponentOutput::Data(outputs[i].1),
            ),
        keys_unique(outputs) ==> keys_unique(as_data_outputs(outputs)),
{
}

} // verus!
