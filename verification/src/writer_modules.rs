//! The writer modules available in this file writer.
use crate::writer_module::{ixseblock_name, nxeventdata_name, WriterModuleKind};
use crate::writer_module_registry::{registered, WriterModuleFactories};
use vstd::prelude::*;

verus! {

/// The kinds in the default registry, in registration order.
pub open spec fn default_kinds() -> Seq<WriterModuleKind> {
    seq![WriterModuleKind::IXseblock, WriterModuleKind::NXeventdata]
}

/// The set of writer-modules available in this file writer.
///
/// New writer modules must be added to this list in order to be usable.
pub fn default_registry() -> (r: WriterModuleFactories)
    ensures
        r@ == registered(default_kinds()),
        r@.contains_key(ixseblock_name()) && r@[ixseblock_name()] == WriterModuleKind::IXseblock,
        r@.contains_key(nxeventdata_name()) && r@[nxeventdata_name()] == WriterModuleKind::NXeventdata,
        !r.spec_has_duplicated_module_names(),
{
    let mut registry = WriterModuleFactories::empty();
    registry.register_module(WriterModuleKind::IXseblock);
    registry.register_module(WriterModuleKind::NXeventdata);
    proof {
        assert(ixseblock_name() != nxeventdata_name()) by {
            assert(ixseblock_name()[0] != nxeventdata_name()[0]);
        }
        assert(default_kinds().drop_last() =~= seq![WriterModuleKind::IXseblock]);
        assert(seq![WriterModuleKind::IXseblock].drop_last() =~= Seq::<WriterModuleKind>::empty());
        reveal_with_fuel(registered, 3);
        assert(registered(seq![WriterModuleKind::IXseblock]) =~= Map::<Seq<char>, WriterModuleKind>::empty().insert(ixseblock_name(), WriterModuleKind::IXseblock));
        assert(registry@ =~= registered(default_kinds()));
    }
    registry
}

} // verus!
