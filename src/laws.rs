//! Laws that relate several commands of the replay engine, stated over the
//! views that `CommandProcessor::process_command` speaks of.
use vstd::prelude::*;

use crate::processor::{release_ops, ProcessorView};
use crate::resources::{native_held, ResourceEntry};

verus! {

/// An alias made by OPEN_RESOURCE (id `j` onto live id `i`) names the same
/// native object as its source. Destroying the source then leaves the alias
/// live and still backed by that object, releases nothing, and `i` no longer
/// resolves. Destroying the alias instead leaves the source as it was.
pub proof fn lemma_alias_then_destroy(m: Map<u32, ResourceEntry>, i: u32, j: u32)
    requires
        m.contains_key(i),
        !m.contains_key(j),
        i != j,
    ensures
        ({
            let aliased = m.insert(j, m[i]);
            &&& aliased.contains_key(i) && aliased.contains_key(j)
            &&& aliased[j].native == aliased[i].native
            &&& release_ops(aliased, i) == Seq::<crate::ops::NativeOp>::empty()
            &&& !aliased.remove(i).contains_key(i)
            &&& aliased.remove(i).contains_key(j)
            &&& aliased.remove(i)[j] == m[i]
            &&& release_ops(aliased, j) == Seq::<crate::ops::NativeOp>::empty()
            &&& aliased.remove(j) == m
        }),
{
    let aliased = m.insert(j, m[i]);
    assert(native_held(aliased, aliased[i].native, i)) by {
        assert(aliased.contains_key(j) && aliased[j].native == aliased[i].native);
    }
    assert(native_held(aliased, aliased[j].native, j)) by {
        assert(aliased.contains_key(i) && aliased[i].native == aliased[j].native);
    }
    assert(aliased.remove(j) =~= m);
}

/// A second FLUSH right after a first leaves the engine's state where the
/// first left it, as the first left it where it was: each changes nothing but
/// the counters and asks the device for one flush.
pub proof fn lemma_flush_twice(v0: ProcessorView, v1: ProcessorView, v2: ProcessorView)
    requires
        v1.same_but_stats(v0),
        v2.same_but_stats(v1),
    ensures
        v2.same_but_stats(v0),
        v2.same_but_stats(v1),
{
}

} // verus!
