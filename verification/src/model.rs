//! Per-instance data driving hardware instancing: a column-major 4x4 model
//! matrix (sixteen words) and one word carrying the float-encoded material
//! handle, 68 bytes per instance.

use vstd::prelude::*;

verus! {

/// One drawn copy of a mesh: its model matrix, column-major, one 32-bit
/// word per component, and its float-encoded material handle word.
pub struct Instance {
    pub model: Vec<u32>,
    pub material_id: u32,
}

impl Instance {
    /// The matrix holds exactly sixteen words.
    pub open spec fn wf(self) -> bool {
        self.model@.len() == 16
    }

    /// The instance's seventeen words: the matrix columns, then the handle.
    pub open spec fn words(self) -> Seq<u32> {
        self.model@ + seq![self.material_id]
    }

    /// Byte footprint of one instance in the instance buffer.
    pub fn size() -> (r: i32)
        ensures
            r == 68,
    {
        68
    }

    /// The instance's words in buffer order.
    pub fn as_vec(&self) -> (r: Vec<u32>)
        requires
            self.wf(),
        ensures
            r@ == self.words(),
            r@.len() == 17,
    {
        let mut out: Vec<u32> = Vec::new();
        let mut i: usize = 0;
        while i < 16
            invariant
                i <= 16,
                self.model@.len() == 16,
                out@ == self.model@.take(i as int),
            decreases 16 - i,
        {
            out.push(self.model[i]);
            proof {
                assert(out@ =~= self.model@.take(i as int + 1));
            }
            i = i + 1;
        }
        out.push(self.material_id);
        proof {
            assert(self.model@.take(16) =~= self.model@);
            assert(out@ =~= self.words());
        }
        out
    }
}

/// The word image of an instance list: seventeen words per instance, in
/// order.
pub open spec fn spec_instances_words(instances: Seq<Instance>) -> Seq<u32>
    decreases instances.len(),
{
    if instances.len() == 0 {
        Seq::empty()
    } else {
        spec_instances_words(instances.drop_last()) + instances.last().words()
    }
}

/// An instance list's word image holds seventeen words per instance.
pub proof fn lemma_instances_words_len(instances: Seq<Instance>)
    requires
        forall|i: int| 0 <= i < instances.len() ==> instances[i].wf(),
    ensures
        spec_instances_words(instances).len() == 17 * instances.len(),
    decreases instances.len(),
{
    if instances.len() > 0 {
        lemma_instances_words_len(instances.drop_last());
    }
}

/// The word image of an instance list, in buffer order.
pub fn instances_words(instances: &Vec<Instance>) -> (r: Vec<u32>)
    requires
        forall|i: int| 0 <= i < instances@.len() ==> instances@[i].wf(),
    ensures
        r@ == spec_instances_words(instances@),
{
    let mut out: Vec<u32> = Vec::new();
    let mut i: usize = 0;
    proof {
        assert(instances@.take(0) =~= Seq::<Instance>::empty());
    }
    while i < instances.len()
        invariant
            0 <= i <= instances@.len(),
            forall|k: int| 0 <= k < instances@.len() ==> instances@[k].wf(),
            out@ == spec_instances_words(instances@.take(i as int)),
        decreases instances@.len() - i,
    {
        let words = instances[i].as_vec();
        let mut j: usize = 0;
        while j < words.len()
            invariant
                0 <= j <= words@.len(),
                out@ == spec_instances_words(instances@.take(i as int)) + words@.take(j as int),
            decreases words@.len() - j,
        {
            out.push(words[j]);
            proof {
                assert(out@ =~= spec_instances_words(instances@.take(i as int))
                    + words@.take(j as int + 1));
            }
            j = j + 1;
        }
        proof {
            assert(words@.take(words@.len() as int) =~= words@);
            assert(instances@.take(i as int + 1).drop_last() =~= instances@.take(i as int));
            assert(instances@.take(i as int + 1).last() == instances@[i as int]);
            assert(out@ =~= spec_instances_words(instances@.take(i as int + 1)));
        }
        i = i + 1;
    }
    proof {
        assert(instances@.take(instances@.len() as int) =~= instances@);
    }
    out
}

} // verus!
