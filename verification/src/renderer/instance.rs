//! Instanced drawing: what one instanced draw needs, the instance bytes
//! gathered for upload, and the instance ranges that batches draw.
use crate::renderer::mesh::MeshRef;
use crate::renderer::pipeline::PipelineRef;
use crate::renderer::texture::TextureRef;
use std::ops::Deref;
use vstd::prelude::*;

verus! {

#[derive(Debug)]
pub struct InstanceRenderData<V, I> {
    pub mesh: MeshRef<V>,
    pub instance: I,
    pub texture: Option<TextureRef>,
    pub pipeline: Option<PipelineRef<V, I>>,
}

impl<V, I> Deref for InstanceRenderData<V, I> {
    type Target = I;

    fn deref(&self) -> (r: &I)
        ensures
            *r == self.instance,
    {
        &self.instance
    }
}

/// The instance bytes gathered for one render pass, and the size of the GPU
/// buffer they are uploaded into.
pub struct InstanceStorage {
    raw_instance_bytes: Vec<u8>,
    buffer_size: u64,
}

impl InstanceStorage {
    /// The gathered bytes, in the order they were added.
    pub closed spec fn bytes(&self) -> Seq<u8> {
        self.raw_instance_bytes@
    }

    /// The size of the GPU buffer the bytes go to.
    pub closed spec fn buffer_size(&self) -> u64 {
        self.buffer_size
    }

    /// Storage for `initial_size` instances of `instance_size` bytes each.
    pub fn new(initial_size: usize, instance_size: usize) -> (r: Self)
        requires
            initial_size * instance_size <= u64::MAX,
        ensures
            r.bytes() == Seq::<u8>::empty(),
            r.buffer_size() == initial_size * instance_size,
    {
        proof {
            assert(initial_size * instance_size >= 0) by (nonlinear_arith);
        }
        InstanceStorage {
            raw_instance_bytes: Vec::new(),
            buffer_size: (initial_size as u64) * (instance_size as u64),
        }
    }

    /// The gathered bytes.
    pub fn raw_bytes(&self) -> (r: &Vec<u8>)
        ensures
            r@ == self.bytes(),
    {
        &self.raw_instance_bytes
    }

    /// Appends the bytes of one instance.
    pub fn add(&mut self, instance_bytes: &[u8])
        ensures
            final(self).bytes() == old(self).bytes() + instance_bytes@,
            final(self).buffer_size() == old(self).buffer_size(),
    {
        let mut i: usize = 0;
        let ghost start = self.raw_instance_bytes@;
        while i < instance_bytes.len()
            invariant
                0 <= i <= instance_bytes@.len(),
                self.raw_instance_bytes@ == start + instance_bytes@.take(i as int),
                self.buffer_size == old(self).buffer_size,
                start == old(self).raw_instance_bytes@,
            decreases instance_bytes@.len() - i,
        {
            self.raw_instance_bytes.push(instance_bytes[i]);
            proof {
                assert(instance_bytes@.take(i + 1) =~= instance_bytes@.take(i as int).push(
                    instance_bytes@[i as int],
                ));
            }
            i = i + 1;
        }
        proof {
            assert(instance_bytes@.take(instance_bytes@.len() as int) =~= instance_bytes@);
        }
    }

    /// Forgets the gathered bytes; the buffer stays.
    pub fn clear(&mut self)
        ensures
            final(self).bytes() == Seq::<u8>::empty(),
            final(self).buffer_size() == old(self).buffer_size(),
    {
        self.raw_instance_bytes.clear();
    }

    /// Readies the buffer for uploading the gathered bytes. A buffer too
    /// small for them is replaced by one twice their size, whose size is
    /// returned; a large enough buffer is kept (`None`).
    pub fn update_buffer(&mut self) -> (r: Option<u64>)
        requires
            old(self).bytes().len() > 0,
            2 * old(self).bytes().len() <= u64::MAX,
        ensures
            final(self).bytes() == old(self).bytes(),
            old(self).buffer_size() < old(self).bytes().len() ==> r == Some(final(self).buffer_size()),
            old(self).buffer_size() < old(self).bytes().len() ==> final(self).buffer_size() == 2 * old(self).bytes().len(),
            old(self).buffer_size() >= old(self).bytes().len() ==> r is None,
            old(self).buffer_size() >= old(self).bytes().len() ==> final(self).buffer_size() == old(self).buffer_size(),
            final(self).buffer_size() >= final(self).bytes().len(),
    {
        let req_size = self.raw_instance_bytes.len() as u64;
        if self.buffer_size < req_size {
            self.buffer_size = req_size * 2;
            Some(self.buffer_size)
        } else {
            None
        }
    }
}

/// The instances one batch draws: they start where the pass's instance
/// range stood when the batch began, and count what the batch added.
pub struct InstanceBatch {
    draw_range_start: u32,
    draw_count: u32,
}

impl InstanceBatch {
    pub closed spec fn start(&self) -> u32 {
        self.draw_range_start
    }

    pub closed spec fn count(&self) -> u32 {
        self.draw_count
    }

    /// A batch beginning at the pass's current instance position.
    pub fn new(pass_draw_start: u32) -> (r: Self)
        ensures
            r.start() == pass_draw_start,
            r.count() == 0,
    {
        InstanceBatch { draw_range_start: pass_draw_start, draw_count: 0 }
    }

    /// Counts one more instance.
    pub fn add(&mut self)
        requires
            old(self).start() + old(self).count() < u32::MAX,
        ensures
            final(self).start() == old(self).start(),
            final(self).count() == old(self).count() + 1,
    {
        self.draw_count = self.draw_count + 1;
    }

    /// Ends the batch: the instance range to draw, `None` when nothing was
    /// added; the pass's instance position moves up by the instances drawn.
    pub fn flush(&self, pass_draw_start: &mut u32) -> (r: Option<(u32, u32)>)
        requires
            self.start() + self.count() <= u32::MAX,
            *old(pass_draw_start) + self.count() <= u32::MAX,
        ensures
            self.count() == 0 ==> r is None,
            self.count() == 0 ==> *final(pass_draw_start) == *old(pass_draw_start),
            self.count() > 0 ==> r == Some((self.start(), (self.start() + self.count()) as u32)),
            self.count() > 0 ==> *final(pass_draw_start) == *old(pass_draw_start) + self.count(),
    {
        if self.draw_count == 0 {
            return None;
        }
        *pass_draw_start = *pass_draw_start + self.draw_count;
        Some((self.draw_range_start, self.draw_range_start + self.draw_count))
    }
}

/// Two batches drawn one after the other in a pass that began at `s` draw
/// adjacent instance ranges: the second starts where the first ends.
pub proof fn lemma_batches_adjacent(s: u32, first: InstanceBatch, after_first: u32, second: InstanceBatch)
    requires
        first.start() == s,
        first.count() > 0,
        s + first.count() <= u32::MAX,
        after_first == s + first.count(),
        second.start() == after_first,
    ensures
        second.start() == first.start() + first.count(),
{
}

} // verus!
