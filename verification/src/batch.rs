use vstd::prelude::*;
use bytemuck::Pod;

verus! {

/// `bytemuck::cast_slice` into bytes: the same memory read as `u8`, one byte
/// per byte of the values. With `u8` as the target the crate never fails, so
/// it never panics.
///
/// Not stated: the byte values, which are the in-memory representation of
/// the values.
#[verifier::external_body]
pub(crate) fn cast_to_bytes<V: Pod>(data: &[V]) -> (r: &[u8])
    ensures
        r@.len() == data@.len() * vstd::layout::size_of::<V>(),
{
    bytemuck::cast_slice(data)
}

/// `Vec::capacity`: how many values fit before the vector reallocates.
///
/// Not stated: the value, which the allocator decides.
#[verifier::external_body]
fn vec_capacity<V>(v: &Vec<V>) -> (r: usize) {
    v.capacity()
}

/// Vertices of instances that share one draw call, `DRAW_COUNT` vertices per
/// instance.
#[derive(Debug, Default, Clone)]
pub struct VertexBatch<V, const DRAW_COUNT: usize> {
    instances: u32,
    buf: Vec<V>,
}

/// A committed batch: how many instances, and their vertices as bytes.
#[derive(Debug)]
pub struct BatchInfo<'a> {
    pub instances: u32,
    pub data: &'a [u8],
}

impl<V: Pod, const DRAW_COUNT: usize> VertexBatch<V, DRAW_COUNT> {
    /// Number of instances appended since the last `finish`.
    pub closed spec fn spec_instances(self) -> nat {
        self.instances as nat
    }

    /// The vertices appended since the last `finish`.
    pub closed spec fn vertices(self) -> Seq<V> {
        self.buf@
    }

    /// Every instance contributes exactly `DRAW_COUNT` vertices.
    pub open spec fn wf(self) -> bool {
        self.vertices().len() == self.spec_instances() * DRAW_COUNT
    }

    /// An empty batch.
    pub fn new() -> (r: Self)
        ensures
            r.wf(),
            r.spec_instances() == 0,
            r.vertices() == Seq::<V>::empty(),
    {
        Self { instances: 0, buf: Vec::with_capacity(DRAW_COUNT) }
    }

    /// Number of instances in the batch.
    pub fn instances(&self) -> (r: u32)
        ensures
            r == self.spec_instances(),
    {
        self.instances
    }

    /// Appends one instance's vertices.
    pub fn append(&mut self, instance: &[V; DRAW_COUNT])
        requires
            old(self).wf(),
            old(self).spec_instances() < u32::MAX,
        ensures
            final(self).wf(),
            final(self).spec_instances() == old(self).spec_instances() + 1,
            final(self).vertices().len() == old(self).vertices().len() + DRAW_COUNT,
            forall|i: int|
                0 <= i < old(self).vertices().len() ==> final(self).vertices()[i] == old(self).vertices()[i],
            forall|i: int|
                0 <= i < DRAW_COUNT ==> cloned::<V>(
                    instance@[i],
                    #[trigger] final(self).vertices()[old(self).vertices().len() + i],
                ),
    {
        let ghost before = self.buf@;
        self.buf.extend_from_slice(instance.as_slice());
        proof {
            assert(self.buf@.len() == (self.instances as nat + 1) * DRAW_COUNT) by (nonlinear_arith)
                requires
                    self.buf@.len() == before.len() + DRAW_COUNT,
                    before.len() == self.instances as nat * DRAW_COUNT,
            ;
        }
        self.instances = self.instances + 1;
    }

    /// The batch as it stands: its instance count and its vertices as bytes.
    pub fn commit(&self) -> (r: BatchInfo<'_>)
        requires
            self.wf(),
        ensures
            r.instances == self.spec_instances(),
            r.data@.len() == self.spec_instances() * DRAW_COUNT * vstd::layout::size_of::<V>(),
    {
        let instances = self.instances;
        let data = cast_to_bytes(self.buf.as_slice());
        BatchInfo { instances, data }
    }

    /// Empties the batch for the next frame. A batch that grew past 512
    /// instances gets a fresh buffer one and a half times its size when its
    /// old one is not far larger; otherwise the buffer is kept and cleared.
    pub fn finish(&mut self)
        ensures
            final(self).wf(),
            final(self).spec_instances() == 0,
            final(self).vertices() == Seq::<V>::empty(),
    {
        let len = self.buf.len();
        let capacity = vec_capacity(&self.buf);
        // `len > 512 * DRAW_COUNT`, compared without forming the product.
        if len / 512 >= DRAW_COUNT && len % 512 != 0 || len / 512 > DRAW_COUNT {
            // `capacity * 3 > len`, compared without forming the product.
            if capacity > len / 3 {
                self.buf = Vec::with_capacity(len.saturating_add(len / 2));
            } else {
                self.buf.clear();
            }
        } else {
            self.buf.clear();
        }
        self.instances = 0;
    }
}

} // verus!
