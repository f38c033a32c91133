use vstd::prelude::*;

verus! {

/// What a batch draws; only `Shape` batches are taken by the shape painter.
#[derive(Clone, Copy, Debug, PartialEq, Eq, Structural)]
pub enum BatchType {
    Image,
    Pattern,
    Shape,
    Text,
}

/// One mergeable draw unit: interleaved vertex data and its triangle indices.
pub struct Batch<V> {
    pub typ: BatchType,
    pub vertices: Vec<V>,
    pub indices: Vec<u32>,
}

/// Draws `count` indices of the combined index buffer, starting at `offset`.
#[derive(Clone, Copy, Debug, PartialEq, Eq, Structural)]
pub struct DrawCommand {
    pub offset: usize,
    pub count: usize,
}

/// Abstract state of a `ShapePainter`.
pub struct PainterModel<V> {
    pub vertices: Seq<V>,
    pub indices: Seq<u32>,
    pub uniforms: Seq<V>,
    pub stride: nat,
    pub dirty: bool,
}

/// Indices shifted by `base`.
pub open spec fn rebased(indices: Seq<u32>, base: int) -> Seq<u32> {
    Seq::new(indices.len(), |i: int| (indices[i] + base) as u32)
}

impl<V> PainterModel<V> {
    /// Number of whole vertices in the combined buffer.
    pub open spec fn base_vertex(self) -> int {
        self.vertices.len() as int / self.stride as int
    }

    /// The batch's data merged after what is there, its indices rebased onto
    /// the vertices already present; its projection replaces the last one.
    pub open spec fn pushed(self, vertices: Seq<V>, indices: Seq<u32>, projection: Seq<V>) -> Self {
        PainterModel {
            vertices: self.vertices + vertices,
            indices: self.indices + rebased(indices, self.base_vertex()),
            uniforms: projection,
            stride: self.stride,
            dirty: true,
        }
    }
}

/// Merging two batches into an empty buffer keeps every vertex, shifts the
/// second batch's indices by exactly the number of whole vertices of the
/// first, and leaves every index addressing a vertex of the combined buffer.
pub proof fn lemma_merge_two_batches<V>(
    p0: PainterModel<V>,
    va: Seq<V>,
    ia: Seq<u32>,
    pa: Seq<V>,
    vb: Seq<V>,
    ib: Seq<u32>,
    pb: Seq<V>,
)
    requires
        p0.stride > 0,
        p0.vertices.len() == 0,
        p0.indices.len() == 0,
        forall|i: int| 0 <= i < ia.len() ==> (#[trigger] ia[i] as int) < va.len() as int / p0.stride as int,
        forall|i: int| 0 <= i < ib.len() ==> (#[trigger] ib[i] as int) < vb.len() as int / p0.stride as int,
        (va.len() + vb.len()) as int / p0.stride as int <= u32::MAX + 1,
    ensures
        ({
            let p2 = p0.pushed(va, ia, pa).pushed(vb, ib, pb);
            &&& p2.vertices.len() == va.len() + vb.len()
            &&& p2.indices.len() == ia.len() + ib.len()
            &&& forall|i: int| 0 <= i < ia.len() ==> p2.indices[i] == ia[i]
            &&& forall|i: int|
                0 <= i < ib.len() ==> p2.indices[ia.len() + i] == ib[i] + va.len() as int
                    / p0.stride as int
            &&& forall|i: int|
                0 <= i < p2.indices.len() ==> (#[trigger] p2.indices[i] as int) < p2.vertices.len() as int
                    / p0.stride as int
        }),
{
    let s = p0.stride as int;
    let v1 = va.len() as int;
    let v2 = vb.len() as int;
    assert(0int / s == 0) by (nonlinear_arith)
        requires
            s > 0,
    ;
    assert(p0.base_vertex() == 0);
    let p1 = p0.pushed(va, ia, pa);
    assert(p1.vertices =~= va);
    assert(p1.base_vertex() == v1 / s);
    assert(v1 / s + v2 / s <= (v1 + v2) / s) by (nonlinear_arith)
        requires
            s > 0,
            v1 >= 0,
            v2 >= 0,
    ;
    assert(v1 / s <= (v1 + v2) / s) by (nonlinear_arith)
        requires
            s > 0,
            v1 >= 0,
            v2 >= 0,
    ;
}

/// Merges shape batches into one vertex buffer and one index buffer.
pub struct ShapePainter<V> {
    vertices: Vec<V>,
    indices: Vec<u32>,
    uniforms: [V; 16],
    stride: usize,
    count_vertices: usize,
    count_indices: usize,
    dirty_buffer: bool,
}

impl<V> View for ShapePainter<V> {
    type V = PainterModel<V>;

    closed spec fn view(&self) -> PainterModel<V> {
        PainterModel {
            vertices: self.vertices@,
            indices: self.indices@,
            uniforms: self.uniforms@,
            stride: self.stride as nat,
            dirty: self.dirty_buffer,
        }
    }
}

impl<V: Copy> ShapePainter<V> {
    pub closed spec fn wf(&self) -> bool {
        &&& self.stride > 0
        &&& self.count_vertices == self.vertices@.len()
        &&& self.count_indices == self.indices@.len()
    }

    /// An empty painter for vertices of `vertex_stride` scalars each.
    pub fn new(vertex_stride: usize, uniforms: [V; 16]) -> (r: Self)
        requires
            vertex_stride > 0,
        ensures
            r.wf(),
            r@ == (PainterModel {
                vertices: Seq::<V>::empty(),
                indices: Seq::<u32>::empty(),
                uniforms: uniforms@,
                stride: vertex_stride as nat,
                dirty: false,
            }),
    {
        ShapePainter {
            vertices: Vec::new(),
            indices: Vec::new(),
            uniforms,
            stride: vertex_stride,
            count_vertices: 0,
            count_indices: 0,
            dirty_buffer: false,
        }
    }

    /// Merges a shape batch and returns the draw command for its index range;
    /// a batch of another kind is ignored.
    pub fn push(&mut self, batch: &Batch<V>, projection: &[V; 16]) -> (r: Option<DrawCommand>)
        requires
            old(self).wf(),
            forall|i: int|
                0 <= i < batch.indices@.len() ==> old(self)@.base_vertex() + #[trigger] batch.indices@[i]
                    <= u32::MAX,
        ensures
            final(self).wf(),
            batch.typ == BatchType::Shape ==> {
                &&& final(self)@ == old(self)@.pushed(batch.vertices@, batch.indices@, projection@)
                &&& r == Some(
                    DrawCommand { offset: old(self)@.indices.len() as usize, count: batch.indices@.len() as usize },
                )
            },
            batch.typ != BatchType::Shape ==> final(self)@ == old(self)@ && r is None,
    {
        if batch.typ == BatchType::Shape {
            let len = #[verifier::truncate] ((self.count_vertices / self.stride) as u32);
            let offset = self.count_indices;
            let ghost i0 = self.indices@;
            let ghost base = old(self)@.base_vertex();
            if batch.indices.len() > 0 {
                assert(base + batch.indices@[0] <= u32::MAX);
                assert(len as int == base);
            }
            let mut k: usize = 0;
            while k < batch.indices.len()
                invariant
                    self.stride == old(self).stride,
                    self.stride > 0,
                    self.vertices == old(self).vertices,
                    self.count_vertices == old(self).count_vertices,
                    self.uniforms == old(self).uniforms,
                    self.dirty_buffer == old(self).dirty_buffer,
                    base == self.count_vertices as int / self.stride as int,
                    batch.indices@.len() > 0 ==> len as int == base,
                    k <= batch.indices@.len(),
                    forall|i: int|
                        0 <= i < batch.indices@.len() ==> base + #[trigger] batch.indices@[i] <= u32::MAX,
                    self.indices@ =~= i0 + rebased(batch.indices@.take(k as int), base),
                decreases batch.indices@.len() - k,
            {
                let idx = batch.indices[k] + len;
                self.indices.push(idx);
                k = k + 1;
                assert(self.indices@ =~= i0 + rebased(batch.indices@.take(k as int), base));
            }
            assert(batch.indices@.take(batch.indices@.len() as int) =~= batch.indices@);
            self.count_indices = self.indices.len();
            let ghost v0 = self.vertices@;
            let mut j: usize = 0;
            while j < batch.vertices.len()
                invariant
                    j <= batch.vertices@.len(),
                    self.vertices@ =~= v0 + batch.vertices@.take(j as int),
                    self.indices@ == i0 + rebased(batch.indices@, base),
                    self.stride == old(self).stride,
                    self.count_indices == self.indices@.len(),
                    self.uniforms == old(self).uniforms,
                    self.dirty_buffer == old(self).dirty_buffer,
                decreases batch.vertices@.len() - j,
            {
                self.vertices.push(batch.vertices[j]);
                j = j + 1;
                assert(self.vertices@ =~= v0 + batch.vertices@.take(j as int));
            }
            assert(batch.vertices@.take(batch.vertices@.len() as int) =~= batch.vertices@);
            self.count_vertices = self.vertices.len();
            self.uniforms = *projection;
            self.dirty_buffer = true;
            Some(DrawCommand { offset, count: batch.indices.len() })
        } else {
            None
        }
    }

    /// Reports whether merged data awaits upload, and marks it uploaded.
    pub fn upload_buffers(&mut self) -> (r: bool)
        requires
            old(self).wf(),
        ensures
            final(self).wf(),
            r == old(self)@.dirty,
            final(self)@ == (PainterModel { dirty: false, ..old(self)@ }),
    {
        let r = self.dirty_buffer;
        self.dirty_buffer = false;
        r
    }

    /// Empties both buffers; the projection and the upload flag stay.
    pub fn clear(&mut self)
        requires
            old(self).wf(),
        ensures
            final(self).wf(),
            final(self)@ == (PainterModel {
                vertices: Seq::<V>::empty(),
                indices: Seq::<u32>::empty(),
                ..old(self)@
            }),
    {
        self.count_vertices = 0;
        self.count_indices = 0;
        self.vertices.clear();
        self.indices.clear();
        assert(self.vertices@ =~= Seq::<V>::empty());
        assert(self.indices@ =~= Seq::<u32>::empty());
    }

    /// The combined vertex data.
    pub fn vertices(&self) -> (r: &Vec<V>)
        ensures
            r@ == self@.vertices,
    {
        &self.vertices
    }

    /// The combined, rebased index data.
    pub fn indices(&self) -> (r: &Vec<u32>)
        ensures
            r@ == self@.indices,
    {
        &self.indices
    }

    /// The projection of the last merged batch.
    pub fn uniforms(&self) -> (r: &[V; 16])
        ensures
            r@ == self@.uniforms,
    {
        &self.uniforms
    }

    /// Scalars per vertex.
    pub fn vertex_stride(&self) -> (r: usize)
        ensures
            r == self@.stride,
    {
        self.stride
    }
}

} // verus!
