use vstd::prelude::*;

verus! {

/// One recorded command of a path under construction.
#[derive(Clone, Copy, Debug)]
pub enum PathOp<T> {
    MoveTo(T, T),
    LineTo(T, T),
    CubicBezierTo(T, T, T, T, T, T),
    QuadraticBezierTo(T, T, T, T),
    Close,
}

/// A queued primitive awaiting tessellation.
#[derive(Debug)]
pub enum GeomTypes<T> {
    Circle { x: T, y: T, radius: T },
    Rect { x: T, y: T, width: T, height: T },
    RoundedRect { x: T, y: T, width: T, height: T, corner_radius: T },
    Triangle { p1: (T, T), p2: (T, T), p3: (T, T) },
    Path(Vec<PathOp<T>>),
}

/// Mathematical value of a queued primitive: a path is its command sequence.
pub enum Primitive<T> {
    Circle { x: T, y: T, radius: T },
    Rect { x: T, y: T, width: T, height: T },
    RoundedRect { x: T, y: T, width: T, height: T, corner_radius: T },
    Triangle { p1: (T, T), p2: (T, T), p3: (T, T) },
    Path(Seq<PathOp<T>>),
}

impl<T> View for GeomTypes<T> {
    type V = Primitive<T>;

    open spec fn view(&self) -> Primitive<T> {
        match *self {
            GeomTypes::Circle { x, y, radius } => Primitive::Circle { x, y, radius },
            GeomTypes::Rect { x, y, width, height } => Primitive::Rect { x, y, width, height },
            GeomTypes::RoundedRect { x, y, width, height, corner_radius } => Primitive::RoundedRect {
                x,
                y,
                width,
                height,
                corner_radius,
            },
            GeomTypes::Triangle { p1, p2, p3 } => Primitive::Triangle { p1, p2, p3 },
            GeomTypes::Path(ops) => Primitive::Path(ops@),
        }
    }
}

/// The primitives a vector of queued shapes stands for, in order.
pub open spec fn primitives_of<T>(shapes: Seq<GeomTypes<T>>) -> Seq<Primitive<T>> {
    shapes.map_values(|g: GeomTypes<T>| g@)
}

/// Builds the output position of a tessellator vertex from its coordinates.
pub struct LyonVertex;

impl LyonVertex {
    pub fn new_vertex<T: Copy>(&mut self, position: (T, T)) -> (r: (T, T))
        ensures
            r == position,
    {
        (position.0, position.1)
    }
}

/// The non-indexed form of an indexed mesh: one copy of the referenced
/// vertex for every index, in index order.
pub open spec fn flattened<T>(vertices: Seq<(T, T)>, indices: Seq<u16>) -> Seq<(T, T)> {
    Seq::new(indices.len(), |i: int| vertices[indices[i] as int])
}

/// Expands an indexed mesh into a plain triangle list.
pub fn lyon_vbuff_to_vertex<T: Copy>(vertices: &Vec<(T, T)>, indices: &Vec<u16>) -> (r: Vec<(T, T)>)
    requires
        forall|i: int| 0 <= i < indices@.len() ==> (#[trigger] indices@[i] as int) < vertices@.len(),
    ensures
        r@ == flattened(vertices@, indices@),
{
    let mut acc: Vec<(T, T)> = Vec::new();
    let mut k: usize = 0;
    while k < indices.len()
        invariant
            k <= indices@.len(),
            forall|i: int| 0 <= i < indices@.len() ==> (#[trigger] indices@[i] as int) < vertices@.len(),
            acc@ =~= flattened(vertices@, indices@.take(k as int)),
        decreases indices@.len() - k,
    {
        let v = indices[k] as usize;
        acc.push(vertices[v]);
        k = k + 1;
        assert(acc@ =~= flattened(vertices@, indices@.take(k as int)));
    }
    assert(indices@.take(indices@.len() as int) =~= indices@);
    acc
}

/// Abstract state of a `Geometry`: the accumulated output, the shape queue and
/// the path under construction.
pub struct GeometryModel<T, C> {
    pub positions: Seq<(T, T)>,
    pub colors: Seq<C>,
    pub queue: Seq<Primitive<T>>,
    pub current: Option<Seq<PathOp<T>>>,
}

impl<T, C> GeometryModel<T, C> {
    /// Every output position carries exactly one color.
    pub open spec fn wf(self) -> bool {
        self.colors.len() == self.positions.len()
    }

    pub open spec fn empty() -> Self {
        GeometryModel { positions: seq![], colors: seq![], queue: seq![], current: None }
    }

    /// The queue once the path under construction, if any, is finished and queued.
    pub open spec fn pending(self) -> Seq<Primitive<T>> {
        match self.current {
            Some(ops) => self.queue.push(Primitive::Path(ops)),
            None => self.queue,
        }
    }

    /// The path under construction is finished and queued.
    pub open spec fn flushed(self) -> Self {
        GeometryModel { queue: self.pending(), current: None, ..self }
    }

    /// A new path starting at the point, after the previous one was queued.
    pub open spec fn moved_to(self, x: T, y: T) -> Self {
        GeometryModel { current: Some(seq![PathOp::MoveTo(x, y)]), ..self.flushed() }
    }

    /// Appends a segment to the current path; with no current path, one is
    /// started at `(x, y)` and the segment is appended after that start.
    pub open spec fn with_segment(self, x: T, y: T, op: PathOp<T>) -> Self {
        match self.current {
            Some(ops) => GeometryModel { current: Some(ops.push(op)), ..self },
            None => GeometryModel { current: Some(seq![PathOp::MoveTo(x, y), op]), ..self },
        }
    }

    pub open spec fn lined_to(self, x: T, y: T) -> Self {
        match self.current {
            Some(ops) => GeometryModel { current: Some(ops.push(PathOp::LineTo(x, y))), ..self },
            None => self.moved_to(x, y),
        }
    }

    /// Queues a primitive after the path under construction, if any.
    pub open spec fn with_shape(self, p: Primitive<T>) -> Self {
        GeometryModel { queue: self.pending().push(p), current: None, ..self }
    }

    /// Empties the queue and the builder, keeping the output.
    pub open spec fn drained(self) -> Self {
        GeometryModel { queue: seq![], current: None, ..self }
    }

    /// Drains the queue and appends a run of positions, all of one color.
    pub open spec fn painted(self, color: C, run: Seq<(T, T)>) -> Self {
        GeometryModel {
            positions: self.positions + run,
            colors: self.colors + Seq::new(run.len(), |i: int| color),
            queue: seq![],
            current: None,
        }
    }
}

/// The state after painting each run in turn, each in its own color.
pub open spec fn painted_runs<T, C>(m: GeometryModel<T, C>, runs: Seq<(C, Seq<(T, T)>)>) -> GeometryModel<T, C>
    decreases runs.len(),
{
    if runs.len() == 0 {
        m
    } else {
        let last = runs.last();
        painted_runs(m, runs.drop_last()).painted(last.0, last.1)
    }
}

/// Through any sequence of fills and strokes, whatever each one appends,
/// every position keeps exactly one color: the two sequences stay equally long
/// after every call.
pub proof fn lemma_colors_parallel_positions<T, C>(
    m: GeometryModel<T, C>,
    runs: Seq<(C, Seq<(T, T)>)>,
)
    requires
        m.wf(),
    ensures
        painted_runs(m, runs).wf(),
        painted_runs(m, runs).drained().wf(),
    decreases runs.len(),
{
    if runs.len() > 0 {
        lemma_colors_parallel_positions(m, runs.drop_last());
    }
}

/// Starting a path with a straight segment is the same as moving to its end
/// point: the new path starts exactly there.
pub proof fn lemma_line_to_starts_path<T, C>(m: GeometryModel<T, C>, x: T, y: T)
    requires
        m.current is None,
    ensures
        m.lined_to(x, y) == m.moved_to(x, y),
        m.lined_to(x, y).current == Some(seq![PathOp::MoveTo(x, y)]),
        m.lined_to(x, y).queue == m.queue,
{
}

/// Accumulates tessellated shapes as positions tagged with colors.
pub struct Geometry<T, C> {
    current_path: Option<Vec<PathOp<T>>>,
    stack: Vec<GeomTypes<T>>,
    vertices: Vec<(T, T)>,
    color_vertices: Vec<C>,
}

impl<T, C> View for Geometry<T, C> {
    type V = GeometryModel<T, C>;

    closed spec fn view(&self) -> GeometryModel<T, C> {
        GeometryModel {
            positions: self.vertices@,
            colors: self.color_vertices@,
            queue: primitives_of(self.stack@),
            current: match self.current_path {
                Some(ops) => Some(ops@),
                None => None,
            },
        }
    }
}

impl<T: Copy, C: Copy> Geometry<T, C> {
    pub fn new() -> (r: Self)
        ensures
            r@ == GeometryModel::<T, C>::empty(),
    {
        let r = Geometry {
            current_path: None,
            stack: Vec::new(),
            vertices: Vec::new(),
            color_vertices: Vec::new(),
        };
        assert(primitives_of(r.stack@) =~= seq![]);
        r
    }

    /// Finishes the path under construction, if any, and queues it.
    fn end_path(&mut self)
        ensures
            final(self)@ == old(self)@.flushed(),
    {
        if let Some(b) = self.current_path.take() {
            let ghost s0 = self.stack@;
            self.stack.push(GeomTypes::Path(b));
            assert(primitives_of(self.stack@) =~= primitives_of(s0).push(Primitive::Path(b@)));
        }
    }

    /// Queues the current path, if any, and starts a new one at `(x, y)`.
    pub fn move_to(&mut self, x: T, y: T)
        ensures
            final(self)@ == old(self)@.moved_to(x, y),
    {
        self.end_path();
        let mut b: Vec<PathOp<T>> = Vec::new();
        b.push(PathOp::MoveTo(x, y));
        self.current_path = Some(b);
        assert(b@ =~= seq![PathOp::MoveTo(x, y)]);
    }

    /// Appends a command to the current path, which must exist.
    fn append_op(&mut self, op: PathOp<T>)
        requires
            old(self).current_path is Some,
        ensures
            final(self)@ == (GeometryModel {
                current: Some(old(self)@.current.unwrap().push(op)),
                ..old(self)@
            }),
    {
        if let Some(b) = self.current_path.take() {
            let mut b = b;
            b.push(op);
            self.current_path = Some(b);
        }
    }

    /// Appends a straight segment; with no current path, starts one at `(x, y)`.
    pub fn line_to(&mut self, x: T, y: T)
        ensures
            final(self)@ == old(self)@.lined_to(x, y),
    {
        if self.current_path.is_some() {
            self.append_op(PathOp::LineTo(x, y));
        } else {
            self.move_to(x, y);
        }
    }

    /// Appends a cubic curve; with no current path, one is first started at
    /// the first control point.
    pub fn cubic_bezier_to(&mut self, x1: T, y1: T, x2: T, y2: T, x3: T, y3: T)
        ensures
            final(self)@ == old(self)@.with_segment(
                x1,
                y1,
                PathOp::CubicBezierTo(x1, y1, x2, y2, x3, y3),
            ),
    {
        if self.current_path.is_none() {
            self.move_to(x1, y1);
        }
        self.append_op(PathOp::CubicBezierTo(x1, y1, x2, y2, x3, y3));
        assert(seq![PathOp::MoveTo(x1, y1)].push(PathOp::CubicBezierTo(x1, y1, x2, y2, x3, y3))
            =~= seq![PathOp::MoveTo(x1, y1), PathOp::CubicBezierTo(x1, y1, x2, y2, x3, y3)]);
    }

    /// Appends a quadratic curve; with no current path, one is first started
    /// at the control point.
    pub fn quadratic_bezier_to(&mut self, x1: T, y1: T, x2: T, y2: T)
        ensures
            final(self)@ == old(self)@.with_segment(
                x1,
                y1,
                PathOp::QuadraticBezierTo(x1, y1, x2, y2),
            ),
    {
        if self.current_path.is_none() {
            self.move_to(x1, y1);
        }
        self.append_op(PathOp::QuadraticBezierTo(x1, y1, x2, y2));
        assert(seq![PathOp::MoveTo(x1, y1)].push(PathOp::QuadraticBezierTo(x1, y1, x2, y2))
            =~= seq![PathOp::MoveTo(x1, y1), PathOp::QuadraticBezierTo(x1, y1, x2, y2)]);
    }

    /// Arcs are not emitted: with no current path this starts one at `(x, y)`,
    /// otherwise it leaves the path as it is.
    pub fn arc_to(&mut self, x: T, y: T, _start_angle: T, _end_angle: T, _radius: T)
        ensures
            final(self)@ == (if old(self)@.current is None {
                old(self)@.moved_to(x, y)
            } else {
                old(self)@
            }),
    {
        if self.current_path.is_none() {
            self.move_to(x, y);
        }
    }

    /// Appends a closing segment back to the path's start; the path stays
    /// under construction. Without a current path nothing happens.
    pub fn close_path(&mut self)
        ensures
            final(self)@ == (match old(self)@.current {
                Some(ops) => GeometryModel { current: Some(ops.push(PathOp::Close)), ..old(self)@ },
                None => old(self)@,
            }),
    {
        if self.current_path.is_some() {
            self.append_op(PathOp::Close);
        }
    }

    /// Queues a shape after finishing the path under construction.
    fn push_shape(&mut self, g: GeomTypes<T>)
        ensures
            final(self)@ == old(self)@.with_shape(g@),
    {
        self.end_path();
        let ghost s0 = self.stack@;
        self.stack.push(g);
        assert(primitives_of(self.stack@) =~= primitives_of(s0).push(g@));
    }

    pub fn circle(&mut self, x: T, y: T, radius: T)
        ensures
            final(self)@ == old(self)@.with_shape(Primitive::Circle { x, y, radius }),
    {
        self.push_shape(GeomTypes::Circle { x, y, radius });
    }

    pub fn rect(&mut self, x: T, y: T, width: T, height: T)
        ensures
            final(self)@ == old(self)@.with_shape(Primitive::Rect { x, y, width, height }),
    {
        self.push_shape(GeomTypes::Rect { x, y, width, height });
    }

    pub fn rounded_rect(&mut self, x: T, y: T, width: T, height: T, corner_radius: T)
        ensures
            final(self)@ == old(self)@.with_shape(
                Primitive::RoundedRect { x, y, width, height, corner_radius },
            ),
    {
        self.push_shape(GeomTypes::RoundedRect { x, y, width, height, corner_radius });
    }

    pub fn triangle(&mut self, x1: T, y1: T, x2: T, y2: T, x3: T, y3: T)
        ensures
            final(self)@ == old(self)@.with_shape(
                Primitive::Triangle { p1: (x1, y1), p2: (x2, y2), p3: (x3, y3) },
            ),
    {
        self.push_shape(GeomTypes::Triangle { p1: (x1, y1), p2: (x2, y2), p3: (x3, y3) });
    }

    /// Finishes the current path and takes the whole queue out, in order.
    fn drain_shapes(&mut self) -> (r: Vec<GeomTypes<T>>)
        ensures
            final(self)@ == old(self)@.drained(),
            primitives_of(r@) == old(self)@.pending(),
    {
        self.end_path();
        let mut geometries: Vec<GeomTypes<T>> = Vec::new();
        std::mem::swap(&mut self.stack, &mut geometries);
        assert(primitives_of(self.stack@) =~= seq![]);
        geometries
    }

    /// Appends a run of positions, each tagged with `color`.
    fn append_run(&mut self, color: C, run: Vec<(T, T)>)
        ensures
            final(self)@ == (GeometryModel {
                positions: old(self)@.positions + run@,
                colors: old(self)@.colors + Seq::new(run@.len(), |i: int| color),
                ..old(self)@
            }),
    {
        let ghost p0 = self.vertices@;
        let ghost c0 = self.color_vertices@;
        let mut k: usize = 0;
        while k < run.len()
            invariant
                k <= run@.len(),
                self.vertices@ == p0 + run@.take(k as int),
                self.color_vertices@ =~= c0 + Seq::new(k as nat, |i: int| color),
                self.stack == old(self).stack,
                self.current_path == old(self).current_path,
            decreases run@.len() - k,
        {
            self.vertices.push(run[k]);
            self.color_vertices.push(color);
            k = k + 1;
            assert(self.vertices@ =~= p0 + run@.take(k as int));
            assert(self.color_vertices@ =~= c0 + Seq::new(k as nat, |i: int| color));
        }
        assert(run@.take(run@.len() as int) =~= run@);
        assert(self.color_vertices@ =~= c0 + Seq::new(run@.len(), |i: int| color));
    }

    /// Tessellates the interior of every queued shape (the path under
    /// construction included) with `tessellate` and appends the resulting
    /// triangle list in one color. The queue and the builder end up empty
    /// whatever happens; on a tessellation failure nothing is appended.
    pub fn fill<E, F>(&mut self, color: C, tessellate: F) -> (r: Result<(), E>) where
        F: FnOnce(Vec<GeomTypes<T>>) -> Result<Vec<(T, T)>, E>,
        requires
            old(self)@.wf(),
            forall|q: Vec<GeomTypes<T>>| call_requires(tessellate, (q,)),
        ensures
            final(self)@.wf(),
            r matches Err(e) ==> final(self)@ == old(self)@.drained() && exists|q: Vec<GeomTypes<T>>|
                primitives_of(q@) == old(self)@.pending()
                && call_ensures(tessellate, (q,), Err::<Vec<(T, T)>, E>(e)),
            r is Ok ==> exists|q: Vec<GeomTypes<T>>, run: Vec<(T, T)>|
                primitives_of(q@) == old(self)@.pending()
                && call_ensures(tessellate, (q,), Ok::<Vec<(T, T)>, E>(run))
                && final(self)@ == old(self)@.painted(color, run@),
    {
        let geometries = self.drain_shapes();
        match tessellate(geometries) {
            Ok(run) => {
                self.append_run(color, run);
                Ok(())
            },
            Err(e) => Err(e),
        }
    }

    /// Tessellates the outline of every queued shape (the path under
    /// construction included) at width `strength` with `tessellate` and
    /// appends the resulting triangle list in one color. The queue and the
    /// builder end up empty whatever happens; on a tessellation failure
    /// nothing is appended.
    pub fn stroke<E, F>(&mut self, color: C, strength: T, tessellate: F) -> (r: Result<(), E>) where
        F: FnOnce(Vec<GeomTypes<T>>, T) -> Result<Vec<(T, T)>, E>,
        requires
            old(self)@.wf(),
            forall|q: Vec<GeomTypes<T>>| call_requires(tessellate, (q, strength)),
        ensures
            final(self)@.wf(),
            r matches Err(e) ==> final(self)@ == old(self)@.drained() && exists|q: Vec<GeomTypes<T>>|
                primitives_of(q@) == old(self)@.pending()
                && call_ensures(tessellate, (q, strength), Err::<Vec<(T, T)>, E>(e)),
            r is Ok ==> exists|q: Vec<GeomTypes<T>>, run: Vec<(T, T)>|
                primitives_of(q@) == old(self)@.pending()
                && call_ensures(tessellate, (q, strength), Ok::<Vec<(T, T)>, E>(run))
                && final(self)@ == old(self)@.painted(color, run@),
    {
        let geometries = self.drain_shapes();
        match tessellate(geometries, strength) {
            Ok(run) => {
                self.append_run(color, run);
                Ok(())
            },
            Err(e) => Err(e),
        }
    }

    /// Discards the output, the queue and the path under construction.
    pub fn clear(&mut self)
        ensures
            final(self)@ == GeometryModel::<T, C>::empty(),
    {
        self.stack = Vec::new();
        self.vertices = Vec::new();
        self.color_vertices = Vec::new();
        self.current_path = None;
        assert(primitives_of(self.stack@) =~= seq![]);
    }

    /// The output so far: positions and, in parallel, their colors.
    pub fn vertices(&self) -> (r: (&Vec<(T, T)>, &Vec<C>))
        ensures
            r.0@ == self@.positions,
            r.1@ == self@.colors,
    {
        (&self.vertices, &self.color_vertices)
    }
}

} // verus!
