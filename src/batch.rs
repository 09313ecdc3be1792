use vstd::prelude::*;

verus! {

/// How many textures one flush can bind at once.
pub const MAX_TEXTURES_PER_DRAW_CALL: usize = 10;

/// The largest vertex buffer whose every position a `u16` index can address.
pub const MAX_ADDRESSABLE_VERTICES: u32 = 65536;

/// A texture slot as its name, if any.
pub open spec fn name_view(o: Option<String>) -> Option<Seq<char>> {
    match o {
        Some(s) => Some(s@),
        None => None,
    }
}

/// A slot table as the names it holds.
pub open spec fn names_view(v: Seq<Option<String>>) -> Seq<Option<Seq<char>>> {
    v.map_values(|o: Option<String>| name_view(o))
}

/// The slot table at the start of a batch: every slot empty.
pub open spec fn empty_slots() -> Seq<Option<Seq<char>>> {
    Seq::new(MAX_TEXTURES_PER_DRAW_CALL as nat, |i: int| None)
}

/// Slot `k` is where a draw naming `name` lands: the first slot that is empty or
/// already holds that name.
pub open spec fn is_slot_for(slots: Seq<Option<Seq<char>>>, name: Seq<char>, k: int) -> bool {
    &&& 0 <= k < slots.len()
    &&& (slots[k] is None || slots[k] == Some(name))
    &&& forall|j: int| 0 <= j < k ==> slots[j] is Some && slots[j] != Some(name)
}

/// Every slot is taken, and by names other than `name`.
pub open spec fn table_full_for(slots: Seq<Option<Seq<char>>>, name: Seq<char>) -> bool {
    forall|j: int| 0 <= j < slots.len() ==> slots[j] is Some && slots[j] != Some(name)
}

/// Slots are filled from the front, and no name holds two of them.
pub open spec fn slots_well_formed(slots: Seq<Option<Seq<char>>>) -> bool {
    &&& slots.len() == MAX_TEXTURES_PER_DRAW_CALL
    &&& forall|i: int, j: int|
        #![trigger slots[i], slots[j]]
        0 <= i < j < slots.len() && slots[i] is None ==> slots[j] is None
    &&& forall|i: int, j: int|
        0 <= i < slots.len() && 0 <= j < slots.len() && i != j && slots[i] is Some
            ==> slots[i] != slots[j]
}

/// Why a shape cannot be drawn at all: a fault of the caller, not of the frame.
#[derive(Debug, Clone, Copy, PartialEq, Eq, Structural)]
pub enum DrawError {
    /// No render bracket is open.
    NotRendering,
    /// The shape has more indices than the whole index buffer holds.
    TooManyIndices,
    /// The shape has more vertices than the whole vertex buffer holds.
    TooManyVertices,
    /// One of the shape's indices names no vertex of its own.
    IndexOutOfRange,
}

impl DrawError {
    /// The human-readable description of the error.
    pub fn message(&self) -> (r: String)
        ensures
            *self == DrawError::NotRendering ==> r@ == "draw outside a render bracket"@,
            *self == DrawError::TooManyIndices ==> r@
                == "shape has more indices than the renderer's max_indices"@,
            *self == DrawError::TooManyVertices ==> r@
                == "shape has more vertices than the renderer's max_vertices"@,
            *self == DrawError::IndexOutOfRange ==> r@ == "shape has an index past its vertices"@,
    {
        match self {
            DrawError::NotRendering => String::from_str("draw outside a render bracket"),
            DrawError::TooManyIndices => String::from_str(
                "shape has more indices than the renderer's max_indices",
            ),
            DrawError::TooManyVertices => String::from_str(
                "shape has more vertices than the renderer's max_vertices",
            ),
            DrawError::IndexOutOfRange => String::from_str("shape has an index past its vertices"),
        }
    }
}

/// What the device must do to draw the batch gathered so far.
pub struct FlushCommand {
    /// Draw the first `index_count` entries of the index buffer.
    pub index_count: u32,
    /// Clear the render target first (the first flush of a bracket) instead of
    /// drawing over what is there.
    pub clear_target: bool,
    /// The texture bound to each slot; an empty slot, or a name never loaded, binds the
    /// placeholder texture.
    pub textures: Vec<Option<String>>,
}

/// What the device must do for one draw call, in order: flush if asked, then write
/// the shape's vertices at `first_vertex` (each stamped with `texture_slot`, if any)
/// and `indices` at `first_index`.
pub struct DrawCommand {
    pub flush: Option<FlushCommand>,
    pub texture_slot: Option<usize>,
    pub first_vertex: u32,
    pub first_index: u32,
    pub indices: Vec<u16>,
}

/// The bookkeeping of a batching renderer: the write cursors into its fixed-size
/// vertex and index buffers, the texture-slot table of the batch being gathered, and
/// the state of the render bracket.
pub struct BatchState {
    max_vertices: u32,
    max_indices: u32,
    num_vertices: u32,
    num_indices: u32,
    draw_call_textures: Vec<Option<String>>,
    flushed_this_frame: bool,
    open: bool,
}

/// The byte range, in a buffer of elements of `element_size` bytes, that `count`
/// elements written from element `first` take.
pub fn byte_range(first: u32, count: usize, element_size: usize) -> (r: (usize, usize))
    requires
        first + count <= usize::MAX,
        (first + count) * element_size <= usize::MAX,
    ensures
        r.0 == first * element_size,
        r.1 == (first + count) * element_size,
{
    proof {
        assert(first * element_size <= (first + count) * element_size) by (nonlinear_arith);
    }
    (first as usize * element_size, (first as usize + count) * element_size)
}

/// The flush command that hands over the batch gathered in `s`.
pub open spec fn flush_matches(s: BatchState, f: FlushCommand) -> bool {
    &&& f.index_count == s.index_count()
    &&& f.clear_target == !s.has_flushed()
    &&& names_view(f.textures@) == s.slots()
}

/// A draw must flush first: the shape does not fit in what is left of a buffer, or
/// it names a texture that finds no slot.
pub open spec fn draw_flushes(
    s: BatchState,
    vertex_count: nat,
    index_count: nat,
    texture: Option<Seq<char>>,
) -> bool {
    ||| s.vertex_count() + vertex_count > s.vertex_capacity()
    ||| s.index_count() + index_count > s.index_capacity()
    ||| match texture {
        Some(name) => table_full_for(s.slots(), name),
        None => false,
    }
}

/// How one draw call of a shape with `vertex_count` vertices, local indices `indices`
/// and texture `texture` takes the batch from `s` to `t`, and the command `c` it gives.
pub open spec fn draw_post(
    s: BatchState,
    vertex_count: nat,
    indices: Seq<u16>,
    texture: Option<Seq<char>>,
    t: BatchState,
    c: DrawCommand,
) -> bool {
    let flushed = draw_flushes(s, vertex_count, indices.len(), texture);
    let base_vertex: nat = if flushed { 0 } else { s.vertex_count() };
    let base_index: nat = if flushed { 0 } else { s.index_count() };
    let table = if flushed { empty_slots() } else { s.slots() };
    &&& t.vertex_capacity() == s.vertex_capacity()
    &&& t.index_capacity() == s.index_capacity()
    &&& t.bracket_open() == s.bracket_open()
    &&& t.has_flushed() == (s.has_flushed() || flushed)
    &&& c.flush is Some <==> flushed
    &&& match c.flush {
        Some(f) => flush_matches(s, f),
        None => true,
    }
    &&& c.first_vertex == base_vertex
    &&& c.first_index == base_index
    &&& t.vertex_count() == base_vertex + vertex_count
    &&& t.index_count() == base_index + indices.len()
    &&& c.indices@.len() == indices.len()
    &&& forall|i: int| 0 <= i < indices.len() ==> c.indices@[i] == indices[i] + base_vertex
    &&& match texture {
        None => c.texture_slot is None && t.slots() == table,
        Some(name) => match c.texture_slot {
            Some(k) => is_slot_for(table, name, k as int) && t.slots() == table.update(
                k as int,
                Some(name),
            ),
            None => false,
        },
    }
}

/// A draw whose shape still fits in both buffers, and whose texture (if any) finds a
/// slot, does not flush, even where it fills a buffer exactly; one whose vertices go
/// past the vertex buffer flushes once, and its vertices start the fresh batch.
pub proof fn lemma_flush_only_past_capacity(
    s: BatchState,
    vertex_count: nat,
    indices: Seq<u16>,
    texture: Option<Seq<char>>,
    t: BatchState,
    c: DrawCommand,
)
    requires
        draw_post(s, vertex_count, indices, texture, t, c),
        s.index_count() + indices.len() <= s.index_capacity(),
        match texture {
            Some(name) => !table_full_for(s.slots(), name),
            None => true,
        },
    ensures
        s.vertex_count() + vertex_count <= s.vertex_capacity() ==> {
            &&& c.flush is None
            &&& c.first_vertex == s.vertex_count()
            &&& t.vertex_count() == s.vertex_count() + vertex_count
        },
        s.vertex_count() + vertex_count > s.vertex_capacity() ==> {
            &&& c.flush is Some
            &&& c.first_vertex == 0
            &&& t.vertex_count() == vertex_count
        },
{
}

/// Within one batch, two draws that name the same texture get the same slot.
pub proof fn lemma_same_texture_same_slot(
    s0: BatchState,
    name: Seq<char>,
    vertex_count1: nat,
    indices1: Seq<u16>,
    s1: BatchState,
    c1: DrawCommand,
    vertex_count2: nat,
    indices2: Seq<u16>,
    s2: BatchState,
    c2: DrawCommand,
)
    requires
        s0.wf(),
        draw_post(s0, vertex_count1, indices1, Some(name), s1, c1),
        draw_post(s1, vertex_count2, indices2, Some(name), s2, c2),
        c2.flush is None,
    ensures
        c2.texture_slot is Some,
        c2.texture_slot == c1.texture_slot,
{
    let table = if c1.flush is Some { empty_slots() } else { s0.slots() };
    let k = c1.texture_slot->0 as int;
    let k2 = c2.texture_slot->0 as int;
    lemma_empty_well_formed();
    lemma_claim_slot(table, name, k);
    let slots = s1.slots();
    assert(slots[k] == Some(name));
    if k2 > k {
        assert(slots[k] != Some(name));
    } else if k2 < k {
        if slots[k2] is None {
            assert(slots[k] is None);
        } else {
            assert(slots[k2] != slots[k]);
        }
    }
}

/// A texture that finds every slot taken by other names flushes once, and takes the
/// first slot of the fresh batch.
pub proof fn lemma_full_table_flushes(
    s: BatchState,
    name: Seq<char>,
    vertex_count: nat,
    indices: Seq<u16>,
    t: BatchState,
    c: DrawCommand,
)
    requires
        s.wf(),
        draw_post(s, vertex_count, indices, Some(name), t, c),
        forall|j: int| 0 <= j < MAX_TEXTURES_PER_DRAW_CALL ==> s.slots()[j] is Some && s.slots()[j]
            != Some(name),
    ensures
        c.flush is Some,
        c.texture_slot == Some(0usize),
        t.slots() == empty_slots().update(0, Some(name)),
        t.vertex_count() == vertex_count,
{
    assert(s.slots()[0] is Some);
    assert(empty_slots()[0] is None);
}

/// Claiming the slot that a name is owed keeps the table well formed.
proof fn lemma_claim_slot(slots: Seq<Option<Seq<char>>>, name: Seq<char>, k: int)
    requires
        slots_well_formed(slots),
        is_slot_for(slots, name, k),
    ensures
        slots_well_formed(slots.update(k, Some(name))),
{
    let t = slots.update(k, Some(name));
    assert forall|i: int, j: int|
        #![trigger t[i], t[j]]
        0 <= i < j < t.len() && t[i] is None implies t[j] is None by {
        assert(slots[i] is None);
        if j == k {
            assert(slots[k] is None || slots[k] == Some(name));
        }
    }
    assert forall|i: int, j: int|
        0 <= i < t.len() && 0 <= j < t.len() && i != j && t[i] is Some implies t[i] != t[j] by {
        if i == k && slots[k] is None && j > k {
            assert(slots[j] is None);
        }
        if j == k && slots[k] is None && i > k {
            assert(slots[i] is None);
        }
    }
}

proof fn lemma_empty_well_formed()
    ensures
        slots_well_formed(empty_slots()),
{
}

/// A table whose slots are all empty.
fn empty_table() -> (v: Vec<Option<String>>)
    ensures
        names_view(v@) == empty_slots(),
{
    let mut v: Vec<Option<String>> = Vec::new();
    let mut i: usize = 0;
    while i < MAX_TEXTURES_PER_DRAW_CALL
        invariant
            i <= MAX_TEXTURES_PER_DRAW_CALL,
            v@.len() == i,
            forall|j: int| 0 <= j < i ==> v@[j] is None,
        decreases MAX_TEXTURES_PER_DRAW_CALL - i,
    {
        v.push(None);
        i = i + 1;
    }
    assert(names_view(v@) =~= empty_slots());
    v
}

/// The slot that `name` is owed in `table`, or `None` where the table is full.
fn find_slot(table: &Vec<Option<String>>, name: &String) -> (r: Option<usize>)
    ensures
        r is None <==> table_full_for(names_view(table@), name@),
        match r {
            Some(k) => is_slot_for(names_view(table@), name@, k as int),
            None => true,
        },
{
    let ghost slots = names_view(table@);
    let mut i: usize = 0;
    while i < table.len()
        invariant
            i <= table@.len(),
            slots == names_view(table@),
            forall|j: int| 0 <= j < i ==> slots[j] is Some && slots[j] != Some(name@),
        decreases table@.len() - i,
    {
        match &table[i] {
            None => {
                assert(slots[i as int] is None);
                return Some(i);
            },
            Some(s) => {
                assert(slots[i as int] == Some(s@));
                if s.eq(name) {
                    return Some(i);
                }
            },
        }
        i = i + 1;
    }
    None
}

/// Adds `base` to every index.
fn rebase_indices(indices: &Vec<u16>, base: u32) -> (r: Vec<u16>)
    requires
        forall|i: int| 0 <= i < indices@.len() ==> indices@[i] + base <= u16::MAX,
    ensures
        r@.len() == indices@.len(),
        forall|i: int| 0 <= i < indices@.len() ==> r@[i] == indices@[i] + base,
{
    let mut r: Vec<u16> = Vec::new();
    let mut i: usize = 0;
    while i < indices.len()
        invariant
            i <= indices@.len(),
            r@.len() == i,
            forall|j: int| 0 <= j < indices@.len() ==> indices@[j] + base <= u16::MAX,
            forall|j: int| 0 <= j < i ==> r@[j] == indices@[j] + base,
        decreases indices@.len() - i,
    {
        r.push((indices[i] as u32 + base) as u16);
        i = i + 1;
    }
    r
}

impl BatchState {
    /// Room for this many vertices in the vertex buffer.
    pub closed spec fn vertex_capacity(&self) -> nat {
        self.max_vertices as nat
    }

    /// Room for this many indices in the index buffer.
    pub closed spec fn index_capacity(&self) -> nat {
        self.max_indices as nat
    }

    /// Vertices written since the last flush.
    pub closed spec fn vertex_count(&self) -> nat {
        self.num_vertices as nat
    }

    /// Indices written since the last flush.
    pub closed spec fn index_count(&self) -> nat {
        self.num_indices as nat
    }

    /// The texture held by each slot of the batch being gathered.
    pub closed spec fn slots(&self) -> Seq<Option<Seq<char>>> {
        names_view(self.draw_call_textures@)
    }

    /// A flush has happened in the current bracket.
    pub closed spec fn has_flushed(&self) -> bool {
        self.flushed_this_frame
    }

    /// A render bracket is open.
    pub closed spec fn bracket_open(&self) -> bool {
        self.open
    }

    pub closed spec fn wf(&self) -> bool {
        &&& self.max_vertices <= MAX_ADDRESSABLE_VERTICES
        &&& self.num_vertices <= self.max_vertices
        &&& self.num_indices <= self.max_indices
        &&& self.draw_call_textures@.len() == MAX_TEXTURES_PER_DRAW_CALL
        &&& slots_well_formed(self.slots())
    }

    /// An idle batch over buffers of `max_vertices` vertices and `max_indices` indices.
    pub fn new(max_vertices: u32, max_indices: u32) -> (r: BatchState)
        requires
            max_vertices <= MAX_ADDRESSABLE_VERTICES,
        ensures
            r.wf(),
            slots_well_formed(r.slots()),
            r.vertex_capacity() == max_vertices,
            r.index_capacity() == max_indices,
            r.vertex_count() == 0,
            r.index_count() == 0,
            r.slots() == empty_slots(),
            !r.has_flushed(),
            !r.bracket_open(),
    {
        proof {
            lemma_empty_well_formed();
        }
        BatchState {
            max_vertices,
            max_indices,
            num_vertices: 0,
            num_indices: 0,
            draw_call_textures: empty_table(),
            flushed_this_frame: false,
            open: false,
        }
    }

    pub fn max_vertices(&self) -> (r: u32)
        ensures
            r == self.vertex_capacity(),
    {
        self.max_vertices
    }

    pub fn max_indices(&self) -> (r: u32)
        ensures
            r == self.index_capacity(),
    {
        self.max_indices
    }

    pub fn num_vertices(&self) -> (r: u32)
        ensures
            r == self.vertex_count(),
    {
        self.num_vertices
    }

    pub fn num_indices(&self) -> (r: u32)
        ensures
            r == self.index_count(),
    {
        self.num_indices
    }

    pub fn is_open(&self) -> (r: bool)
        ensures
            r == self.bracket_open(),
    {
        self.open
    }

    /// The texture name in slot `i`, if any.
    pub fn slot_texture(&self, i: usize) -> (r: Option<String>)
        requires
            self.wf(),
            i < MAX_TEXTURES_PER_DRAW_CALL,
        ensures
            name_view(r) == self.slots()[i as int],
    {
        match &self.draw_call_textures[i] {
            Some(s) => Some(s.clone()),
            None => None,
        }
    }

    /// Hands over the batch gathered so far and starts an empty one.
    fn take_flush(&mut self) -> (f: FlushCommand)
        requires
            old(self).wf(),
        ensures
            final(self).wf(),
            flush_matches(*old(self), f),
            final(self).vertex_capacity() == old(self).vertex_capacity(),
            final(self).index_capacity() == old(self).index_capacity(),
            final(self).vertex_count() == 0,
            final(self).index_count() == 0,
            final(self).slots() == empty_slots(),
            final(self).has_flushed(),
            final(self).bracket_open() == old(self).bracket_open(),
    {
        let mut textures = empty_table();
        std::mem::swap(&mut textures, &mut self.draw_call_textures);
        let f = FlushCommand {
            index_count: self.num_indices,
            clear_target: !self.flushed_this_frame,
            textures,
        };
        self.num_vertices = 0;
        self.num_indices = 0;
        self.flushed_this_frame = true;
        proof {
            lemma_empty_well_formed();
        }
        f
    }

    /// Opens a render bracket.
    pub fn begin_render(&mut self)
        requires
            old(self).wf(),
            !old(self).bracket_open(),
        ensures
            final(self).wf(),
            slots_well_formed(final(self).slots()),
            final(self).bracket_open(),
            !final(self).has_flushed(),
            final(self).vertex_capacity() == old(self).vertex_capacity(),
            final(self).index_capacity() == old(self).index_capacity(),
            final(self).vertex_count() == 0,
            final(self).index_count() == 0,
            final(self).slots() == empty_slots(),
    {
        self.open = true;
        self.flushed_this_frame = false;
        self.num_vertices = 0;
        self.num_indices = 0;
        self.draw_call_textures = empty_table();
        proof {
            lemma_empty_well_formed();
        }
    }

    /// Closes the render bracket with a last flush.
    pub fn end_render(&mut self) -> (f: FlushCommand)
        requires
            old(self).wf(),
            old(self).bracket_open(),
        ensures
            final(self).wf(),
            slots_well_formed(final(self).slots()),
            flush_matches(*old(self), f),
            !final(self).bracket_open(),
            final(self).vertex_capacity() == old(self).vertex_capacity(),
            final(self).index_capacity() == old(self).index_capacity(),
            final(self).vertex_count() == 0,
            final(self).index_count() == 0,
            final(self).slots() == empty_slots(),
    {
        let f = self.take_flush();
        self.open = false;
        f
    }

    /// Whether a shape of `vertex_count` vertices and local indices `indices` can be
    /// drawn now, and if not, the first reason why.
    pub fn check_draw(&self, vertex_count: usize, indices: &Vec<u16>) -> (r: Result<(), DrawError>)
        ensures
            r is Ok <==> {
                &&& self.bracket_open()
                &&& vertex_count <= self.vertex_capacity()
                &&& indices@.len() <= self.index_capacity()
                &&& forall|i: int| 0 <= i < indices@.len() ==> indices@[i] < vertex_count
            },
            r == Err::<(), DrawError>(DrawError::NotRendering) <==> !self.bracket_open(),
            r == Err::<(), DrawError>(DrawError::TooManyIndices) <==> self.bracket_open()
                && indices@.len() > self.index_capacity(),
            r == Err::<(), DrawError>(DrawError::TooManyVertices) <==> self.bracket_open()
                && indices@.len() <= self.index_capacity() && vertex_count
                > self.vertex_capacity(),
    {
        if !self.open {
            return Err(DrawError::NotRendering);
        }
        if indices.len() as u64 > self.max_indices as u64 {
            return Err(DrawError::TooManyIndices);
        }
        if vertex_count as u64 > self.max_vertices as u64 {
            return Err(DrawError::TooManyVertices);
        }
        let mut i: usize = 0;
        while i < indices.len()
            invariant
                self.open,
                indices@.len() <= self.max_indices,
                vertex_count <= self.max_vertices,
                i <= indices@.len(),
                forall|j: int| 0 <= j < i ==> indices@[j] < vertex_count,
            decreases indices@.len() - i,
        {
            if indices[i] as usize >= vertex_count {
                return Err(DrawError::IndexOutOfRange);
            }
            i = i + 1;
        }
        Ok(())
    }

    /// Takes in one shape: `vertex_count` vertices, `indices` local to them, and the
    /// texture it names. Flushes first where the shape does not fit or its texture
    /// finds no slot, then claims the texture's slot and moves the cursors past it.
    pub fn draw(&mut self, vertex_count: usize, indices: &Vec<u16>, texture: Option<String>) -> (c:
        DrawCommand)
        requires
            old(self).wf(),
            old(self).bracket_open(),
            vertex_count <= old(self).vertex_capacity(),
            indices@.len() <= old(self).index_capacity(),
            forall|i: int| 0 <= i < indices@.len() ==> indices@[i] < vertex_count,
        ensures
            final(self).wf(),
            slots_well_formed(final(self).slots()),
            draw_post(
                *old(self),
                vertex_count as nat,
                indices@,
                name_view(texture),
                *final(self),
                c,
            ),
    {
        let mut flush: Option<FlushCommand> = None;
        if indices.len() as u64 + self.num_indices as u64 > self.max_indices as u64
            || vertex_count as u64 + self.num_vertices as u64 > self.max_vertices as u64 {
            flush = Some(self.take_flush());
        }
        let ghost capacity_flush = flush is Some;
        let ghost table = self.slots();
        let mut texture_slot: Option<usize> = None;
        match texture {
            Some(name) => {
                let k = match find_slot(&self.draw_call_textures, &name) {
                    Some(k) => k,
                    None => {
                        assert(!capacity_flush) by {
                            if capacity_flush {
                                assert(!(table[0] is Some));
                            }
                        }
                        flush = Some(self.take_flush());
                        assert(is_slot_for(self.slots(), name@, 0));
                        0
                    },
                };
                let ghost before = self.slots();
                proof {
                    lemma_claim_slot(before, name@, k as int);
                }
                self.draw_call_textures.set(k, Some(name));
                assert(self.slots() =~= before.update(k as int, Some(name@)));
                texture_slot = Some(k);
            },
            None => {},
        }
        let first_vertex = self.num_vertices;
        let first_index = self.num_indices;
        let rebased = rebase_indices(indices, first_vertex);
        self.num_vertices = self.num_vertices + vertex_count as u32;
        self.num_indices = self.num_indices + indices.len() as u32;
        DrawCommand { flush, texture_slot, first_vertex, first_index, indices: rebased }
    }
}

} // verus!
