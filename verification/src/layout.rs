//! Vertex-attribute layout description and the buffer binding built from it.
//!
//! A schema lists the attribute slots of one interleaved vertex: each slot
//! names its location, how many float components it takes, and whether the
//! driver normalizes them. Stride and per-slot byte offsets are derived from
//! the schema alone, so buffer and attribute declarations cannot disagree; a
//! mismatch there is the silent-corruption class this module exists to rule
//! out.

use vstd::prelude::*;

use crate::handle::HandleLedger;
use crate::state::{bind_array_step, RenderState};

verus! {

/// Size of one float component in bytes.
pub const FLOAT_BYTES: u32 = 4;

/// The most attribute slots one vertex may declare.
pub const MAX_ATTRIBUTES: usize = 16;

/// One attribute slot of an interleaved vertex.
#[derive(Clone, Copy, PartialEq, Eq, Structural, Debug)]
pub struct AttributeSlot {
    /// The input location the pipeline reads this attribute from.
    pub location: u32,
    /// How many float components the slot takes, between one and four.
    pub components: u32,
    /// Whether the driver normalizes the components on read.
    pub normalized: bool,
}

/// How many float components the first `i` slots take together.
pub open spec fn floats_before(slots: Seq<AttributeSlot>, i: int) -> int
    decreases i,
{
    if i <= 0 {
        0
    } else {
        floats_before(slots, i - 1) + slots[i - 1].components
    }
}

/// How many floats one whole vertex takes under `slots`.
pub open spec fn floats_per_vertex_of(slots: Seq<AttributeSlot>) -> int {
    floats_before(slots, slots.len() as int)
}

/// A usable schema: at least one slot, no more than the driver guarantees,
/// every component count between one and four, and no location used twice.
pub open spec fn schema_wf(slots: Seq<AttributeSlot>) -> bool {
    &&& 0 < slots.len() <= MAX_ATTRIBUTES
    &&& forall|k: int| 0 <= k < slots.len() ==> 1 <= (#[trigger] slots[k]).components <= 4
    &&& forall|p: int, q: int|
        0 <= p < q < slots.len() ==> slots[p].location != slots[q].location
}

/// With component counts between one and four, the float total of a prefix is
/// pinned between the slot count and four times the slot count.
pub proof fn lemma_floats_before_bounds(slots: Seq<AttributeSlot>, i: int)
    requires
        0 <= i <= slots.len(),
        forall|k: int| 0 <= k < slots.len() ==> 1 <= (#[trigger] slots[k]).components <= 4,
    ensures
        i <= floats_before(slots, i) <= 4 * i,
    decreases i,
{
    if i > 0 {
        lemma_floats_before_bounds(slots, i - 1);
    }
}

/// The attribute schema of one interleaved vertex.
pub struct VertexSchema {
    slots: Vec<AttributeSlot>,
}

/// One attribute declaration for the collaborator that executes driver calls:
/// everything a vertex-attribute-pointer call needs, with stride and offset
/// already derived from the schema.
#[derive(Clone, Copy, PartialEq, Eq, Structural, Debug)]
pub struct AttributeCommand {
    pub location: u32,
    pub components: u32,
    pub normalized: bool,
    pub stride_bytes: u32,
    pub offset_bytes: u32,
}

impl VertexSchema {
    /// The slots, in buffer order.
    pub closed spec fn slots_seq(&self) -> Seq<AttributeSlot> {
        self.slots@
    }

    /// The schema is usable.
    pub open spec fn wf(&self) -> bool {
        schema_wf(self.slots_seq())
    }

    /// How many floats one vertex takes.
    pub open spec fn floats_per_vertex_spec(&self) -> int {
        floats_per_vertex_of(self.slots_seq())
    }

    /// Distance in bytes from one vertex's data to the next.
    pub open spec fn stride_bytes_spec(&self) -> int {
        FLOAT_BYTES * self.floats_per_vertex_spec()
    }

    /// Where slot `i`'s data starts inside one vertex, in bytes.
    pub open spec fn offset_bytes_spec(&self, i: int) -> int {
        FLOAT_BYTES * floats_before(self.slots_seq(), i)
    }

    /// Builds a schema, refusing slot lists no driver call sequence could
    /// declare faithfully: none at all, more than the driver guarantees, a
    /// component count outside one to four, or a location used twice.
    pub fn new(slots: Vec<AttributeSlot>) -> (r: Option<VertexSchema>)
        ensures
            r is Some <==> schema_wf(slots@),
            r matches Some(s) ==> s.slots_seq() == slots@ && s.wf(),
    {
        if slots.len() == 0 || slots.len() > MAX_ATTRIBUTES {
            return None;
        }
        let mut i: usize = 0;
        while i < slots.len()
            invariant
                i <= slots@.len(),
                forall|k: int| 0 <= k < i ==> 1 <= (#[trigger] slots@[k]).components <= 4,
                forall|p: int, q: int|
                    0 <= p < q < i ==> slots@[p].location != slots@[q].location,
            decreases slots@.len() - i,
        {
            if slots[i].components < 1 || slots[i].components > 4 {
                return None;
            }
            let mut j: usize = 0;
            while j < i
                invariant
                    j <= i < slots@.len(),
                    forall|p: int| 0 <= p < j ==> slots@[p].location != slots@[i as int].location,
                decreases i - j,
            {
                if slots[j].location == slots[i].location {
                    return None;
                }
                j += 1;
            }
            i += 1;
        }
        Some(VertexSchema { slots })
    }

    /// How many attribute slots the schema declares.
    pub fn slot_count(&self) -> (n: usize)
        ensures
            n == self.slots_seq().len(),
    {
        self.slots.len()
    }

    /// How many floats one vertex takes: the sum of all component counts.
    pub fn floats_per_vertex(&self) -> (n: u32)
        requires
            self.wf(),
        ensures
            n == self.floats_per_vertex_spec(),
            1 <= n <= 4 * MAX_ATTRIBUTES,
    {
        let mut total: u32 = 0;
        let mut i: usize = 0;
        while i < self.slots.len()
            invariant
                self.wf(),
                i <= self.slots_seq().len(),
                total == floats_before(self.slots_seq(), i as int),
                total <= 4 * i,
            decreases self.slots_seq().len() - i,
        {
            total += self.slots[i].components;
            i += 1;
        }
        proof {
            lemma_floats_before_bounds(self.slots_seq(), self.slots_seq().len() as int);
        }
        total
    }

    /// Distance in bytes from one vertex's data to the next.
    pub fn stride_bytes(&self) -> (n: u32)
        requires
            self.wf(),
        ensures
            n == self.stride_bytes_spec(),
    {
        FLOAT_BYTES * self.floats_per_vertex()
    }

    /// Where slot `i`'s data starts inside one vertex, in bytes.
    pub fn offset_bytes(&self, i: usize) -> (n: u32)
        requires
            self.wf(),
            i < self.slots_seq().len(),
        ensures
            n == self.offset_bytes_spec(i as int),
    {
        let mut total: u32 = 0;
        let mut k: usize = 0;
        while k < i
            invariant
                self.wf(),
                k <= i < self.slots_seq().len(),
                total == floats_before(self.slots_seq(), k as int),
                total <= 4 * k,
            decreases i - k,
        {
            total += self.slots[k].components;
            k += 1;
        }
        FLOAT_BYTES * total
    }

    /// Whether a flat float array of `float_count` entries cuts into whole
    /// vertices under this schema. Data that fails this check is rejected
    /// before any upload.
    pub fn accepts(&self, float_count: usize) -> (r: bool)
        requires
            self.wf(),
        ensures
            r == (float_count as int % self.floats_per_vertex_spec() == 0),
    {
        let fpv = self.floats_per_vertex();
        float_count % (fpv as usize) == 0
    }

    /// One attribute declaration per slot, each carrying the shared stride
    /// and its own byte offset, in slot order.
    pub fn attribute_plan(&self) -> (plan: Vec<AttributeCommand>)
        requires
            self.wf(),
        ensures
            plan@.len() == self.slots_seq().len(),
            forall|i: int|
                0 <= i < plan@.len() ==> (#[trigger] plan@[i]) == (AttributeCommand {
                    location: self.slots_seq()[i].location,
                    components: self.slots_seq()[i].components,
                    normalized: self.slots_seq()[i].normalized,
                    stride_bytes: self.stride_bytes_spec() as u32,
                    offset_bytes: self.offset_bytes_spec(i) as u32,
                }),
    {
        let stride = self.stride_bytes();
        let mut plan: Vec<AttributeCommand> = Vec::new();
        let mut offset_floats: u32 = 0;
        let mut i: usize = 0;
        while i < self.slots.len()
            invariant
                self.wf(),
                i <= self.slots_seq().len(),
                stride == self.stride_bytes_spec(),
                offset_floats == floats_before(self.slots_seq(), i as int),
                offset_floats <= 4 * i,
                plan@.len() == i,
                forall|k: int|
                    0 <= k < i ==> (#[trigger] plan@[k]) == (AttributeCommand {
                        location: self.slots_seq()[k].location,
                        components: self.slots_seq()[k].components,
                        normalized: self.slots_seq()[k].normalized,
                        stride_bytes: self.stride_bytes_spec() as u32,
                        offset_bytes: self.offset_bytes_spec(k) as u32,
                    }),
            decreases self.slots_seq().len() - i,
        {
            let slot = self.slots[i];
            plan.push(
                AttributeCommand {
                    location: slot.location,
                    components: slot.components,
                    normalized: slot.normalized,
                    stride_bytes: stride,
                    offset_bytes: FLOAT_BYTES * offset_floats,
                },
            );
            offset_floats += slot.components;
            i += 1;
        }
        plan
    }
}

/// What the driver reported for one upload: the freshly created buffer
/// object's handle and vertex-array object's handle.
pub struct UploadReport {
    pub buffer: u32,
    pub array: u32,
}

/// An uploaded, write-once vertex buffer together with the schema that
/// describes how its bytes decompose into attribute slots.
pub struct VertexLayoutBinding {
    buffer: u32,
    array: u32,
    schema: VertexSchema,
    vertex_count: usize,
}

impl VertexLayoutBinding {
    /// The buffer object's handle.
    pub closed spec fn buffer_spec(&self) -> u32 {
        self.buffer
    }

    /// The vertex-array object's handle.
    pub closed spec fn array_spec(&self) -> u32 {
        self.array
    }

    /// The schema the buffer was uploaded under.
    pub closed spec fn schema_spec(&self) -> VertexSchema {
        self.schema
    }

    /// How many whole vertices the buffer holds.
    pub closed spec fn vertex_count_spec(&self) -> int {
        self.vertex_count as int
    }

    /// Both handles are real driver objects and the schema is usable. The
    /// two names come from different driver name spaces, so they may well be
    /// equal numbers.
    pub open spec fn wf(&self) -> bool {
        &&& self.buffer_spec() != 0
        &&& self.array_spec() != 0
        &&& self.schema_spec().wf()
    }

    /// Everything `bind` asks of a binding.
    pub open spec fn bind_ready(&self) -> bool {
        self.wf()
    }

    /// Takes ownership of the buffer and vertex-array objects the driver
    /// created for a one-time upload of `float_count` floats, interleaved as
    /// `schema` describes.
    ///
    /// Buffer names and vertex-array names live in separate driver name
    /// spaces, so each goes into the ledger of its own name space; the two
    /// numbers may coincide.
    ///
    /// The data must cut into whole vertices; data that does not is rejected
    /// before upload by `VertexSchema::accepts`, which callers check first.
    pub fn upload(
        schema: VertexSchema,
        float_count: usize,
        report: UploadReport,
        buffers: &mut HandleLedger,
        arrays: &mut HandleLedger,
    ) -> (b: VertexLayoutBinding)
        requires
            schema.wf(),
            float_count as int % schema.floats_per_vertex_spec() == 0,
            old(buffers).wf(),
            old(arrays).wf(),
            report.buffer != 0,
            report.array != 0,
            !old(buffers).is_live(report.buffer),
            !old(arrays).is_live(report.array),
        ensures
            b.wf(),
            b.schema_spec() == schema,
            b.buffer_spec() == report.buffer,
            b.array_spec() == report.array,
            b.vertex_count_spec() == float_count as int / schema.floats_per_vertex_spec(),
            b.vertex_count_spec() * schema.floats_per_vertex_spec() == float_count as int,
            final(buffers).wf(),
            final(arrays).wf(),
            final(buffers).live() == old(buffers).live().push(report.buffer),
            final(arrays).live() == old(arrays).live().push(report.array),
            final(buffers).is_live(report.buffer),
            final(arrays).is_live(report.array),
            forall|x: u32|
                x != report.buffer ==> final(buffers).is_live(x) == old(buffers).is_live(x),
            forall|x: u32|
                x != report.array ==> final(arrays).is_live(x) == old(arrays).is_live(x),
    {
        buffers.acquire(report.buffer);
        arrays.acquire(report.array);
        let fpv = schema.floats_per_vertex();
        let vertex_count = float_count / (fpv as usize);
        proof {
            let fc = float_count as int;
            let f = fpv as int;
            vstd::arithmetic::div_mod::lemma_fundamental_div_mod(fc, f);
            assert(fc == f * (fc / f) + fc % f);
            assert(fc % f == 0);
            assert(vertex_count as int == fc / f);
            assert((fc / f) * f == f * (fc / f)) by (nonlinear_arith);
        }
        VertexLayoutBinding { buffer: report.buffer, array: report.array, schema, vertex_count }
    }

    /// The buffer object's handle, for the collaborator that executes driver
    /// calls.
    pub fn buffer_id(&self) -> (r: u32)
        ensures
            r == self.buffer_spec(),
    {
        self.buffer
    }

    /// The vertex-array object's handle, for the collaborator that executes
    /// driver calls.
    pub fn array_id(&self) -> (r: u32)
        ensures
            r == self.array_spec(),
    {
        self.array
    }

    /// The schema the buffer was uploaded under.
    pub fn schema(&self) -> (r: &VertexSchema)
        ensures
            *r == self.schema_spec(),
    {
        &self.schema
    }

    /// How many whole vertices the buffer holds: the number a full draw of
    /// this binding rasterizes.
    pub fn vertex_count(&self) -> (n: usize)
        ensures
            n == self.vertex_count_spec(),
    {
        self.vertex_count
    }

    /// Makes this layout and its buffer the source for the next draw call.
    pub fn bind(&self, state: &mut RenderState)
        requires
            self.bind_ready(),
        ensures
            *final(state) == bind_array_step(*old(state), self.array_spec()),
            final(state).active_array == Some(self.array_spec()),
            final(state).active_program == old(state).active_program,
    {
        state.active_array = Some(self.array);
    }

    /// Gives both handles back for deletion, the vertex array before the
    /// buffer it reads (reverse acquisition order), each to the ledger of its
    /// own name space. Consuming the binding makes a second release
    /// impossible.
    pub fn release(self, buffers: &mut HandleLedger, arrays: &mut HandleLedger)
        requires
            old(buffers).wf(),
            old(arrays).wf(),
            old(buffers).is_live(self.buffer_spec()),
            old(arrays).is_live(self.array_spec()),
        ensures
            final(buffers).wf(),
            final(arrays).wf(),
            !final(buffers).is_live(self.buffer_spec()),
            !final(arrays).is_live(self.array_spec()),
            forall|x: u32|
                x != self.buffer_spec() ==> final(buffers).is_live(x) == old(buffers).is_live(x),
            forall|x: u32|
                x != self.array_spec() ==> final(arrays).is_live(x) == old(arrays).is_live(x),
            final(buffers).live().len() == old(buffers).live().len() - 1,
            final(arrays).live().len() == old(arrays).live().len() - 1,
    {
        arrays.release(self.array);
        buffers.release(self.buffer);
    }
}

} // verus!
