//! Geometry upload: vertex bytes, optional 16-bit indices, and the
//! attribute layout that describes the interleaved records.

use vstd::prelude::*;
use crate::pipeline::AttributeDescriptor;
use crate::pipeline::PipelineContext;

verus! {

/// The buffers one geometry upload produced: the vertex buffer, the index
/// buffer (0 when no indices were given), the persistent layout object
/// (0 on the legacy path), and the element counts the draw call uses.
/// Created once at initialize time, immutable thereafter.
#[derive(Clone, Copy, PartialEq, Eq, Structural, Debug)]
pub struct GeometryHandle {
    pub vertex_buffer: u32,
    pub index_buffer: u32,
    pub vertex_array: u32,
    pub vertex_count: u32,
    pub index_count: u32,
}

/// The little-endian byte image of a 16-bit index list.
pub open spec fn le_bytes(s: Seq<u16>) -> Seq<u8> {
    Seq::new(
        2 * s.len(),
        |i: int|
            if i % 2 == 0 {
                (s[i / 2] % 256) as u8
            } else {
                (s[i / 2] / 256) as u8
            },
    )
}

/// Encodes a 16-bit index list as its little-endian byte image.
pub fn encode_indices(v: &Vec<u16>) -> (r: Vec<u8>)
    requires
        v@.len() * 2 <= usize::MAX,
    ensures
        r@ == le_bytes(v@),
{
    let mut out: Vec<u8> = Vec::new();
    let mut i: usize = 0;
    while i < v.len()
        invariant
            v@.len() * 2 <= usize::MAX,
            i <= v@.len(),
            out@ == le_bytes(v@).take(2 * i as int),
        decreases v@.len() - i,
    {
        let x = v[i];
        out.push((x % 256) as u8);
        out.push((x / 256) as u8);
        proof {
            assert(out@ =~= le_bytes(v@).take(2 * (i as int + 1)));
        }
        i = i + 1;
    }
    proof {
        assert(le_bytes(v@).take(2 * v@.len() as int) =~= le_bytes(v@));
    }
    out
}

/// One attribute descriptor is internally consistent: one to four float
/// components, and the record it reads fits between its offset and the
/// stride (stride 0 means tightly packed from offset 0).
pub open spec fn attribute_wf(a: AttributeDescriptor) -> bool {
    &&& 1 <= a.component_count <= 4
    &&& (a.stride_bytes == 0 ==> a.offset_bytes == 0)
    &&& (a.stride_bytes > 0 ==> a.offset_bytes + a.component_count * 4 <= a.stride_bytes)
}

/// The byte size of one interleaved vertex record under layout `l`.
pub open spec fn record_size(l: Seq<AttributeDescriptor>) -> int {
    if l[0].stride_bytes == 0 {
        l[0].component_count * 4
    } else {
        l[0].stride_bytes as int
    }
}

/// A layout is well formed: non-empty, every descriptor consistent, all
/// descriptors sharing one stride, and a tightly packed (stride 0) layout
/// having exactly one attribute.
pub open spec fn layout_wf(l: Seq<AttributeDescriptor>) -> bool {
    &&& l.len() > 0
    &&& forall|i: int|
        0 <= i < l.len() ==> attribute_wf(#[trigger] l[i]) && l[i].stride_bytes
            == l[0].stride_bytes
    &&& (l[0].stride_bytes == 0 ==> l.len() == 1)
}

/// The caller-supplied contract of an upload: stride and offsets are
/// consistent with the interleaved record size, and the vertex bytes hold
/// exactly `vertex_count` records.
pub open spec fn geometry_consistent(
    l: Seq<AttributeDescriptor>,
    data_len: int,
    vertex_count: u32,
) -> bool {
    &&& layout_wf(l)
    &&& data_len == vertex_count * record_size(l)
}

/// Exactly what [`upload`] does to the pipeline and returns.
pub open spec fn upload_post(
    pre: PipelineContext,
    post: PipelineContext,
    vertex_data: Seq<u8>,
    indices: Option<Seq<u16>>,
    layout: Seq<AttributeDescriptor>,
    persistent: bool,
    vertex_count: u32,
    g: GeometryHandle,
) -> bool {
    &&& g.vertex_buffer as int == pre.buffers@.len() + 1
    &&& post.valid_buffer(g.vertex_buffer)
    &&& post.buffer_at(g.vertex_buffer).data@ == vertex_data
    &&& g.vertex_count == vertex_count
    &&& match indices {
        Some(ix) => {
            &&& g.index_buffer as int == pre.buffers@.len() + 2
            &&& post.valid_buffer(g.index_buffer)
            &&& post.buffer_at(g.index_buffer).data@ == le_bytes(ix)
            &&& g.index_count as int == ix.len()
            &&& post.buffers@.len() == pre.buffers@.len() + 2
        },
        None => {
            &&& g.index_buffer == 0
            &&& g.index_count == 0
            &&& post.buffers@.len() == pre.buffers@.len() + 1
        },
    }
    &&& post.buffers@.take(pre.buffers@.len() as int) == pre.buffers@
    &&& if persistent {
        &&& g.vertex_array as int == pre.vertex_arrays@.len() + 1
        &&& post.valid_vertex_array(g.vertex_array)
        &&& post.vertex_arrays@ == pre.vertex_arrays@.push(post.vertex_array_at(g.vertex_array))
        &&& post.vertex_array_at(g.vertex_array).vertex_buffer == g.vertex_buffer
        &&& post.vertex_array_at(g.vertex_array).index_buffer == g.index_buffer
        &&& post.vertex_array_at(g.vertex_array).attributes@ == layout
        &&& post.vertex_array_at(g.vertex_array).enabled_slots@.len() == layout.len()
        &&& forall|i: int|
            0 <= i < layout.len() ==> post.vertex_array_at(g.vertex_array).enabled_slots@[i]
                == layout[i].slot
    } else {
        &&& g.vertex_array == 0
        &&& post.vertex_arrays@ == pre.vertex_arrays@
    }
    &&& post.shaders@ == pre.shaders@
    &&& post.programs@ == pre.programs@
    &&& post.alloc_budget == pre.alloc_budget
    &&& PipelineContext::same_render_state(pre, post)
    &&& PipelineContext::same_log(pre, post)
}

/// Uploads one immutable geometry: the vertex bytes into a fresh buffer,
/// the optional 16-bit index list into a second, using the "static, will
/// not change after upload" discipline — no incremental update exists.
///
/// When `persistent` is set, a layout object is also built that binds the
/// buffers and records, per slot named in `layout`, how the slot reads the
/// records; it fully describes how to re-issue the draw without
/// re-specifying attribute pointers each frame.  On the legacy path
/// (`persistent` false) the draw re-specifies the pointers itself.
pub fn upload(
    ctx: &mut PipelineContext,
    vertex_data: &Vec<u8>,
    indices: &Option<Vec<u16>>,
    layout: &Vec<AttributeDescriptor>,
    persistent: bool,
    vertex_count: u32,
) -> (g: GeometryHandle)
    requires
        old(ctx).wf(),
        geometry_consistent(layout@, vertex_data@.len() as int, vertex_count),
        old(ctx).buffers@.len() + 2 <= u32::MAX,
        old(ctx).vertex_arrays@.len() + 1 <= u32::MAX,
        match *indices {
            Some(ix) => ix@.len() * 2 <= usize::MAX && ix@.len() <= u32::MAX,
            None => true,
        },
    ensures
        final(ctx).wf(),
        upload_post(
            *old(ctx),
            *final(ctx),
            vertex_data@,
            index_view(*indices),
            layout@,
            persistent,
            vertex_count,
            g,
        ),
{
    let vertex_buffer = ctx.gen_buffer();
    ctx.buffer_data(vertex_buffer, vertex_data);
    let (index_buffer, index_count): (u32, u32) = match indices {
        Some(ix) => {
            let ib = ctx.gen_buffer();
            let encoded = encode_indices(ix);
            ctx.buffer_data(ib, &encoded);
            (ib, ix.len() as u32)
        },
        None => (0, 0),
    };
    proof {
        assert(ctx.buffers@.take(old(ctx).buffers@.len() as int) =~= old(ctx).buffers@);
    }
    let vertex_array: u32 = if persistent {
        let va = ctx.gen_vertex_array();
        ctx.vertex_array_attach(va, vertex_buffer, index_buffer);
        let mut i: usize = 0;
        while i < layout.len()
            invariant
                ctx.wf(),
                ctx.valid_vertex_array(va),
                va as int == old(ctx).vertex_arrays@.len() + 1,
                ctx.vertex_arrays@ == old(ctx).vertex_arrays@.push(ctx.vertex_array_at(va)),
                ctx.vertex_array_at(va).vertex_buffer == vertex_buffer,
                ctx.vertex_array_at(va).index_buffer == index_buffer,
                i <= layout@.len(),
                ctx.vertex_array_at(va).attributes@ == layout@.take(i as int),
                ctx.vertex_array_at(va).enabled_slots@.len() == i,
                forall|k: int|
                    0 <= k < i ==> ctx.vertex_array_at(va).enabled_slots@[k] == layout@[k].slot,
                ctx.shaders@ == old(ctx).shaders@,
                ctx.programs@ == old(ctx).programs@,
                vertex_buffer as int == old(ctx).buffers@.len() + 1,
                ctx.valid_buffer(vertex_buffer),
                ctx.buffer_at(vertex_buffer).data@ == vertex_data@,
                match *indices {
                    Some(ix) => {
                        &&& index_buffer as int == old(ctx).buffers@.len() + 2
                        &&& ctx.valid_buffer(index_buffer)
                        &&& ctx.buffer_at(index_buffer).data@ == le_bytes(ix@)
                        &&& index_count as int == ix@.len()
                        &&& ctx.buffers@.len() == old(ctx).buffers@.len() + 2
                    },
                    None => {
                        &&& index_buffer == 0
                        &&& index_count == 0
                        &&& ctx.buffers@.len() == old(ctx).buffers@.len() + 1
                    },
                },
                ctx.buffers@.take(old(ctx).buffers@.len() as int) == old(ctx).buffers@,
                ctx.alloc_budget == old(ctx).alloc_budget,
                PipelineContext::same_render_state(*old(ctx), *ctx),
                PipelineContext::same_log(*old(ctx), *ctx),
            decreases layout@.len() - i,
        {
            ctx.vertex_array_attribute(va, layout[i]);
            proof {
                assert(ctx.vertex_arrays@ =~= old(ctx).vertex_arrays@.push(
                    ctx.vertex_arrays@.last(),
                ));
                assert(layout@.take(i as int).push(layout@[i as int]) =~= layout@.take(
                    i as int + 1,
                ));
            }
            i = i + 1;
        }
        proof {
            assert(layout@.take(layout@.len() as int) =~= layout@);
        }
        va
    } else {
        0
    };
    proof {
        assert(ctx.buffers@.take(old(ctx).buffers@.len() as int) =~= old(ctx).buffers@);
    }
    GeometryHandle { vertex_buffer, index_buffer, vertex_array, vertex_count, index_count }
}

/// The index list as a mathematical value, when one was given.
pub open spec fn index_view(indices: Option<Vec<u16>>) -> Option<Seq<u16>> {
    match indices {
        Some(ix) => Some(ix@),
        None => None,
    }
}

/// Reads the uploaded vertex bytes back out of the pipeline.
pub fn read_back(ctx: &PipelineContext, g: &GeometryHandle) -> (r: Vec<u8>)
    requires
        ctx.valid_buffer(g.vertex_buffer),
    ensures
        r@ == ctx.buffer_at(g.vertex_buffer).data@,
{
    ctx.read_buffer(g.vertex_buffer)
}

/// Law: geometry upload round-trips — after an upload the vertex buffer
/// holds exactly the caller's bytes (so the readback path returns them
/// unchanged), and the index buffer, when present, holds exactly the
/// little-endian image of the caller's index list.
pub proof fn lemma_upload_round_trip(
    pre: PipelineContext,
    post: PipelineContext,
    vertex_data: Seq<u8>,
    indices: Option<Seq<u16>>,
    layout: Seq<AttributeDescriptor>,
    persistent: bool,
    vertex_count: u32,
    g: GeometryHandle,
)
    requires
        upload_post(pre, post, vertex_data, indices, layout, persistent, vertex_count, g),
    ensures
        post.valid_buffer(g.vertex_buffer),
        post.buffer_at(g.vertex_buffer).data@ == vertex_data,
        match indices {
            Some(ix) => post.valid_buffer(g.index_buffer) && post.buffer_at(
                g.index_buffer,
            ).data@ == le_bytes(ix),
            None => g.index_buffer == 0,
        },
{
}

} // verus!
