//! Sizing utilities and the small GPU-resident records: dispatch sizing for
//! the compute passes, the viewport uniform, vertex records, the color
//! buffer description, and the command vocabulary of one frame.
use vstd::prelude::*;

use crate::{le_word, le_words, lemma_le_words_push, push_le_word};

verus! {

/// Number of work items each compute work group covers.
pub const WORKGROUP_SIZE: u32 = 256;

/// The number of work groups that cover `len` work items, as the padding
/// formula computes it: `len` rounded up to the next multiple of 256, then
/// divided by 256.
pub open spec fn dispatch_groups(len: int) -> int {
    (len + ((256 - len % 256) % 256)) / 256
}

/// Number of work groups dispatched for `len` work items: the ceiling of
/// `len / WORKGROUP_SIZE`, and zero exactly when `len` is zero.
pub fn dispatch_size(len: u32) -> (groups: u32)
    requires
        len <= u32::MAX - (WORKGROUP_SIZE - 1),
    ensures
        groups == dispatch_groups(len as int),
        groups * WORKGROUP_SIZE >= len,
        (groups - 1) * WORKGROUP_SIZE < len,
        len == 0 ==> groups == 0,
{
    let subgroup_size = WORKGROUP_SIZE;
    let padded_size = (subgroup_size - len % subgroup_size) % subgroup_size;
    (len + padded_size) / subgroup_size
}

/// The work groups of a dispatch cover every work item, and one group fewer
/// would not: ceiling division, stated for every item count.
pub proof fn lemma_dispatch_size_covers(len: int)
    requires
        len >= 0,
    ensures
        dispatch_groups(len) * 256 >= len,
        (dispatch_groups(len) - 1) * 256 < len,
        len == 0 ==> dispatch_groups(len) == 0,
{
}

/// GPU mirror of the viewport size: the width and the height in pixels, each
/// as the bit pattern of its binary32 value.
#[derive(Clone, Copy, Debug, PartialEq, Eq, Structural)]
pub struct Uniform {
    pub screen_width: u32,
    pub screen_height: u32,
}

/// The byte image of the viewport uniform: width then height, each word in
/// little-endian order, eight bytes in all.
pub open spec fn uniform_bytes(u: Uniform) -> Seq<u8> {
    le_word(u.screen_width) + le_word(u.screen_height)
}

impl Uniform {
    /// A viewport uniform with the given width and height patterns.
    pub fn new(screen_width: u32, screen_height: u32) -> (r: Uniform)
        ensures
            r == (Uniform { screen_width, screen_height }),
    {
        Uniform { screen_width, screen_height }
    }

    /// The eight little-endian bytes of the uniform, as uploaded to the GPU.
    pub fn to_bytes(&self) -> (r: Vec<u8>)
        ensures
            r@ == uniform_bytes(*self),
            r@.len() == 8,
    {
        let mut out: Vec<u8> = Vec::new();
        push_le_word(&mut out, self.screen_width);
        push_le_word(&mut out, self.screen_height);
        proof {
            assert(out@ =~= uniform_bytes(*self));
        }
        out
    }
}

/// One triangle vertex: an object-space position, one binary32 bit pattern
/// per coordinate.
#[derive(Clone, Copy, Debug, PartialEq, Eq)]
pub struct Vertex {
    pub v: [u32; 3],
}

/// The byte image of one vertex: its three coordinate words in little-endian
/// order, twelve bytes in all.
pub open spec fn vertex_bytes(v: Vertex) -> Seq<u8> {
    le_words(v.v@)
}

impl Vertex {
    /// A vertex from its three coordinate patterns.
    pub fn new(x: u32, y: u32, z: u32) -> (r: Vertex)
        ensures
            r == (Vertex { v: [x, y, z] }),
            r.v@ == seq![x, y, z],
    {
        let r = Vertex { v: [x, y, z] };
        proof {
            assert(r.v@ =~= seq![x, y, z]);
        }
        r
    }

    /// The twelve little-endian bytes of the vertex.
    pub fn to_bytes(&self) -> (r: Vec<u8>)
        ensures
            r@ == vertex_bytes(*self),
            r@.len() == 12,
    {
        let mut out: Vec<u8> = Vec::new();
        push_le_word(&mut out, self.v[0]);
        push_le_word(&mut out, self.v[1]);
        push_le_word(&mut out, self.v[2]);
        proof {
            let v = self.v@;
            assert(v.take(0) =~= Seq::<u32>::empty());
            lemma_le_words_push(v.take(0), v[0]);
            assert(v.take(0).push(v[0]) =~= v.take(1));
            lemma_le_words_push(v.take(1), v[1]);
            assert(v.take(1).push(v[1]) =~= v.take(2));
            lemma_le_words_push(v.take(2), v[2]);
            assert(v.take(2).push(v[2]) =~= v.take(3));
            assert(v.take(3) =~= v);
            assert(out@ =~= vertex_bytes(*self));
        }
        out
    }
}

impl From<[u32; 3]> for Vertex {
    /// A vertex from a coordinate array, as read out of a model file.
    fn from(v: [u32; 3]) -> (r: Vertex) {
        Vertex { v }
    }
}

impl vstd::std_specs::convert::FromSpecImpl<[u32; 3]> for Vertex {
    open spec fn obeys_from_spec() -> bool {
        true
    }

    open spec fn from_spec(v: [u32; 3]) -> Vertex {
        Vertex { v }
    }
}

/// Description of the rasterization target: an identity tag that changes
/// whenever the buffer is reallocated, and the extent it was allocated for.
#[derive(Clone, Copy, Debug, PartialEq, Eq, Structural)]
pub struct ColorBuffer {
    pub id: u64,
    pub width: u32,
    pub height: u32,
}

/// Allocated bytes of a color buffer: one pixel per grid point, three
/// binary32 words of four bytes each per pixel.
pub open spec fn color_buffer_size(width: int, height: int) -> int {
    width * height * 12
}

impl ColorBuffer {
    /// Allocated bytes of this buffer.
    pub open spec fn size(self) -> int {
        color_buffer_size(self.width as int, self.height as int)
    }

    /// Allocated bytes of this buffer, for the allocation call.
    pub fn size_bytes(&self) -> (r: u64)
        requires
            self.size() <= u64::MAX,
        ensures
            r == self.size(),
    {
        let w = self.width as u64;
        let h = self.height as u64;
        proof {
            assert(w * h * 12 == self.size()) by (nonlinear_arith)
                requires
                    w == self.width,
                    h == self.height,
                    self.size() == self.width * self.height * 12,
            ;
            assert(w * h <= 0xFFFF_FFFF_FFFF_FFFF) by (nonlinear_arith)
                requires
                    w < 0x1_0000_0000,
                    h < 0x1_0000_0000,
            ;
        }
        w * h * 12
    }
}

/// A descriptor for a freshly allocated color buffer with the given identity
/// tag, sized to the given extent.
pub fn create_color_buffer(id: u64, width: u32, height: u32) -> (r: ColorBuffer)
    ensures
        r == (ColorBuffer { id, width, height }),
        r.size() == width * height * 12,
{
    ColorBuffer { id, width, height }
}

/// The compute stages and graphics stages of one frame.
#[derive(Clone, Copy, Debug, PartialEq, Eq, Structural)]
pub enum Stage {
    /// Zeroes the color buffer.
    Clear,
    /// Projects triangles and scatters pixel colors into the color buffer.
    Raster,
    /// Draws the color buffer to the surface with a full-screen triangle.
    Present,
    /// Draws the prerecorded line-list overlay.
    Lines,
}

/// The role a binding slot resolves to. Each stage declares its slots as a
/// fixed list of roles, checked against the recorded commands.
#[derive(Clone, Copy, Debug, PartialEq, Eq, Structural)]
pub enum SlotRole {
    /// The color buffer, written by a compute kernel.
    ColorReadWrite,
    /// The color buffer, sampled by the present stage.
    ColorReadOnly,
    /// The triangle vertex storage, read-only.
    VertexReadOnly,
    /// The viewport uniform.
    ScreenUniform,
    /// The camera uniform.
    CameraUniform,
}

/// One recorded GPU command of a frame. Buffer references carry the identity
/// tag of the buffer the bound resource set points at, so that a command
/// stream can be checked against the live buffer identities.
#[derive(Clone, Copy, Debug, PartialEq, Eq, Structural)]
pub enum FrameCmd {
    /// Open the single compute pass of the frame.
    BeginComputePass,
    /// Bind a compute stage's pipeline.
    SetComputePipeline { stage: Stage },
    /// Resolve one binding slot to the buffer with the given identity tag.
    SetBindGroup { slot: u32, buffer: u64 },
    /// Issue the given number of work groups.
    Dispatch { groups: u32 },
    /// Close the compute pass.
    EndComputePass,
    /// Open the graphics pass, clearing the surface to the background color
    /// whose channel patterns are given.
    BeginRenderPass { clear_red: u32, clear_green: u32, clear_blue: u32, clear_alpha: u32 },
    /// Bind a graphics stage's pipeline.
    SetRenderPipeline { stage: Stage },
    /// Draw the given number of vertices.
    Draw { vertices: u32 },
    /// Replay the prerecorded line-list bundle, which binds the camera
    /// uniform and draws the given number of vertices.
    ExecuteBundle { camera_uniform: u64, vertices: u32 },
    /// Close the graphics pass.
    EndRenderPass,
    /// Submit the recorded stream to the queue.
    Submit,
    /// Present the acquired surface image.
    PresentFrame,
}

} // verus!
