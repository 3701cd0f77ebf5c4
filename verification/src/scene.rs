//! Scenes and what they hold.

use crate::bits::Bits;
use crate::bits::GFormat;
use crate::bits::Matrix;
use crate::handle::Buffer;
use vstd::hash_map::StringHashMap;
use vstd::prelude::*;

verus! {

/// The one vertex format that every technique reads: a position of three
/// components, then a normal of three components, interleaved per vertex.
/// Shaders see the two as `a_Pos` and `a_Normal`.
#[derive(Clone, Copy, Debug, PartialEq, Eq)]
pub struct VertexPosNormal {
    pub pos: [Bits; 3],
    pub normal: [Bits; 3],
}

/// Where the order of the vertices of a slice comes from.
#[derive(Clone, Copy, Debug, PartialEq, Eq)]
pub enum SliceKind {
    /// The vertices are taken from the vertex buffer in order.
    Vertex,
    /// The order comes from a buffer of 8-bit indices; the second field is
    /// added to each index.
    Index8(Buffer, u32),
    /// As `Index8`, with 16-bit indices.
    Index16(Buffer, u32),
    /// As `Index8`, with 32-bit indices.
    Index32(Buffer, u32),
}

/// The range of vertices that one draw call covers.
#[derive(Clone, Copy, Debug, PartialEq, Eq)]
pub struct Slice {
    /// First vertex of the range.
    pub start: u32,
    /// One past the last vertex of the range.
    pub end: u32,
    /// Number of instances and the first of them, if the draw is instanced.
    pub instances: Option<(u32, u32)>,
    /// Source of the vertex order.
    pub kind: SliceKind,
}

/// One drawable unit: geometry, material color and model transform.
#[derive(Clone, Copy, Debug, PartialEq, Eq)]
pub struct Fragment {
    /// Model transform.
    pub transform: Matrix,
    /// Vertex buffer, laid out as `VertexPosNormal`.
    pub buffer: Buffer,
    /// Range of the buffer to draw.
    pub slice: Slice,
    /// Material color.
    pub ka: GFormat,
}

/// A collection of fragments. All of them are drawn, in the order of storage.
#[derive(Clone, Debug, PartialEq, Eq)]
pub struct Scene {
    pub fragments: Vec<Fragment>,
}

/// The scenes of a frame, by name.
pub struct Scenes {
    map: StringHashMap<Scene>,
}

impl View for Scenes {
    type V = Map<Seq<char>, Scene>;

    closed spec fn view(&self) -> Self::V {
        self.map@
    }
}

impl Scenes {
    /// A registry without scenes.
    pub fn new() -> (scenes: Self)
        ensures
            scenes@ == Map::<Seq<char>, Scene>::empty(),
    {
        Scenes { map: StringHashMap::new() }
    }

    /// Registers `scene` under `name`, in place of a scene that had the name
    /// before.
    pub fn insert(&mut self, name: String, scene: Scene)
        ensures
            final(self)@ == old(self)@.insert(name@, scene),
    {
        self.map.insert(name, scene);
    }

    /// The scene registered under `name`, if there is one.
    pub fn get(&self, name: &str) -> (found: Option<&Scene>)
        ensures
            found is Some <==> self@.contains_key(name@),
            found matches Some(scene) ==> *scene == self@[name@],
    {
        self.map.get(name)
    }
}

} // verus!
