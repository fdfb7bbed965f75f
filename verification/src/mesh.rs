//! Converting the GUI library's tessellated output — clipped triangle meshes —
//! into the host backend's draw calls: one clip-rectangle command per batch,
//! then one triangle command per three indices, each winding-corrected and
//! carrying its three vertices and resolved texture handle.

use vstd::prelude::*;
use crate::BridgeError;
use crate::geom::{clockwise_wound, Rect, Triangle, Vertex, wind_clockwise};
use crate::texture::{TextureId, TextureStore};
use crate::texture::TextureEntry;

verus! {

/// A triangle mesh as the GUI library tessellates it: an index buffer read in
/// groups of three, the vertex buffer it points into, and the texture the
/// triangles sample.
#[derive(Debug)]
pub struct Mesh {
    pub indices: Vec<u32>,
    pub vertices: Vec<Vertex>,
    pub texture_id: TextureId,
}

/// One tessellated primitive. The GUI library can also emit a paint callback
/// in place of a mesh; the bridge does not implement those, and whatever such
/// a callback carries is of no use to it, so the variant is bare.
#[derive(Debug)]
pub enum Primitive {
    Mesh(Mesh),
    Callback,
}

/// One batch of tessellated output: a primitive and the clip rectangle it
/// must be drawn under.
#[derive(Debug)]
pub struct ClippedPrimitive {
    pub clip_rect: Rect,
    pub primitive: Primitive,
}

/// One textured, tinted triangle ready for the host backend.
#[derive(Clone, Copy, PartialEq, Eq, Structural, Debug)]
pub struct TriangleDraw {
    pub triangle: Triangle,
    pub handle: u64,
}

/// One call against the host backend, in order.
#[derive(Clone, Copy, PartialEq, Eq, Structural, Debug)]
pub enum DrawCommand {
    /// Set the clip rectangle for the draws that follow.
    SetClip(Rect),
    /// Draw one triangle with per-vertex color and texture coordinates.
    DrawTriangle(TriangleDraw),
}

/// How many whole triangles an index buffer holds; leftover indices beyond
/// the last group of three are ignored.
pub open spec fn tri_count(indices: Seq<u32>) -> int {
    indices.len() as int / 3
}

/// Every index used by a whole triangle points into the vertex buffer.
pub open spec fn indices_in_bounds(indices: Seq<u32>, n_vertices: nat) -> bool {
    forall|k: int| 0 <= k < 3 * tri_count(indices) ==> (indices[k] as nat) < n_vertices
}

/// Triangle number `t` of a mesh, before winding correction: the vertices its
/// three indices point at.
pub open spec fn gathered_triangle(indices: Seq<u32>, vertices: Seq<Vertex>, t: int) -> Triangle {
    Triangle {
        a: vertices[indices[3 * t] as int],
        b: vertices[indices[3 * t + 1] as int],
        c: vertices[indices[3 * t + 2] as int],
    }
}

/// The triangle commands of one mesh: each gathered triangle, winding-
/// corrected, bound to the mesh's resolved texture handle.
pub open spec fn mesh_triangle_commands(indices: Seq<u32>, vertices: Seq<Vertex>, handle: u64) -> Seq<
    DrawCommand,
> {
    Seq::new(
        tri_count(indices) as nat,
        |t: int|
            DrawCommand::DrawTriangle(
                TriangleDraw {
                    triangle: clockwise_wound(gathered_triangle(indices, vertices, t)),
                    handle,
                },
            ),
    )
}

/// The commands one clipped primitive owes, or the fatal condition it raises:
/// a clip command always comes first; a paint callback is unsupported; a mesh
/// over a user-managed texture is skipped (the bridge resolves only managed
/// textures); a managed texture must be live in the table and every used
/// index must be in bounds, and then each group of three indices becomes one
/// winding-corrected triangle command.
pub open spec fn prim_commands(table: Map<u64, TextureEntry>, prim: ClippedPrimitive) -> Result<
    Seq<DrawCommand>,
    BridgeError,
> {
    match prim.primitive {
        Primitive::Callback => Err(BridgeError::UnsupportedPrimitive),
        Primitive::Mesh(m) => {
            let clip = seq![DrawCommand::SetClip(prim.clip_rect)];
            match m.texture_id {
                TextureId::User(_) => Ok(clip),
                TextureId::Managed(id) => if !table.contains_key(id) {
                    Err(BridgeError::TextureMissing(id))
                } else if !indices_in_bounds(m.indices@, m.vertices@.len()) {
                    Err(BridgeError::IndexOutOfBounds)
                } else {
                    Ok(clip + mesh_triangle_commands(m.indices@, m.vertices@, table[id].handle))
                },
            }
        },
    }
}

/// The commands a whole frame's tessellated output owes: the primitives'
/// commands in order, or the error of the first primitive that raises one.
pub open spec fn frame_commands(table: Map<u64, TextureEntry>, prims: Seq<ClippedPrimitive>) -> Result<
    Seq<DrawCommand>,
    BridgeError,
>
    decreases prims.len(),
{
    if prims.len() == 0 {
        Ok(Seq::empty())
    } else {
        match frame_commands(table, prims.drop_last()) {
            Err(e) => Err(e),
            Ok(cmds) => match prim_commands(table, prims.last()) {
                Err(e) => Err(e),
                Ok(more) => Ok(cmds + more),
            },
        }
    }
}

/// The result of converting a frame matches the specification: on success the
/// command list is exactly the frame's commands, and on failure the error is
/// exactly the frame's first error.
pub open spec fn frame_result_matches(
    table: Map<u64, TextureEntry>,
    prims: Seq<ClippedPrimitive>,
    r: Result<Vec<DrawCommand>, BridgeError>,
) -> bool {
    match r {
        Ok(cmds) => frame_commands(table, prims) == Ok::<_, BridgeError>(cmds@),
        Err(e) => frame_commands(table, prims) == Err::<Seq<DrawCommand>, _>(e),
    }
}

/// Once some prefix of the primitives raises an error, the whole frame raises
/// that same error.
proof fn lemma_frame_error_sticks(
    table: Map<u64, TextureEntry>,
    prims: Seq<ClippedPrimitive>,
    j: int,
)
    requires
        0 <= j <= prims.len(),
        frame_commands(table, prims.take(j)) is Err,
    ensures
        frame_commands(table, prims) == frame_commands(table, prims.take(j)),
    decreases prims.len() - j,
{
    if j == prims.len() {
        assert(prims.take(j) =~= prims);
    } else {
        assert(prims.take(j + 1).drop_last() =~= prims.take(j));
        lemma_frame_error_sticks(table, prims, j + 1);
    }
}

/// Builds the triangle commands of one mesh over an already resolved handle,
/// or reports the index that escaped the vertex buffer.
fn mesh_triangles(indices: &Vec<u32>, vertices: &Vec<Vertex>, handle: u64) -> (r: Result<
    Vec<DrawCommand>,
    BridgeError,
>)
    ensures
        match r {
            Ok(cmds) => indices_in_bounds(indices@, vertices@.len()) && cmds@
                == mesh_triangle_commands(indices@, vertices@, handle),
            Err(e) => e == BridgeError::IndexOutOfBounds && !indices_in_bounds(
                indices@,
                vertices@.len(),
            ),
        },
{
    let n_tris: usize = indices.len() / 3;
    let mut cmds: Vec<DrawCommand> = Vec::new();
    let mut t: usize = 0;
    while t < n_tris
        invariant
            t <= n_tris,
            n_tris == tri_count(indices@),
            indices@.len() <= usize::MAX,
            cmds@ == mesh_triangle_commands(indices@, vertices@, handle).take(t as int),
            forall|k: int| 0 <= k < 3 * t ==> (indices@[k] as nat) < vertices@.len(),
        decreases n_tris - t,
    {
        proof {
            assert(3 * tri_count(indices@) <= indices@.len()) by (nonlinear_arith)
                requires
                    tri_count(indices@) == indices@.len() as int / 3,
            ;
        }
        let base = 3 * t;
        let i0 = indices[base];
        let i1 = indices[base + 1];
        let i2 = indices[base + 2];
        if (i0 as usize) >= vertices.len() || (i1 as usize) >= vertices.len() || (i2 as usize)
            >= vertices.len() {
            proof {
                assert(!indices_in_bounds(indices@, vertices@.len())) by {
                    if (i0 as usize) >= vertices.len() {
                        assert(indices@[3 * t as int] == i0);
                    } else if (i1 as usize) >= vertices.len() {
                        assert(indices@[3 * t as int + 1] == i1);
                    } else {
                        assert(indices@[3 * t as int + 2] == i2);
                    }
                }
            }
            return Err(BridgeError::IndexOutOfBounds);
        }
        let gathered = Triangle {
            a: vertices[i0 as usize],
            b: vertices[i1 as usize],
            c: vertices[i2 as usize],
        };
        let wound = wind_clockwise(&gathered);
        cmds.push(DrawCommand::DrawTriangle(TriangleDraw { triangle: wound, handle }));
        proof {
            let full = mesh_triangle_commands(indices@, vertices@, handle);
            assert(gathered == gathered_triangle(indices@, vertices@, t as int));
            assert(cmds@ =~= full.take(t + 1));
        }
        t = t + 1;
    }
    proof {
        let full = mesh_triangle_commands(indices@, vertices@, handle);
        assert(cmds@ =~= full);
    }
    Ok(cmds)
}

/// Converts one clipped primitive, appending its commands; leaves the partial
/// append behind only on a fatal error, which aborts the frame.
fn append_prim_commands(
    store: &TextureStore,
    prim: &ClippedPrimitive,
    cmds: &mut Vec<DrawCommand>,
) -> (r: Result<(), BridgeError>)
    ensures
        match r {
            Ok(_) => prim_commands(store.table(), *prim) matches Ok(s) && final(cmds)@ == old(
                cmds,
            )@ + s,
            Err(e) => prim_commands(store.table(), *prim) == Err::<Seq<DrawCommand>, _>(e),
        },
{
    match &prim.primitive {
        Primitive::Callback => Err(BridgeError::UnsupportedPrimitive),
        Primitive::Mesh(m) => {
            cmds.push(DrawCommand::SetClip(prim.clip_rect));
            match m.texture_id {
                TextureId::User(_) => {
                    proof {
                        assert(cmds@ =~= old(cmds)@ + seq![
                            DrawCommand::SetClip(prim.clip_rect),
                        ]);
                    }
                    Ok(())
                },
                TextureId::Managed(id) => match store.resolve(id) {
                    None => Err(BridgeError::TextureMissing(id)),
                    Some(handle) => {
                        let mut tris = mesh_triangles(&m.indices, &m.vertices, handle)?;
                        cmds.append(&mut tris);
                        proof {
                            let clip = seq![DrawCommand::SetClip(prim.clip_rect)];
                            let body = mesh_triangle_commands(m.indices@, m.vertices@, handle);
                            assert(cmds@ =~= old(cmds)@ + (clip + body));
                        }
                        Ok(())
                    },
                },
            }
        },
    }
}

/// Converts a whole frame's tessellated output into the host backend's draw
/// commands, in order, against the live texture table.
pub fn convert_primitives(store: &TextureStore, prims: &Vec<ClippedPrimitive>) -> (r: Result<
    Vec<DrawCommand>,
    BridgeError,
>)
    ensures
        frame_result_matches(store.table(), prims@, r),
{
    let mut cmds: Vec<DrawCommand> = Vec::new();
    let mut i: usize = 0;
    while i < prims.len()
        invariant
            i <= prims@.len(),
            frame_commands(store.table(), prims@.take(i as int)) == Ok::<_, BridgeError>(cmds@),
        decreases prims@.len() - i,
    {
        let ghost prefix = prims@.take(i as int);
        let ghost cmds0 = cmds@;
        let step = append_prim_commands(store, &prims[i], &mut cmds);
        proof {
            assert(prims@.take(i + 1).drop_last() =~= prims@.take(i as int));
            assert(prims@.take(i + 1).last() == prims@[i as int]);
        }
        match step {
            Ok(_) => (),
            Err(e) => {
                proof {
                    lemma_frame_error_sticks(store.table(), prims@, i + 1);
                }
                return Err(e);
            },
        }
        i = i + 1;
    }
    proof {
        assert(prims@.take(prims@.len() as int) =~= prims@);
    }
    Ok(cmds)
}

} // verus!
