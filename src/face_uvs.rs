use crate::projection::DegenerateNormal;
use crate::texture::{
    resolve_texture_size, resolved_size_spec, warns_spec, TextureId, TextureSize, TextureSizes,
};
use std::collections::BTreeMap;
use vstd::prelude::*;

verus! {

broadcast use vstd::std_specs::btree::group_btree_axioms, vstd::laws_cmp::group_laws_cmp;

/// Identifier of a face, as assigned by the geometry layer.
pub type FaceId = usize;

/// Marks a mapping as holding the texture coordinates of faces. It is used as
/// a type only.
pub enum FaceUvsTag {
    FaceUvs,
}

/// The texture coordinates of a set of faces.
pub struct FaceUvs<U> {
    /// For each face, one coordinate per vertex, in vertex order.
    pub uvs: BTreeMap<FaceId, Vec<U>>,
    /// The faces, in the order processed, whose texture size fell back to the
    /// default and deserves a diagnostic.
    pub warnings: Vec<FaceId>,
}

/// A face whose coordinates could not be computed, because its plane normal
/// is degenerate.
#[derive(Clone, Copy, Debug, PartialEq, Eq)]
pub struct FaceUvError {
    /// The face that failed.
    pub face: FaceId,
}

/// `uvs` holds, for each of `vertices` in order, a coordinate that
/// `vertex_uv` may return for it.
pub open spec fn is_uv_list<V, U, F: Fn(FaceId, TextureSize, &V) -> Result<U, DegenerateNormal>>(
    vertex_uv: F,
    face: FaceId,
    size: TextureSize,
    vertices: Seq<V>,
    uvs: Seq<U>,
) -> bool {
    &&& uvs.len() == vertices.len()
    &&& forall|i: int|
        0 <= i < vertices.len() ==> #[trigger] vertex_uv.ensures(
            (face, size, &vertices[i]),
            Ok::<U, DegenerateNormal>(uvs[i]),
        )
}

/// Some vertex among `vertices` is one for which `vertex_uv` may fail.
pub open spec fn has_failing_vertex<V, U, F: Fn(FaceId, TextureSize, &V) -> Result<U, DegenerateNormal>>(
    vertex_uv: F,
    face: FaceId,
    size: TextureSize,
    vertices: Seq<V>,
) -> bool {
    exists|i: int|
        0 <= i < vertices.len() && #[trigger] vertex_uv.ensures(
            (face, size, &vertices[i]),
            Err::<U, DegenerateNormal>(DegenerateNormal),
        )
}

/// Computes the coordinates of one face's vertices, in order, with the
/// face's resolved texture size.
pub fn face_uv_list<V, U, F: Fn(FaceId, TextureSize, &V) -> Result<U, DegenerateNormal>>(
    face: FaceId,
    size: TextureSize,
    vertices: &Vec<V>,
    vertex_uv: &F,
) -> (r: Result<Vec<U>, DegenerateNormal>)
    requires
        forall|v: &V| vertex_uv.requires((face, size, v)),
    ensures
        r matches Ok(uvs) ==> is_uv_list(*vertex_uv, face, size, vertices@, uvs@),
        r is Err ==> has_failing_vertex::<V, U, F>(*vertex_uv, face, size, vertices@),
{
    let mut uvs: Vec<U> = Vec::new();
    let mut i: usize = 0;
    while i < vertices.len()
        invariant
            forall|v: &V| vertex_uv.requires((face, size, v)),
            i <= vertices.len(),
            uvs.len() == i,
            forall|j: int|
                0 <= j < i ==> #[trigger] vertex_uv.ensures(
                    (face, size, &vertices@[j]),
                    Ok::<U, DegenerateNormal>(uvs@[j]),
                ),
        decreases vertices.len() - i,
    {
        let uv = vertex_uv(face, size, &vertices[i]);
        match uv {
            Ok(uv) => {
                uvs.push(uv);
            },
            Err(e) => {
                assert(vertex_uv.ensures(
                    (face, size, &vertices@[i as int]),
                    Err::<U, DegenerateNormal>(DegenerateNormal),
                ));
                return Err(e);
            },
        }
        i = i + 1;
    }
    Ok(uvs)
}

/// The faces among `faces`, in order, whose texture size resolution deserves
/// a diagnostic.
pub open spec fn warned_faces(
    faces: Seq<FaceId>,
    face_textures: Map<FaceId, TextureId>,
    names: Map<TextureId, String>,
    sizes: Map<TextureId, TextureSize>,
) -> Seq<FaceId>
    decreases faces.len(),
{
    if faces.len() == 0 {
        seq![]
    } else {
        let rest = warned_faces(faces.drop_last(), face_textures, names, sizes);
        if warns_spec(face_textures[faces.last()], names, sizes) {
            rest.push(faces.last())
        } else {
            rest
        }
    }
}

/// Computes the texture coordinates of every vertex of every face in `faces`.
///
/// Each face's texture size is resolved once; `vertex_uv` then maps each of
/// its vertices, in order, with that size. The result holds one coordinate
/// list per face, as long as the face's vertex list, and the faces whose
/// texture fell back to the default size with a diagnostic. The first vertex
/// for which `vertex_uv` fails makes the whole pass fail with its face.
pub fn new<V, U, F: Fn(FaceId, TextureSize, &V) -> Result<U, DegenerateNormal>>(
    faces: &Vec<FaceId>,
    textures: &BTreeMap<TextureId, String>,
    face_textures: &BTreeMap<FaceId, TextureId>,
    face_vertices: &BTreeMap<FaceId, Vec<V>>,
    texture_sizes: &TextureSizes,
    vertex_uv: F,
) -> (r: Result<FaceUvs<U>, FaceUvError>)
    requires
        forall|i: int|
            0 <= i < faces.len() ==> face_textures@.contains_key(#[trigger] faces@[i])
                && face_vertices@.contains_key(faces@[i]),
        forall|face: FaceId, size: TextureSize, v: &V| vertex_uv.requires((face, size, v)),
    ensures
        r matches Ok(out) ==> {
            &&& forall|face: FaceId| #[trigger]
                out.uvs@.contains_key(face) <==> faces@.contains(face)
            &&& forall|face: FaceId| #[trigger]
                out.uvs@.contains_key(face) ==> out.uvs@[face].len()
                    == face_vertices@[face].len()
            &&& forall|face: FaceId| #[trigger]
                out.uvs@.contains_key(face) ==> is_uv_list(
                    vertex_uv,
                    face,
                    resolved_size_spec(face_textures@[face], texture_sizes@),
                    face_vertices@[face]@,
                    out.uvs@[face]@,
                )
            &&& out.warnings@ == warned_faces(faces@, face_textures@, textures@, texture_sizes@)
        },
        r matches Err(e) ==> {
            &&& faces@.contains(e.face)
            &&& has_failing_vertex::<V, U, F>(
                vertex_uv,
                e.face,
                resolved_size_spec(face_textures@[e.face], texture_sizes@),
                face_vertices@[e.face]@,
            )
        },
{
    let mut uvs: BTreeMap<FaceId, Vec<U>> = BTreeMap::new();
    let mut warnings: Vec<FaceId> = Vec::new();
    let mut i: usize = 0;
    while i < faces.len()
        invariant
            forall|i: int|
                0 <= i < faces.len() ==> face_textures@.contains_key(#[trigger] faces@[i])
                    && face_vertices@.contains_key(faces@[i]),
            forall|face: FaceId, size: TextureSize, v: &V| vertex_uv.requires((face, size, v)),
            i <= faces.len(),
            forall|face: FaceId| #[trigger]
                uvs@.contains_key(face) <==> faces@.subrange(0, i as int).contains(face),
            forall|face: FaceId| #[trigger]
                uvs@.contains_key(face) ==> is_uv_list(
                    vertex_uv,
                    face,
                    resolved_size_spec(face_textures@[face], texture_sizes@),
                    face_vertices@[face]@,
                    uvs@[face]@,
                ),
            warnings@ == warned_faces(
                faces@.subrange(0, i as int),
                face_textures@,
                textures@,
                texture_sizes@,
            ),
        decreases faces.len() - i,
    {
        let face = faces[i];
        let texture = *face_textures.get(&face).unwrap();
        let resolved = resolve_texture_size(texture, textures, texture_sizes);
        let vertices = face_vertices.get(&face).unwrap();
        match face_uv_list(face, resolved.size, vertices, &vertex_uv) {
            Ok(list) => {
                uvs.insert(face, list);
            },
            Err(_) => {
                proof {
                    assert(faces@[i as int] == face);
                }
                return Err(FaceUvError { face });
            },
        }
        if resolved.warn {
            warnings.push(face);
        }
        proof {
            let prev = faces@.subrange(0, i as int);
            let next = faces@.subrange(0, i as int + 1);
            assert(next.drop_last() =~= prev);
            assert(next.last() == face);
            assert forall|f: FaceId| next.contains(f) <==> prev.contains(f) || f == face by {
                if next.contains(f) {
                    let j = choose|j: int| 0 <= j < next.len() && next[j] == f;
                    if j < i {
                        assert(prev[j] == f);
                    }
                }
                if prev.contains(f) {
                    let j = choose|j: int| 0 <= j < prev.len() && prev[j] == f;
                    assert(next[j] == f);
                }
                if f == face {
                    assert(next[i as int] == f);
                }
            }
        }
        i = i + 1;
    }
    proof {
        assert(faces@.subrange(0, faces@.len() as int) =~= faces@);
    }
    Ok(FaceUvs { uvs, warnings })
}

} // verus!
