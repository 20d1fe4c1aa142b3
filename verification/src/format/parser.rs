//! The PMX grammar, as spec functions over the input bytes, and the parser that follows it.

use vstd::prelude::*;

use super::model::{
    PMX_VERSION_2_0_BITS, PMX_VERSION_2_1_BITS, PmxBone, PmxBoneAxes, PmxBoneFlags,
    PmxBoneInheritance, PmxBoneTail, PmxDisplayFrame, PmxDisplayFrameItem, PmxDocument,
    PmxHeader, PmxIk, PmxIkLink, PmxJoint, PmxJointKind, PmxMaterial, PmxMaterialFlags,
    PmxMaterialMorph, PmxMaterialMorphOperation, PmxMorph, PmxMorphKind, PmxMorphOffset,
    PmxMorphPanel, PmxRigidBody, PmxRigidBodyMode, PmxRigidBodyShape, PmxSoftBody,
    PmxSoftBodyAeroModel, PmxSoftBodyAnchorRigidBody, PmxSoftBodyCluster, PmxSoftBodyConfig,
    PmxSoftBodyFlags, PmxSoftBodyIteration, PmxSoftBodyMaterial, PmxSoftBodyShape,
    PmxSphereMode, PmxTextEncoding, PmxTexture, PmxVertex, PmxVertexWeight, SpecBone,
    SpecDisplayFrame, SpecDocument, SpecHeader, SpecIk, SpecJoint, SpecMaterial, SpecMorph,
    SpecRigidBody, SpecSoftBody, SpecVertex, ik_view, lemma_seq_view_empty,
    lemma_seq_view_push, seq_view,
};
use super::reader::{
    PRes, PmxParser, bind, counted, done, lemma_repeat_err, repeat, spec_bytes, spec_f32,
    spec_i32, spec_index, spec_len, spec_magic, spec_u16, spec_u8, spec_vec2, spec_vec3,
    spec_vec4, spec_vertex_index, step, step_seq, step_vec, step_view,
};
use super::text::spec_text;
use crate::error::{PmxError, PmxResult};

verus! {

// ---------------------------------------------------------------------------------------------
// Header
// ---------------------------------------------------------------------------------------------

/// The four bytes at `p` spell `PMX `.
pub open spec fn pmx_magic_at(s: Seq<u8>, p: int) -> bool {
    &&& s[p] == 0x50
    &&& s[p + 1] == 0x4d
    &&& s[p + 2] == 0x58
    &&& s[p + 3] == 0x20
}

pub open spec fn spec_encoding(b: u8) -> Result<PmxTextEncoding, PmxError> {
    if b == 0 {
        Ok(PmxTextEncoding::Utf16Le)
    } else if b == 1 {
        Ok(PmxTextEncoding::Utf8)
    } else {
        Err(PmxError::InvalidFormat("unsupported PMX text encoding"))
    }
}

/// The seven bytes after the encoding: additional UV count and the six index widths.
pub open spec fn spec_header_sizes(s: Seq<u8>, p: int) -> PRes<[u8; 7]> {
    bind(spec_u8(s, p), |a: u8, p1: int|
    bind(spec_u8(s, p1), |b: u8, p2: int|
    bind(spec_u8(s, p2), |c: u8, p3: int|
    bind(spec_u8(s, p3), |d: u8, p4: int|
    bind(spec_u8(s, p4), |e: u8, p5: int|
    bind(spec_u8(s, p5), |f: u8, p6: int|
    bind(spec_u8(s, p6), |g: u8, p7: int|
    done([a, b, c, d, e, f, g], p7))))))))
}

/// The four header texts.
pub open spec fn spec_header_texts(
    encoding: PmxTextEncoding,
    s: Seq<u8>,
    p: int,
) -> PRes<(Seq<char>, Seq<char>, Seq<char>, Seq<char>)> {
    bind(spec_text(encoding, s, p), |a: Seq<char>, p1: int|
    bind(spec_text(encoding, s, p1), |b: Seq<char>, p2: int|
    bind(spec_text(encoding, s, p2), |c: Seq<char>, p3: int|
    bind(spec_text(encoding, s, p3), |d: Seq<char>, p4: int|
    done((a, b, c, d), p4)))))
}

pub open spec fn make_header(
    magic: [u8; 4],
    version: u32,
    header_size: u8,
    encoding: PmxTextEncoding,
    sizes: [u8; 7],
    texts: (Seq<char>, Seq<char>, Seq<char>, Seq<char>),
) -> SpecHeader {
    SpecHeader {
        magic,
        version,
        header_size,
        encoding,
        additional_uv_count: sizes[0],
        vertex_index_size: sizes[1],
        texture_index_size: sizes[2],
        material_index_size: sizes[3],
        bone_index_size: sizes[4],
        morph_index_size: sizes[5],
        rigid_body_index_size: sizes[6],
        model_name: texts.0,
        model_name_english: texts.1,
        comment: texts.2,
        comment_english: texts.3,
    }
}

/// The header: magic, version, header size, encoding, sizes, padding up to the declared
/// header size, and the model name and comment texts.
pub open spec fn spec_header(s: Seq<u8>, p: int) -> PRes<SpecHeader> {
    bind(spec_magic(s, p), |magic: [u8; 4], p1: int|
    if !pmx_magic_at(s, p) {
        Err(PmxError::InvalidMagic(magic))
    } else {
    bind(spec_f32(s, p1), |version: u32, p2: int|
    if version != PMX_VERSION_2_0_BITS && version != PMX_VERSION_2_1_BITS {
        Err(PmxError::UnsupportedVersion(version))
    } else {
    bind(spec_u8(s, p2), |header_size: u8, p3: int|
    if header_size < 8 {
        Err(PmxError::InvalidFormat("pmx header size must be at least 8 bytes"))
    } else {
    bind(spec_u8(s, p3), |enc: u8, p4: int|
    match spec_encoding(enc) {
        Err(e) => Err(e),
        Ok(encoding) =>
    bind(spec_header_sizes(s, p4), |sizes: [u8; 7], p5: int|
    bind(spec_bytes(s, p5, header_size - 8), |pad: Seq<u8>, p6: int|
    bind(spec_header_texts(encoding, s, p6), |texts: (Seq<char>, Seq<char>, Seq<char>, Seq<char>), p7: int|
    done(make_header(magic, version, header_size, encoding, sizes, texts), p7))))
    })
    })
    })
    })
}


fn encoding_from_byte(b: u8) -> (r: PmxResult<PmxTextEncoding>)
    ensures
        r == spec_encoding(b),
{
    match b {
        0 => Ok(PmxTextEncoding::Utf16Le),
        1 => Ok(PmxTextEncoding::Utf8),
        _ => Err(PmxError::InvalidFormat("unsupported PMX text encoding")),
    }
}

impl<'a> PmxParser<'a> {
    fn read_header_sizes(&mut self) -> (r: PmxResult<[u8; 7]>)
        requires
            old(self).wf(),
        ensures
            old(self).same_input(final(self)),
            step(r, spec_header_sizes(old(self).bytes@, old(self).pos as int), final(self).pos as int),
    {
        let a = self.read_u8()?;
        let b = self.read_u8()?;
        let c = self.read_u8()?;
        let d = self.read_u8()?;
        let e = self.read_u8()?;
        let f = self.read_u8()?;
        let g = self.read_u8()?;
        Ok([a, b, c, d, e, f, g])
    }

    fn read_header_texts(&mut self, encoding: PmxTextEncoding) -> (r: PmxResult<(String, String, String, String)>)
        requires
            old(self).wf(),
        ensures
            old(self).same_input(final(self)),
            match spec_header_texts(encoding, old(self).bytes@, old(self).pos as int) {
                Ok((v, q)) => (r matches Ok(x) && x.0@ == v.0 && x.1@ == v.1 && x.2@ == v.2 && x.3@ == v.3)
                    && final(self).pos == q,
                Err(e) => r == Err::<(String, String, String, String), PmxError>(e),
            },
    {
        let a = self.read_text(encoding)?;
        let b = self.read_text(encoding)?;
        let c = self.read_text(encoding)?;
        let d = self.read_text(encoding)?;
        Ok((a, b, c, d))
    }

    pub(crate) fn read_header(&mut self) -> (r: PmxResult<PmxHeader>)
        requires
            old(self).wf(),
        ensures
            old(self).same_input(final(self)),
            step_view(r, spec_header(old(self).bytes@, old(self).pos as int), final(self).pos as int),
    {
        let p0 = self.pos;
        let magic = self.read_array4()?;
        if !(self.bytes[p0] == 0x50 && self.bytes[p0 + 1] == 0x4d && self.bytes[p0 + 2] == 0x58
            && self.bytes[p0 + 3] == 0x20) {
            return Err(PmxError::InvalidMagic(magic));
        }
        let version = self.read_f32()?;
        if version != PMX_VERSION_2_0_BITS && version != PMX_VERSION_2_1_BITS {
            return Err(PmxError::UnsupportedVersion(version));
        }
        let header_size = self.read_u8()?;
        if header_size < 8 {
            return Err(PmxError::InvalidFormat("pmx header size must be at least 8 bytes"));
        }
        let encoding = encoding_from_byte(self.read_u8()?)?;
        let sizes = self.read_header_sizes()?;
        if header_size > 8 {
            self.skip((header_size - 8) as usize)?;
        }
        let texts = self.read_header_texts(encoding)?;
        let (model_name, model_name_english, comment, comment_english) = texts;
        Ok(PmxHeader {
            magic,
            version,
            header_size,
            encoding,
            additional_uv_count: sizes[0],
            vertex_index_size: sizes[1],
            texture_index_size: sizes[2],
            material_index_size: sizes[3],
            bone_index_size: sizes[4],
            morph_index_size: sizes[5],
            rigid_body_index_size: sizes[6],
            model_name,
            model_name_english,
            comment,
            comment_english,
        })
    }
}


// ---------------------------------------------------------------------------------------------
// Vertices, indices, textures
// ---------------------------------------------------------------------------------------------

pub open spec fn spec_index4(size: u8, s: Seq<u8>, p: int) -> PRes<[i32; 4]> {
    bind(spec_index(size, s, p), |a: i32, p1: int|
    bind(spec_index(size, s, p1), |b: i32, p2: int|
    bind(spec_index(size, s, p2), |c: i32, p3: int|
    bind(spec_index(size, s, p3), |d: i32, p4: int|
    done([a, b, c, d], p4)))))
}

/// Vertex skinning: a type byte, then the bone indices and weights of that type.
pub open spec fn spec_weight(bone_size: u8, s: Seq<u8>, p: int) -> PRes<PmxVertexWeight> {
    bind(spec_u8(s, p), |t: u8, p1: int|
    if t == 0 {
        bind(spec_index(bone_size, s, p1), |bone: i32, p2: int|
        done(PmxVertexWeight::Bdef1 { bone }, p2))
    } else if t == 1 {
        bind(spec_index(bone_size, s, p1), |bone0: i32, p2: int|
        bind(spec_index(bone_size, s, p2), |bone1: i32, p3: int|
        bind(spec_f32(s, p3), |weight: u32, p4: int|
        done(PmxVertexWeight::Bdef2 { bone0, bone1, weight }, p4))))
    } else if t == 2 {
        bind(spec_index4(bone_size, s, p1), |bones: [i32; 4], p2: int|
        bind(spec_vec4(s, p2), |weights: [u32; 4], p3: int|
        done(PmxVertexWeight::Bdef4 { bones, weights }, p3)))
    } else if t == 3 {
        bind(spec_index(bone_size, s, p1), |bone0: i32, p2: int|
        bind(spec_index(bone_size, s, p2), |bone1: i32, p3: int|
        bind(spec_f32(s, p3), |weight: u32, p4: int|
        bind(spec_vec3(s, p4), |c: [u32; 3], p5: int|
        bind(spec_vec3(s, p5), |r0: [u32; 3], p6: int|
        bind(spec_vec3(s, p6), |r1: [u32; 3], p7: int|
        done(PmxVertexWeight::Sdef { bone0, bone1, weight, c, r0, r1 }, p7)))))))
    } else if t == 4 {
        bind(spec_index4(bone_size, s, p1), |bones: [i32; 4], p2: int|
        bind(spec_vec4(s, p2), |weights: [u32; 4], p3: int|
        done(PmxVertexWeight::Qdef { bones, weights }, p3)))
    } else {
        Err(PmxError::InvalidFormat("unsupported PMX vertex weight type"))
    })
}

pub open spec fn vec4_item(s: Seq<u8>) -> spec_fn(int) -> PRes<[u32; 4]> {
    |q: int| spec_vec4(s, q)
}

/// A vertex: position, normal, UV, the header's number of additional UVs, skinning and
/// edge scale.
pub open spec fn spec_vertex(h: SpecHeader, s: Seq<u8>, p: int) -> PRes<SpecVertex> {
    bind(spec_vec3(s, p), |position: [u32; 3], p1: int|
    bind(spec_vec3(s, p1), |normal: [u32; 3], p2: int|
    bind(spec_vec2(s, p2), |uv: [u32; 2], p3: int|
    bind(repeat(h.additional_uv_count as nat, p3, vec4_item(s)), |additional_uvs: Seq<[u32; 4]>, p4: int|
    bind(spec_weight(h.bone_index_size, s, p4), |weight: PmxVertexWeight, p5: int|
    bind(spec_f32(s, p5), |edge_scale: u32, p6: int|
    done(SpecVertex { position, normal, uv, additional_uvs, weight, edge_scale }, p6)))))))
}

pub open spec fn vertex_item(h: SpecHeader, s: Seq<u8>) -> spec_fn(int) -> PRes<SpecVertex> {
    |q: int| spec_vertex(h, s, q)
}

pub open spec fn vertex_index_item(size: u8, s: Seq<u8>) -> spec_fn(int) -> PRes<u32> {
    |q: int| spec_vertex_index(size, s, q)
}

pub open spec fn text_item(encoding: PmxTextEncoding, s: Seq<u8>) -> spec_fn(int) -> PRes<Seq<char>> {
    |q: int| spec_text(encoding, s, q)
}

impl<'a> PmxParser<'a> {
    fn read_index4(&mut self, size: u8) -> (r: PmxResult<[i32; 4]>)
        requires
            old(self).wf(),
        ensures
            old(self).same_input(final(self)),
            step(r, spec_index4(size, old(self).bytes@, old(self).pos as int), final(self).pos as int),
    {
        let a = self.read_index(size)?;
        let b = self.read_index(size)?;
        let c = self.read_index(size)?;
        let d = self.read_index(size)?;
        Ok([a, b, c, d])
    }

    fn read_weight(&mut self, bone_size: u8) -> (r: PmxResult<PmxVertexWeight>)
        requires
            old(self).wf(),
        ensures
            old(self).same_input(final(self)),
            step(r, spec_weight(bone_size, old(self).bytes@, old(self).pos as int), final(self).pos as int),
    {
        let t = self.read_u8()?;
        if t == 0 {
            let bone = self.read_index(bone_size)?;
            Ok(PmxVertexWeight::Bdef1 { bone })
        } else if t == 1 {
            let bone0 = self.read_index(bone_size)?;
            let bone1 = self.read_index(bone_size)?;
            let weight = self.read_f32()?;
            Ok(PmxVertexWeight::Bdef2 { bone0, bone1, weight })
        } else if t == 2 {
            let bones = self.read_index4(bone_size)?;
            let weights = self.read_vec4()?;
            Ok(PmxVertexWeight::Bdef4 { bones, weights })
        } else if t == 3 {
            let bone0 = self.read_index(bone_size)?;
            let bone1 = self.read_index(bone_size)?;
            let weight = self.read_f32()?;
            let c = self.read_vec3()?;
            let r0 = self.read_vec3()?;
            let r1 = self.read_vec3()?;
            Ok(PmxVertexWeight::Sdef { bone0, bone1, weight, c, r0, r1 })
        } else if t == 4 {
            let bones = self.read_index4(bone_size)?;
            let weights = self.read_vec4()?;
            Ok(PmxVertexWeight::Qdef { bones, weights })
        } else {
            Err(PmxError::InvalidFormat("unsupported PMX vertex weight type"))
        }
    }

    fn read_additional_uvs(&mut self, count: u8) -> (r: PmxResult<Vec<[u32; 4]>>)
        requires
            old(self).wf(),
        ensures
            old(self).same_input(final(self)),
            step_vec(r, repeat(count as nat, old(self).pos as int, vec4_item(old(self).bytes@)), final(self).pos as int),
    {
        let ghost s = self.bytes@;
        let ghost p0 = self.pos as int;
        let mut items: Vec<[u32; 4]> = Vec::new();
        let mut i: u8 = 0;
        while i < count
            invariant
                old(self).same_input(self),
                s == self.bytes@,
                p0 == old(self).pos,
                i <= count,
                repeat(i as nat, p0, vec4_item(s)) == Ok::<(Seq<[u32; 4]>, int), PmxError>((items@, self.pos as int)),
            decreases count - i,
        {
            match self.read_vec4() {
                Ok(v) => {
                    items.push(v);
                    i = i + 1;
                },
                Err(e) => {
                    proof {
                        lemma_repeat_err((i + 1) as nat, count as nat, p0, vec4_item(s), e);
                    }
                    return Err(e);
                },
            }
        }
        Ok(items)
    }

    pub(crate) fn read_vertex(&mut self, header: &PmxHeader) -> (r: PmxResult<PmxVertex>)
        requires
            old(self).wf(),
        ensures
            old(self).same_input(final(self)),
            step_view(r, spec_vertex(header@, old(self).bytes@, old(self).pos as int), final(self).pos as int),
    {
        let position = self.read_vec3()?;
        let normal = self.read_vec3()?;
        let uv = self.read_vec2()?;
        let additional_uvs = self.read_additional_uvs(header.additional_uv_count)?;
        let weight = self.read_weight(header.bone_index_size)?;
        let edge_scale = self.read_f32()?;
        Ok(PmxVertex { position, normal, uv, additional_uvs, weight, edge_scale })
    }

    pub(crate) fn read_vertices(&mut self, header: &PmxHeader) -> (r: PmxResult<Vec<PmxVertex>>)
        requires
            old(self).wf(),
        ensures
            old(self).same_input(final(self)),
            step_seq(r, counted(old(self).bytes@, old(self).pos as int, vertex_item(header@, old(self).bytes@)), final(self).pos as int),
    {
        let ghost s = self.bytes@;
        let count = self.read_len()?;
        let ghost p0 = self.pos as int;
        let mut items: Vec<PmxVertex> = Vec::new();
        proof { lemma_seq_view_empty(items@); }
        let mut i: usize = 0;
        while i < count
            invariant
                old(self).same_input(self),
                s == self.bytes@,
                spec_len(s, old(self).pos as int) == Ok::<(usize, int), PmxError>((count, p0)),
                i <= count,
                repeat(i as nat, p0, vertex_item(header@, s)) == Ok::<(Seq<SpecVertex>, int), PmxError>((seq_view(items@), self.pos as int)),
            decreases count - i,
        {
            match self.read_vertex(header) {
                Ok(v) => {
                    proof { lemma_seq_view_push(items@, v); }
                    items.push(v);
                    i = i + 1;
                },
                Err(e) => {
                    proof {
                        lemma_repeat_err((i + 1) as nat, count as nat, p0, vertex_item(header@, s), e);
                    }
                    return Err(e);
                },
            }
        }
        Ok(items)
    }

    pub(crate) fn read_indices(&mut self, header: &PmxHeader) -> (r: PmxResult<Vec<u32>>)
        requires
            old(self).wf(),
        ensures
            old(self).same_input(final(self)),
            step_vec(r, counted(old(self).bytes@, old(self).pos as int, vertex_index_item(header.vertex_index_size, old(self).bytes@)), final(self).pos as int),
    {
        let ghost s = self.bytes@;
        let count = self.read_len()?;
        let ghost p0 = self.pos as int;
        let mut items: Vec<u32> = Vec::new();
        let mut i: usize = 0;
        while i < count
            invariant
                old(self).same_input(self),
                s == self.bytes@,
                spec_len(s, old(self).pos as int) == Ok::<(usize, int), PmxError>((count, p0)),
                i <= count,
                repeat(i as nat, p0, vertex_index_item(header.vertex_index_size, s)) == Ok::<(Seq<u32>, int), PmxError>((items@, self.pos as int)),
            decreases count - i,
        {
            match self.read_vertex_index(header.vertex_index_size) {
                Ok(v) => {
                    items.push(v);
                    i = i + 1;
                },
                Err(e) => {
                    proof {
                        lemma_repeat_err((i + 1) as nat, count as nat, p0, vertex_index_item(header.vertex_index_size, s), e);
                    }
                    return Err(e);
                },
            }
        }
        Ok(items)
    }

    pub(crate) fn read_textures(&mut self, header: &PmxHeader) -> (r: PmxResult<Vec<PmxTexture>>)
        requires
            old(self).wf(),
        ensures
            old(self).same_input(final(self)),
            step_seq(r, counted(old(self).bytes@, old(self).pos as int, text_item(header.encoding, old(self).bytes@)), final(self).pos as int),
    {
        let ghost s = self.bytes@;
        let count = self.read_len()?;
        let ghost p0 = self.pos as int;
        let mut items: Vec<PmxTexture> = Vec::new();
        proof { lemma_seq_view_empty(items@); }
        let mut i: usize = 0;
        while i < count
            invariant
                old(self).same_input(self),
                s == self.bytes@,
                spec_len(s, old(self).pos as int) == Ok::<(usize, int), PmxError>((count, p0)),
                i <= count,
                repeat(i as nat, p0, text_item(header.encoding, s)) == Ok::<(Seq<Seq<char>>, int), PmxError>((seq_view(items@), self.pos as int)),
            decreases count - i,
        {
            match self.read_text(header.encoding) {
                Ok(path) => {
                    let t = PmxTexture { path };
                    proof { lemma_seq_view_push(items@, t); }
                    items.push(t);
                    i = i + 1;
                },
                Err(e) => {
                    proof {
                        lemma_repeat_err((i + 1) as nat, count as nat, p0, text_item(header.encoding, s), e);
                    }
                    return Err(e);
                },
            }
        }
        Ok(items)
    }
}


/// A name and its English name.
pub open spec fn spec_names(encoding: PmxTextEncoding, s: Seq<u8>, p: int) -> PRes<(Seq<char>, Seq<char>)> {
    bind(spec_text(encoding, s, p), |name: Seq<char>, p1: int|
    bind(spec_text(encoding, s, p1), |name_english: Seq<char>, p2: int|
    done((name, name_english), p2)))
}

// ---------------------------------------------------------------------------------------------
// Materials
// ---------------------------------------------------------------------------------------------

pub open spec fn spec_sphere_mode(b: u8) -> Result<PmxSphereMode, PmxError> {
    if b == 0 {
        Ok(PmxSphereMode::Disabled)
    } else if b == 1 {
        Ok(PmxSphereMode::Multiply)
    } else if b == 2 {
        Ok(PmxSphereMode::Add)
    } else if b == 3 {
        Ok(PmxSphereMode::SubTexture)
    } else {
        Err(PmxError::InvalidFormat("unsupported PMX sphere mode"))
    }
}

/// Colours of a material: diffuse, specular, specular strength, ambient, flags, edge colour
/// and edge size.
pub open spec fn spec_material_colors(s: Seq<u8>, p: int) -> PRes<([u32; 4], [u32; 3], u32, [u32; 3], u8, [u32; 4], u32)> {
    bind(spec_vec4(s, p), |diffuse: [u32; 4], p1: int|
    bind(spec_vec3(s, p1), |specular: [u32; 3], p2: int|
    bind(spec_f32(s, p2), |specular_strength: u32, p3: int|
    bind(spec_vec3(s, p3), |ambient: [u32; 3], p4: int|
    bind(spec_u8(s, p4), |flags: u8, p5: int|
    bind(spec_vec4(s, p5), |edge_color: [u32; 4], p6: int|
    bind(spec_f32(s, p6), |edge_size: u32, p7: int|
    done((diffuse, specular, specular_strength, ambient, flags, edge_color, edge_size), p7))))))))
}

/// The toon texture: a shared-toon number byte when shared, otherwise a texture index.
pub open spec fn spec_toon_index(sharing: bool, texture_size: u8, s: Seq<u8>, p: int) -> PRes<i32> {
    if sharing {
        bind(spec_u8(s, p), |b: u8, q: int| done(b as i32, q))
    } else {
        spec_index(texture_size, s, p)
    }
}

pub open spec fn make_material(
    names: (Seq<char>, Seq<char>),
    colors: ([u32; 4], [u32; 3], u32, [u32; 3], u8, [u32; 4], u32),
    texture_index: i32,
    sphere_texture_index: i32,
    sphere_mode: PmxSphereMode,
    toon_sharing: bool,
    toon_texture_index: i32,
    comment: Seq<char>,
    surface_count: usize,
) -> SpecMaterial {
    SpecMaterial {
        name: names.0,
        name_english: names.1,
        diffuse: colors.0,
        specular: colors.1,
        specular_strength: colors.2,
        ambient: colors.3,
        flags: PmxMaterialFlags(colors.4),
        edge_color: colors.5,
        edge_size: colors.6,
        texture_index,
        sphere_texture_index,
        sphere_mode,
        toon_sharing,
        toon_texture_index,
        comment,
        surface_count: surface_count as u32,
    }
}

/// A material: names, colours, texture references, sphere mode, toon texture, comment and
/// the number of indices it covers.
pub open spec fn spec_material(h: SpecHeader, s: Seq<u8>, p: int) -> PRes<SpecMaterial> {
    bind(spec_names(h.encoding, s, p), |names: (Seq<char>, Seq<char>), p2: int|
    bind(spec_material_colors(s, p2), |colors: ([u32; 4], [u32; 3], u32, [u32; 3], u8, [u32; 4], u32), p3: int|
    bind(spec_index(h.texture_index_size, s, p3), |texture_index: i32, p4: int|
    bind(spec_index(h.texture_index_size, s, p4), |sphere_texture_index: i32, p5: int|
    bind(spec_u8(s, p5), |mode: u8, p6: int|
    match spec_sphere_mode(mode) {
        Err(e) => Err(e),
        Ok(sphere_mode) =>
    bind(spec_u8(s, p6), |sharing: u8, p7: int|
    bind(spec_toon_index(sharing != 0, h.texture_index_size, s, p7), |toon_texture_index: i32, p8: int|
    bind(spec_text(h.encoding, s, p8), |comment: Seq<char>, p9: int|
    bind(spec_len(s, p9), |surface_count: usize, p10: int|
    done(make_material(names, colors, texture_index, sphere_texture_index,
        sphere_mode, sharing != 0, toon_texture_index, comment, surface_count), p10)))))
    })))))
}

pub open spec fn material_item(h: SpecHeader, s: Seq<u8>) -> spec_fn(int) -> PRes<SpecMaterial> {
    |q: int| spec_material(h, s, q)
}

// ---------------------------------------------------------------------------------------------
// Bones
// ---------------------------------------------------------------------------------------------

pub open spec fn spec_tail(flags: PmxBoneFlags, bone_size: u8, s: Seq<u8>, p: int) -> PRes<PmxBoneTail> {
    if flags.spec_contains(PmxBoneFlags::TAIL_BONE) {
        bind(spec_index(bone_size, s, p), |i: i32, q: int| done(PmxBoneTail::BoneIndex(i), q))
    } else {
        bind(spec_vec3(s, p), |v: [u32; 3], q: int| done(PmxBoneTail::Offset(v), q))
    }
}

pub open spec fn spec_inheritance(flags: PmxBoneFlags, bone_size: u8, s: Seq<u8>, p: int) -> PRes<Option<PmxBoneInheritance>> {
    if flags.spec_contains(PmxBoneFlags::INHERIT_ROTATION) || flags.spec_contains(PmxBoneFlags::INHERIT_TRANSLATION) {
        bind(spec_index(bone_size, s, p), |parent_bone: i32, p1: int|
        bind(spec_f32(s, p1), |influence: u32, p2: int|
        done(Some(PmxBoneInheritance {
            parent_bone,
            influence,
            affects_translation: flags.spec_contains(PmxBoneFlags::INHERIT_TRANSLATION),
            affects_rotation: flags.spec_contains(PmxBoneFlags::INHERIT_ROTATION),
        }), p2)))
    } else {
        done(None, p)
    }
}

pub open spec fn spec_fixed_axis(flags: PmxBoneFlags, s: Seq<u8>, p: int) -> PRes<Option<[u32; 3]>> {
    if flags.spec_contains(PmxBoneFlags::FIXED_AXIS) {
        bind(spec_vec3(s, p), |v: [u32; 3], q: int| done(Some(v), q))
    } else {
        done(None, p)
    }
}

pub open spec fn spec_local_axes(flags: PmxBoneFlags, s: Seq<u8>, p: int) -> PRes<Option<PmxBoneAxes>> {
    if flags.spec_contains(PmxBoneFlags::LOCAL_AXES) {
        bind(spec_vec3(s, p), |local_x: [u32; 3], p1: int|
        bind(spec_vec3(s, p1), |local_z: [u32; 3], p2: int|
        done(Some(PmxBoneAxes { local_x, local_z }), p2)))
    } else {
        done(None, p)
    }
}

pub open spec fn spec_external_parent(flags: PmxBoneFlags, s: Seq<u8>, p: int) -> PRes<i32> {
    if flags.spec_contains(PmxBoneFlags::EXTERNAL_PARENT_DEFORM) {
        spec_i32(s, p)
    } else {
        done(-1i32, p)
    }
}

pub open spec fn spec_ik_link(bone_size: u8, s: Seq<u8>, p: int) -> PRes<PmxIkLink> {
    bind(spec_index(bone_size, s, p), |bone_index: i32, p1: int|
    bind(spec_u8(s, p1), |limited: u8, p2: int|
    if limited != 0 {
        bind(spec_vec3(s, p2), |lower: [u32; 3], p3: int|
        bind(spec_vec3(s, p3), |upper: [u32; 3], p4: int|
        done(PmxIkLink { bone_index, angle_limits: Some((lower, upper)) }, p4)))
    } else {
        done(PmxIkLink { bone_index, angle_limits: None }, p2)
    }))
}

pub open spec fn ik_link_item(bone_size: u8, s: Seq<u8>) -> spec_fn(int) -> PRes<PmxIkLink> {
    |q: int| spec_ik_link(bone_size, s, q)
}

pub open spec fn spec_ik(bone_size: u8, s: Seq<u8>, p: int) -> PRes<SpecIk> {
    bind(spec_index(bone_size, s, p), |target_bone: i32, p1: int|
    bind(spec_len(s, p1), |iterations: usize, p2: int|
    bind(spec_f32(s, p2), |limit_radians: u32, p3: int|
    bind(counted(s, p3, ik_link_item(bone_size, s)), |links: Seq<PmxIkLink>, p4: int|
    done(SpecIk { target_bone, iterations: iterations as u32, limit_radians, links }, p4)))))
}

pub open spec fn spec_bone_ik(flags: PmxBoneFlags, bone_size: u8, s: Seq<u8>, p: int) -> PRes<Option<SpecIk>> {
    if flags.spec_contains(PmxBoneFlags::IK) {
        bind(spec_ik(bone_size, s, p), |ik: SpecIk, q: int| done(Some(ik), q))
    } else {
        done(None, p)
    }
}

/// Names, position, parent, layer and flags of a bone.
pub open spec fn spec_bone_head(h: SpecHeader, s: Seq<u8>, p: int) -> PRes<((Seq<char>, Seq<char>), [u32; 3], i32, i32, u16)> {
    bind(spec_names(h.encoding, s, p), |names: (Seq<char>, Seq<char>), p1: int|
    bind(spec_vec3(s, p1), |position: [u32; 3], p2: int|
    bind(spec_index(h.bone_index_size, s, p2), |parent_bone: i32, p3: int|
    bind(spec_i32(s, p3), |layer: i32, p4: int|
    bind(spec_u16(s, p4), |raw_flags: u16, p5: int|
    done((names, position, parent_bone, layer, raw_flags), p5))))))
}

/// The parts of a bone that its flags call for, before the IK block.
pub open spec fn spec_bone_parts(flags: PmxBoneFlags, bone_size: u8, s: Seq<u8>, p: int)
    -> PRes<(PmxBoneTail, Option<PmxBoneInheritance>, Option<[u32; 3]>, Option<PmxBoneAxes>, i32)> {
    bind(spec_tail(flags, bone_size, s, p), |tail: PmxBoneTail, p1: int|
    bind(spec_inheritance(flags, bone_size, s, p1), |inheritance: Option<PmxBoneInheritance>, p2: int|
    bind(spec_fixed_axis(flags, s, p2), |fixed_axis: Option<[u32; 3]>, p3: int|
    bind(spec_local_axes(flags, s, p3), |local_axes: Option<PmxBoneAxes>, p4: int|
    bind(spec_external_parent(flags, s, p4), |external_parent: i32, p5: int|
    done((tail, inheritance, fixed_axis, local_axes, external_parent), p5))))))
}

pub open spec fn make_bone(
    head: ((Seq<char>, Seq<char>), [u32; 3], i32, i32, u16),
    parts: (PmxBoneTail, Option<PmxBoneInheritance>, Option<[u32; 3]>, Option<PmxBoneAxes>, i32),
    ik: Option<SpecIk>,
) -> SpecBone {
    SpecBone {
        name: head.0.0,
        name_english: head.0.1,
        position: head.1,
        parent_bone: head.2,
        layer: head.3,
        flags: PmxBoneFlags(head.4),
        tail: parts.0,
        inheritance: parts.1,
        fixed_axis: parts.2,
        local_axes: parts.3,
        external_parent: parts.4,
        ik,
    }
}

/// A bone: names, position, parent, layer, flags, then the parts that the flags call for.
pub open spec fn spec_bone(h: SpecHeader, s: Seq<u8>, p: int) -> PRes<SpecBone> {
    bind(spec_bone_head(h, s, p), |head: ((Seq<char>, Seq<char>), [u32; 3], i32, i32, u16), p1: int|
    bind(spec_bone_parts(PmxBoneFlags(head.4), h.bone_index_size, s, p1),
        |parts: (PmxBoneTail, Option<PmxBoneInheritance>, Option<[u32; 3]>, Option<PmxBoneAxes>, i32), p2: int|
    bind(spec_bone_ik(PmxBoneFlags(head.4), h.bone_index_size, s, p2), |ik: Option<SpecIk>, p3: int|
    done(make_bone(head, parts, ik), p3))))
}

pub open spec fn bone_item(h: SpecHeader, s: Seq<u8>) -> spec_fn(int) -> PRes<SpecBone> {
    |q: int| spec_bone(h, s, q)
}

// ---------------------------------------------------------------------------------------------
// Morphs
// ---------------------------------------------------------------------------------------------

pub open spec fn spec_morph_panel(b: u8) -> Result<PmxMorphPanel, PmxError> {
    if b == 0 {
        Ok(PmxMorphPanel::System)
    } else if b == 1 {
        Ok(PmxMorphPanel::Eyebrow)
    } else if b == 2 {
        Ok(PmxMorphPanel::Eye)
    } else if b == 3 {
        Ok(PmxMorphPanel::Mouth)
    } else if b == 4 {
        Ok(PmxMorphPanel::Other)
    } else {
        Err(PmxError::InvalidFormat("unsupported PMX morph panel"))
    }
}

pub open spec fn spec_morph_kind(b: u8) -> Result<PmxMorphKind, PmxError> {
    if b == 0 {
        Ok(PmxMorphKind::Group)
    } else if b == 1 {
        Ok(PmxMorphKind::Vertex)
    } else if b == 2 {
        Ok(PmxMorphKind::Bone)
    } else if b == 3 {
        Ok(PmxMorphKind::Uv)
    } else if 4 <= b && b <= 7 {
        Ok(PmxMorphKind::AdditionalUv((b - 3) as usize))
    } else if b == 8 {
        Ok(PmxMorphKind::Material)
    } else if b == 9 {
        Ok(PmxMorphKind::Flip)
    } else if b == 10 {
        Ok(PmxMorphKind::Impulse)
    } else {
        Err(PmxError::InvalidFormat("unsupported PMX morph kind"))
    }
}

pub open spec fn spec_material_morph(s: Seq<u8>, p: int) -> PRes<PmxMaterialMorph> {
    bind(spec_vec4(s, p), |diffuse: [u32; 4], p1: int|
    bind(spec_vec3(s, p1), |specular: [u32; 3], p2: int|
    bind(spec_f32(s, p2), |specular_strength: u32, p3: int|
    bind(spec_vec3(s, p3), |ambient: [u32; 3], p4: int|
    bind(spec_vec4(s, p4), |edge_color: [u32; 4], p5: int|
    bind(spec_f32(s, p5), |edge_size: u32, p6: int|
    bind(spec_vec4(s, p6), |texture_tint: [u32; 4], p7: int|
    bind(spec_vec4(s, p7), |sphere_tint: [u32; 4], p8: int|
    bind(spec_vec4(s, p8), |toon_tint: [u32; 4], p9: int|
    done(PmxMaterialMorph {
        diffuse,
        specular,
        specular_strength,
        ambient,
        edge_color,
        edge_size,
        texture_tint,
        sphere_tint,
        toon_tint,
    }, p9))))))))))
}

pub open spec fn spec_material_morph_operation(b: u8) -> Result<PmxMaterialMorphOperation, PmxError> {
    if b == 0 {
        Ok(PmxMaterialMorphOperation::Multiply)
    } else if b == 1 {
        Ok(PmxMaterialMorphOperation::Add)
    } else {
        Err(PmxError::InvalidFormat("unsupported PMX material morph operation"))
    }
}

/// One offset of a morph; its layout is decided by the morph's kind.
pub open spec fn spec_morph_offset(h: SpecHeader, kind: PmxMorphKind, s: Seq<u8>, p: int) -> PRes<PmxMorphOffset> {
    match kind {
        PmxMorphKind::Group =>
            bind(spec_index(h.morph_index_size, s, p), |morph_index: i32, p1: int|
            bind(spec_f32(s, p1), |influence: u32, p2: int|
            done(PmxMorphOffset::Group { morph_index, influence }, p2))),
        PmxMorphKind::Vertex =>
            bind(spec_index(h.vertex_index_size, s, p), |vertex_index: i32, p1: int|
            bind(spec_vec3(s, p1), |offset: [u32; 3], p2: int|
            done(PmxMorphOffset::Vertex { vertex_index, offset }, p2))),
        PmxMorphKind::Bone =>
            bind(spec_index(h.bone_index_size, s, p), |bone_index: i32, p1: int|
            bind(spec_vec3(s, p1), |translation: [u32; 3], p2: int|
            bind(spec_vec4(s, p2), |rotation: [u32; 4], p3: int|
            done(PmxMorphOffset::Bone { bone_index, translation, rotation }, p3)))),
        PmxMorphKind::Uv | PmxMorphKind::AdditionalUv(_) =>
            bind(spec_index(h.vertex_index_size, s, p), |vertex_index: i32, p1: int|
            bind(spec_vec4(s, p1), |offset: [u32; 4], p2: int|
            done(PmxMorphOffset::Uv { vertex_index, offset }, p2))),
        PmxMorphKind::Material =>
            bind(spec_index(h.material_index_size, s, p), |material_index: i32, p1: int|
            bind(spec_u8(s, p1), |op: u8, p2: int|
            match spec_material_morph_operation(op) {
                Err(e) => Err(e),
                Ok(operation) =>
            bind(spec_material_morph(s, p2), |morph: PmxMaterialMorph, p3: int|
            done(PmxMorphOffset::Material { material_index, operation, morph }, p3)),
            })),
        PmxMorphKind::Flip =>
            bind(spec_index(h.morph_index_size, s, p), |morph_index: i32, p1: int|
            bind(spec_f32(s, p1), |influence: u32, p2: int|
            done(PmxMorphOffset::Flip { morph_index, influence }, p2))),
        PmxMorphKind::Impulse =>
            bind(spec_index(h.rigid_body_index_size, s, p), |rigid_body_index: i32, p1: int|
            bind(spec_u8(s, p1), |local: u8, p2: int|
            bind(spec_vec3(s, p2), |velocity: [u32; 3], p3: int|
            bind(spec_vec3(s, p3), |angular_velocity: [u32; 3], p4: int|
            done(PmxMorphOffset::Impulse { rigid_body_index, local: local != 0, velocity, angular_velocity }, p4))))),
    }
}

pub open spec fn morph_offset_item(h: SpecHeader, kind: PmxMorphKind, s: Seq<u8>) -> spec_fn(int) -> PRes<PmxMorphOffset> {
    |q: int| spec_morph_offset(h, kind, s, q)
}

pub open spec fn spec_morph(h: SpecHeader, s: Seq<u8>, p: int) -> PRes<SpecMorph> {
    bind(spec_names(h.encoding, s, p), |names: (Seq<char>, Seq<char>), p2: int|
    bind(spec_u8(s, p2), |panel_byte: u8, p3: int|
    match spec_morph_panel(panel_byte) {
        Err(e) => Err(e),
        Ok(panel) =>
    bind(spec_u8(s, p3), |kind_byte: u8, p4: int|
    match spec_morph_kind(kind_byte) {
        Err(e) => Err(e),
        Ok(kind) =>
    bind(counted(s, p4, morph_offset_item(h, kind, s)), |offsets: Seq<PmxMorphOffset>, p5: int|
    done(SpecMorph { name: names.0, name_english: names.1, panel, kind, offsets }, p5)),
    }),
    }))
}

pub open spec fn morph_item(h: SpecHeader, s: Seq<u8>) -> spec_fn(int) -> PRes<SpecMorph> {
    |q: int| spec_morph(h, s, q)
}

// ---------------------------------------------------------------------------------------------
// Display frames
// ---------------------------------------------------------------------------------------------

pub open spec fn spec_display_frame_item(h: SpecHeader, s: Seq<u8>, p: int) -> PRes<PmxDisplayFrameItem> {
    bind(spec_u8(s, p), |tag: u8, p1: int|
    if tag == 0 {
        bind(spec_index(h.bone_index_size, s, p1), |i: i32, p2: int| done(PmxDisplayFrameItem::Bone(i), p2))
    } else if tag == 1 {
        bind(spec_index(h.morph_index_size, s, p1), |i: i32, p2: int| done(PmxDisplayFrameItem::Morph(i), p2))
    } else {
        Err(PmxError::InvalidFormat("unsupported PMX display frame item"))
    })
}

pub open spec fn display_frame_item_item(h: SpecHeader, s: Seq<u8>) -> spec_fn(int) -> PRes<PmxDisplayFrameItem> {
    |q: int| spec_display_frame_item(h, s, q)
}

pub open spec fn spec_display_frame(h: SpecHeader, s: Seq<u8>, p: int) -> PRes<SpecDisplayFrame> {
    bind(spec_names(h.encoding, s, p), |names: (Seq<char>, Seq<char>), p2: int|
    bind(spec_u8(s, p2), |special: u8, p3: int|
    bind(counted(s, p3, display_frame_item_item(h, s)), |items: Seq<PmxDisplayFrameItem>, p4: int|
    done(SpecDisplayFrame { name: names.0, name_english: names.1, special: special != 0, items }, p4))))
}

pub open spec fn display_frame_item(h: SpecHeader, s: Seq<u8>) -> spec_fn(int) -> PRes<SpecDisplayFrame> {
    |q: int| spec_display_frame(h, s, q)
}

// ---------------------------------------------------------------------------------------------
// Rigid bodies, joints, soft bodies
// ---------------------------------------------------------------------------------------------

pub open spec fn spec_rigid_body_shape(b: u8) -> Result<PmxRigidBodyShape, PmxError> {
    if b == 0 {
        Ok(PmxRigidBodyShape::Sphere)
    } else if b == 1 {
        Ok(PmxRigidBodyShape::Box)
    } else if b == 2 {
        Ok(PmxRigidBodyShape::Capsule)
    } else {
        Err(PmxError::InvalidFormat("unsupported PMX rigid body shape"))
    }
}

pub open spec fn spec_rigid_body_mode(b: u8) -> Result<PmxRigidBodyMode, PmxError> {
    if b == 0 {
        Ok(PmxRigidBodyMode::FollowBone)
    } else if b == 1 {
        Ok(PmxRigidBodyMode::Physics)
    } else if b == 2 {
        Ok(PmxRigidBodyMode::PhysicsAndBone)
    } else {
        Err(PmxError::InvalidFormat("unsupported PMX rigid body mode"))
    }
}

/// Five consecutive floats.
pub open spec fn spec_f32x5(s: Seq<u8>, p: int) -> PRes<[u32; 5]> {
    bind(spec_f32(s, p), |a: u32, p1: int|
    bind(spec_f32(s, p1), |b: u32, p2: int|
    bind(spec_f32(s, p2), |c: u32, p3: int|
    bind(spec_f32(s, p3), |d: u32, p4: int|
    bind(spec_f32(s, p4), |e: u32, p5: int|
    done([a, b, c, d, e], p5))))))
}

/// Three consecutive 3-vectors.
pub open spec fn spec_vec3x3(s: Seq<u8>, p: int) -> PRes<[[u32; 3]; 3]> {
    bind(spec_vec3(s, p), |a: [u32; 3], p1: int|
    bind(spec_vec3(s, p1), |b: [u32; 3], p2: int|
    bind(spec_vec3(s, p2), |c: [u32; 3], p3: int|
    done([a, b, c], p3))))
}

/// Names, bone, collision group and mask of a rigid body.
pub open spec fn spec_rigid_body_head(h: SpecHeader, s: Seq<u8>, p: int) -> PRes<((Seq<char>, Seq<char>), i32, u8, u16)> {
    bind(spec_names(h.encoding, s, p), |names: (Seq<char>, Seq<char>), p1: int|
    bind(spec_index(h.bone_index_size, s, p1), |bone_index: i32, p2: int|
    bind(spec_u8(s, p2), |group: u8, p3: int|
    bind(spec_u16(s, p3), |mask: u16, p4: int|
    done((names, bone_index, group, mask), p4)))))
}

pub open spec fn make_rigid_body(
    head: ((Seq<char>, Seq<char>), i32, u8, u16),
    shape: PmxRigidBodyShape,
    geometry: [[u32; 3]; 3],
    physics: [u32; 5],
    mode: PmxRigidBodyMode,
) -> SpecRigidBody {
    SpecRigidBody {
        name: head.0.0,
        name_english: head.0.1,
        bone_index: head.1,
        group: head.2,
        mask: head.3,
        shape,
        size: geometry[0],
        position: geometry[1],
        rotation: geometry[2],
        mass: physics[0],
        linear_damping: physics[1],
        angular_damping: physics[2],
        restitution: physics[3],
        friction: physics[4],
        mode,
    }
}

pub open spec fn spec_rigid_body(h: SpecHeader, s: Seq<u8>, p: int) -> PRes<SpecRigidBody> {
    bind(spec_rigid_body_head(h, s, p), |head: ((Seq<char>, Seq<char>), i32, u8, u16), p5: int|
    bind(spec_u8(s, p5), |shape_byte: u8, p6: int|
    match spec_rigid_body_shape(shape_byte) {
        Err(e) => Err(e),
        Ok(shape) =>
    bind(spec_vec3x3(s, p6), |geometry: [[u32; 3]; 3], p7: int|
    bind(spec_f32x5(s, p7), |physics: [u32; 5], p8: int|
    bind(spec_u8(s, p8), |mode_byte: u8, p9: int|
    match spec_rigid_body_mode(mode_byte) {
        Err(e) => Err(e),
        Ok(mode) => done(make_rigid_body(head, shape, geometry, physics, mode), p9),
    }))),
    }))
}

pub open spec fn rigid_body_item(h: SpecHeader, s: Seq<u8>) -> spec_fn(int) -> PRes<SpecRigidBody> {
    |q: int| spec_rigid_body(h, s, q)
}

pub open spec fn spec_joint_kind(b: u8) -> Result<PmxJointKind, PmxError> {
    if b == 0 {
        Ok(PmxJointKind::Spring6Dof)
    } else if b == 1 {
        Ok(PmxJointKind::SixDof)
    } else if b == 2 {
        Ok(PmxJointKind::P2p)
    } else if b == 3 {
        Ok(PmxJointKind::ConeTwist)
    } else if b == 4 {
        Ok(PmxJointKind::Slider)
    } else if b == 5 {
        Ok(PmxJointKind::Hinge)
    } else {
        Err(PmxError::InvalidFormat("unsupported PMX joint kind"))
    }
}

/// Eight consecutive 3-vectors.
pub open spec fn spec_vec3x8(s: Seq<u8>, p: int) -> PRes<[[u32; 3]; 8]> {
    bind(spec_vec3(s, p), |a: [u32; 3], p1: int|
    bind(spec_vec3(s, p1), |b: [u32; 3], p2: int|
    bind(spec_vec3(s, p2), |c: [u32; 3], p3: int|
    bind(spec_vec3(s, p3), |d: [u32; 3], p4: int|
    bind(spec_vec3(s, p4), |e: [u32; 3], p5: int|
    bind(spec_vec3(s, p5), |f: [u32; 3], p6: int|
    bind(spec_vec3(s, p6), |g: [u32; 3], p7: int|
    bind(spec_vec3(s, p7), |k: [u32; 3], p8: int|
    done([a, b, c, d, e, f, g, k], p8)))))))))
}

pub open spec fn spec_joint(h: SpecHeader, s: Seq<u8>, p: int) -> PRes<SpecJoint> {
    bind(spec_names(h.encoding, s, p), |names: (Seq<char>, Seq<char>), p2: int|
    bind(spec_u8(s, p2), |kind_byte: u8, p3: int|
    match spec_joint_kind(kind_byte) {
        Err(e) => Err(e),
        Ok(joint_type) =>
    bind(spec_index(h.rigid_body_index_size, s, p3), |body_a: i32, p4: int|
    bind(spec_index(h.rigid_body_index_size, s, p4), |body_b: i32, p5: int|
    bind(spec_vec3x8(s, p5), |v: [[u32; 3]; 8], p6: int|
    done(SpecJoint {
        name: names.0,
        name_english: names.1,
        joint_type,
        body_a,
        body_b,
        position: v[0],
        rotation: v[1],
        translation_limit_min: v[2],
        translation_limit_max: v[3],
        rotation_limit_min: v[4],
        rotation_limit_max: v[5],
        spring_translation: v[6],
        spring_rotation: v[7],
    }, p6)))),
    }))
}

pub open spec fn joint_item(h: SpecHeader, s: Seq<u8>) -> spec_fn(int) -> PRes<SpecJoint> {
    |q: int| spec_joint(h, s, q)
}

pub open spec fn spec_soft_body_shape(b: u8) -> Result<PmxSoftBodyShape, PmxError> {
    if b == 0 {
        Ok(PmxSoftBodyShape::TriMesh)
    } else if b == 1 {
        Ok(PmxSoftBodyShape::Rope)
    } else {
        Err(PmxError::InvalidFormat("unsupported PMX soft body shape"))
    }
}

/// The aerodynamics model a stored number names; any number is accepted, and one outside the
/// documented models is kept as it is.
pub open spec fn spec_soft_body_aero_model(v: i32) -> PmxSoftBodyAeroModel {
    if v == 0 {
        PmxSoftBodyAeroModel::VertexPoint
    } else if v == 1 {
        PmxSoftBodyAeroModel::VertexTwoSided
    } else if v == 2 {
        PmxSoftBodyAeroModel::VertexOneSided
    } else if v == 3 {
        PmxSoftBodyAeroModel::FaceTwoSided
    } else if v == 4 {
        PmxSoftBodyAeroModel::FaceOneSided
    } else {
        PmxSoftBodyAeroModel::Other(v)
    }
}

pub open spec fn spec_soft_body_config(s: Seq<u8>, p: int) -> PRes<PmxSoftBodyConfig> {
    bind(spec_vec4(s, p), |a: [u32; 4], p1: int|
    bind(spec_vec4(s, p1), |b: [u32; 4], p2: int|
    bind(spec_vec4(s, p2), |c: [u32; 4], p3: int|
    done(PmxSoftBodyConfig {
        vcf: a[0], dp: a[1], dg: a[2], lf: a[3],
        pr: b[0], vc: b[1], df: b[2], mt: b[3],
        chr: c[0], khr: c[1], shr: c[2], ahr: c[3],
    }, p3))))
}

pub open spec fn spec_soft_body_cluster(s: Seq<u8>, p: int) -> PRes<PmxSoftBodyCluster> {
    bind(spec_vec3(s, p), |a: [u32; 3], p1: int|
    bind(spec_vec3(s, p1), |b: [u32; 3], p2: int|
    done(PmxSoftBodyCluster {
        srhr_cl: a[0], skhr_cl: a[1], sshr_cl: a[2],
        sr_splt_cl: b[0], sk_splt_cl: b[1], ss_splt_cl: b[2],
    }, p2)))
}

pub open spec fn spec_soft_body_iteration(s: Seq<u8>, p: int) -> PRes<PmxSoftBodyIteration> {
    bind(spec_i32(s, p), |v_it: i32, p1: int|
    bind(spec_i32(s, p1), |p_it: i32, p2: int|
    bind(spec_i32(s, p2), |d_it: i32, p3: int|
    bind(spec_i32(s, p3), |c_it: i32, p4: int|
    done(PmxSoftBodyIteration { v_it, p_it, d_it, c_it }, p4)))))
}

pub open spec fn spec_soft_body_material(s: Seq<u8>, p: int) -> PRes<PmxSoftBodyMaterial> {
    bind(spec_vec3(s, p), |a: [u32; 3], q: int|
    done(PmxSoftBodyMaterial { lst: a[0], ast: a[1], vst: a[2] }, q))
}

pub open spec fn spec_soft_body_anchor(h: SpecHeader, s: Seq<u8>, p: int) -> PRes<PmxSoftBodyAnchorRigidBody> {
    bind(spec_index(h.rigid_body_index_size, s, p), |rigid_body_index: i32, p1: int|
    bind(spec_vertex_index(h.vertex_index_size, s, p1), |vertex_index: u32, p2: int|
    bind(spec_u8(s, p2), |near: u8, p3: int|
    done(PmxSoftBodyAnchorRigidBody { rigid_body_index, vertex_index, near_mode: near != 0 }, p3))))
}

pub open spec fn soft_body_anchor_item(h: SpecHeader, s: Seq<u8>) -> spec_fn(int) -> PRes<PmxSoftBodyAnchorRigidBody> {
    |q: int| spec_soft_body_anchor(h, s, q)
}

/// Flags, B-link distance, cluster count, total mass, collision margin and aerodynamics model.
pub open spec fn spec_soft_body_params(s: Seq<u8>, p: int) -> PRes<(u8, i32, i32, u32, u32, PmxSoftBodyAeroModel)> {
    bind(spec_u8(s, p), |flags: u8, p1: int|
    bind(spec_i32(s, p1), |b_link_distance: i32, p2: int|
    bind(spec_i32(s, p2), |num_clusters: i32, p3: int|
    bind(spec_f32(s, p3), |total_mass: u32, p4: int|
    bind(spec_f32(s, p4), |collision_margin: u32, p5: int|
    bind(spec_i32(s, p5), |aero: i32, p6: int|
    done((flags, b_link_distance, num_clusters, total_mass, collision_margin, spec_soft_body_aero_model(aero)), p6)))))))
}

/// Names, shape, material, collision group and mask of a soft body.
pub open spec fn spec_soft_body_head(h: SpecHeader, s: Seq<u8>, p: int)
    -> PRes<((Seq<char>, Seq<char>), PmxSoftBodyShape, i32, u8, u16)> {
    bind(spec_names(h.encoding, s, p), |names: (Seq<char>, Seq<char>), p2: int|
    bind(spec_u8(s, p2), |shape_byte: u8, p3: int|
    match spec_soft_body_shape(shape_byte) {
        Err(e) => Err(e),
        Ok(shape) =>
    bind(spec_index(h.material_index_size, s, p3), |material_index: i32, p4: int|
    bind(spec_u8(s, p4), |group: u8, p5: int|
    bind(spec_u16(s, p5), |mask: u16, p6: int|
    done((names, shape, material_index, group, mask), p6)))),
    }))
}

/// The simulation settings of a soft body.
pub open spec fn spec_soft_body_settings(s: Seq<u8>, p: int) -> PRes<(
    (u8, i32, i32, u32, u32, PmxSoftBodyAeroModel),
    PmxSoftBodyConfig,
    PmxSoftBodyCluster,
    PmxSoftBodyIteration,
    PmxSoftBodyMaterial,
)> {
    bind(spec_soft_body_params(s, p), |params: (u8, i32, i32, u32, u32, PmxSoftBodyAeroModel), p7: int|
    bind(spec_soft_body_config(s, p7), |config: PmxSoftBodyConfig, p8: int|
    bind(spec_soft_body_cluster(s, p8), |cluster: PmxSoftBodyCluster, p9: int|
    bind(spec_soft_body_iteration(s, p9), |iteration: PmxSoftBodyIteration, p10: int|
    bind(spec_soft_body_material(s, p10), |material: PmxSoftBodyMaterial, p11: int|
    done((params, config, cluster, iteration, material), p11))))))
}

pub open spec fn make_soft_body(
    head: ((Seq<char>, Seq<char>), PmxSoftBodyShape, i32, u8, u16),
    settings: (
        (u8, i32, i32, u32, u32, PmxSoftBodyAeroModel),
        PmxSoftBodyConfig,
        PmxSoftBodyCluster,
        PmxSoftBodyIteration,
        PmxSoftBodyMaterial,
    ),
    anchor_rigid_bodies: Seq<PmxSoftBodyAnchorRigidBody>,
    pin_vertices: Seq<u32>,
) -> SpecSoftBody {
    SpecSoftBody {
        name: head.0.0,
        name_english: head.0.1,
        shape: head.1,
        material_index: head.2,
        group: head.3,
        mask: head.4,
        flags: PmxSoftBodyFlags(settings.0.0),
        b_link_distance: settings.0.1,
        num_clusters: settings.0.2,
        total_mass: settings.0.3,
        collision_margin: settings.0.4,
        aero_model: settings.0.5,
        config: settings.1,
        cluster: settings.2,
        iteration: settings.3,
        material: settings.4,
        anchor_rigid_bodies,
        pin_vertices,
    }
}

/// A soft body (PMX 2.1): head, simulation settings, rigid-body anchors and pinned vertices.
pub open spec fn spec_soft_body(h: SpecHeader, s: Seq<u8>, p: int) -> PRes<SpecSoftBody> {
    bind(spec_soft_body_head(h, s, p), |head: ((Seq<char>, Seq<char>), PmxSoftBodyShape, i32, u8, u16), p1: int|
    bind(spec_soft_body_settings(s, p1), |settings: (
        (u8, i32, i32, u32, u32, PmxSoftBodyAeroModel),
        PmxSoftBodyConfig,
        PmxSoftBodyCluster,
        PmxSoftBodyIteration,
        PmxSoftBodyMaterial,
    ), p2: int|
    bind(counted(s, p2, soft_body_anchor_item(h, s)), |anchor_rigid_bodies: Seq<PmxSoftBodyAnchorRigidBody>, p3: int|
    bind(counted(s, p3, vertex_index_item(h.vertex_index_size, s)), |pin_vertices: Seq<u32>, p4: int|
    done(make_soft_body(head, settings, anchor_rigid_bodies, pin_vertices), p4)))))
}

pub open spec fn soft_body_item(h: SpecHeader, s: Seq<u8>) -> spec_fn(int) -> PRes<SpecSoftBody> {
    |q: int| spec_soft_body(h, s, q)
}


// ---------------------------------------------------------------------------------------------
// Executable readers of the records above
// ---------------------------------------------------------------------------------------------

fn sphere_mode_from_byte(b: u8) -> (r: PmxResult<PmxSphereMode>)
    ensures
        r == spec_sphere_mode(b),
{
    match b {
        0 => Ok(PmxSphereMode::Disabled),
        1 => Ok(PmxSphereMode::Multiply),
        2 => Ok(PmxSphereMode::Add),
        3 => Ok(PmxSphereMode::SubTexture),
        _ => Err(PmxError::InvalidFormat("unsupported PMX sphere mode")),
    }
}

fn morph_panel_from_byte(b: u8) -> (r: PmxResult<PmxMorphPanel>)
    ensures
        r == spec_morph_panel(b),
{
    match b {
        0 => Ok(PmxMorphPanel::System),
        1 => Ok(PmxMorphPanel::Eyebrow),
        2 => Ok(PmxMorphPanel::Eye),
        3 => Ok(PmxMorphPanel::Mouth),
        4 => Ok(PmxMorphPanel::Other),
        _ => Err(PmxError::InvalidFormat("unsupported PMX morph panel")),
    }
}

fn morph_kind_from_byte(b: u8) -> (r: PmxResult<PmxMorphKind>)
    ensures
        r == spec_morph_kind(b),
{
    if b == 0 {
        Ok(PmxMorphKind::Group)
    } else if b == 1 {
        Ok(PmxMorphKind::Vertex)
    } else if b == 2 {
        Ok(PmxMorphKind::Bone)
    } else if b == 3 {
        Ok(PmxMorphKind::Uv)
    } else if 4 <= b && b <= 7 {
        Ok(PmxMorphKind::AdditionalUv((b - 3) as usize))
    } else if b == 8 {
        Ok(PmxMorphKind::Material)
    } else if b == 9 {
        Ok(PmxMorphKind::Flip)
    } else if b == 10 {
        Ok(PmxMorphKind::Impulse)
    } else {
        Err(PmxError::InvalidFormat("unsupported PMX morph kind"))
    }
}

fn material_morph_operation_from_byte(b: u8) -> (r: PmxResult<PmxMaterialMorphOperation>)
    ensures
        r == spec_material_morph_operation(b),
{
    match b {
        0 => Ok(PmxMaterialMorphOperation::Multiply),
        1 => Ok(PmxMaterialMorphOperation::Add),
        _ => Err(PmxError::InvalidFormat("unsupported PMX material morph operation")),
    }
}

fn rigid_body_shape_from_byte(b: u8) -> (r: PmxResult<PmxRigidBodyShape>)
    ensures
        r == spec_rigid_body_shape(b),
{
    match b {
        0 => Ok(PmxRigidBodyShape::Sphere),
        1 => Ok(PmxRigidBodyShape::Box),
        2 => Ok(PmxRigidBodyShape::Capsule),
        _ => Err(PmxError::InvalidFormat("unsupported PMX rigid body shape")),
    }
}

fn rigid_body_mode_from_byte(b: u8) -> (r: PmxResult<PmxRigidBodyMode>)
    ensures
        r == spec_rigid_body_mode(b),
{
    match b {
        0 => Ok(PmxRigidBodyMode::FollowBone),
        1 => Ok(PmxRigidBodyMode::Physics),
        2 => Ok(PmxRigidBodyMode::PhysicsAndBone),
        _ => Err(PmxError::InvalidFormat("unsupported PMX rigid body mode")),
    }
}

fn joint_kind_from_byte(b: u8) -> (r: PmxResult<PmxJointKind>)
    ensures
        r == spec_joint_kind(b),
{
    match b {
        0 => Ok(PmxJointKind::Spring6Dof),
        1 => Ok(PmxJointKind::SixDof),
        2 => Ok(PmxJointKind::P2p),
        3 => Ok(PmxJointKind::ConeTwist),
        4 => Ok(PmxJointKind::Slider),
        5 => Ok(PmxJointKind::Hinge),
        _ => Err(PmxError::InvalidFormat("unsupported PMX joint kind")),
    }
}

fn soft_body_shape_from_byte(b: u8) -> (r: PmxResult<PmxSoftBodyShape>)
    ensures
        r == spec_soft_body_shape(b),
{
    match b {
        0 => Ok(PmxSoftBodyShape::TriMesh),
        1 => Ok(PmxSoftBodyShape::Rope),
        _ => Err(PmxError::InvalidFormat("unsupported PMX soft body shape")),
    }
}

fn soft_body_aero_model_from(v: i32) -> (r: PmxSoftBodyAeroModel)
    ensures
        r == spec_soft_body_aero_model(v),
{
    match v {
        0 => PmxSoftBodyAeroModel::VertexPoint,
        1 => PmxSoftBodyAeroModel::VertexTwoSided,
        2 => PmxSoftBodyAeroModel::VertexOneSided,
        3 => PmxSoftBodyAeroModel::FaceTwoSided,
        4 => PmxSoftBodyAeroModel::FaceOneSided,
        _ => PmxSoftBodyAeroModel::Other(v),
    }
}

impl<'a> PmxParser<'a> {
    fn read_names(&mut self, encoding: PmxTextEncoding) -> (r: PmxResult<(String, String)>)
        requires
            old(self).wf(),
        ensures
            old(self).same_input(final(self)),
            match spec_names(encoding, old(self).bytes@, old(self).pos as int) {
                Ok((v, q)) => (r matches Ok(x) && x.0@ == v.0 && x.1@ == v.1) && final(self).pos == q,
                Err(e) => r == Err::<(String, String), PmxError>(e),
            },
    {
        let name = self.read_text(encoding)?;
        let name_english = self.read_text(encoding)?;
        Ok((name, name_english))
    }

    fn read_material_colors(&mut self) -> (r: PmxResult<([u32; 4], [u32; 3], u32, [u32; 3], u8, [u32; 4], u32)>)
        requires
            old(self).wf(),
        ensures
            old(self).same_input(final(self)),
            step(r, spec_material_colors(old(self).bytes@, old(self).pos as int), final(self).pos as int),
    {
        let diffuse = self.read_vec4()?;
        let specular = self.read_vec3()?;
        let specular_strength = self.read_f32()?;
        let ambient = self.read_vec3()?;
        let flags = self.read_u8()?;
        let edge_color = self.read_vec4()?;
        let edge_size = self.read_f32()?;
        Ok((diffuse, specular, specular_strength, ambient, flags, edge_color, edge_size))
    }

    fn read_toon_index(&mut self, sharing: bool, texture_size: u8) -> (r: PmxResult<i32>)
        requires
            old(self).wf(),
        ensures
            old(self).same_input(final(self)),
            step(r, spec_toon_index(sharing, texture_size, old(self).bytes@, old(self).pos as int), final(self).pos as int),
    {
        if sharing {
            let b = self.read_u8()?;
            Ok(b as i32)
        } else {
            self.read_index(texture_size)
        }
    }

    pub(crate) fn read_material(&mut self, header: &PmxHeader) -> (r: PmxResult<PmxMaterial>)
        requires
            old(self).wf(),
        ensures
            old(self).same_input(final(self)),
            step_view(r, spec_material(header@, old(self).bytes@, old(self).pos as int), final(self).pos as int),
    {
        let (name, name_english) = self.read_names(header.encoding)?;
        let colors = self.read_material_colors()?;
        let texture_index = self.read_index(header.texture_index_size)?;
        let sphere_texture_index = self.read_index(header.texture_index_size)?;
        let sphere_mode = sphere_mode_from_byte(self.read_u8()?)?;
        let toon_sharing = self.read_u8()? != 0;
        let toon_texture_index = self.read_toon_index(toon_sharing, header.texture_index_size)?;
        let comment = self.read_text(header.encoding)?;
        let surface_count = self.read_len()?;
        let (diffuse, specular, specular_strength, ambient, flags, edge_color, edge_size) = colors;
        Ok(PmxMaterial {
            name,
            name_english,
            diffuse,
            specular,
            specular_strength,
            ambient,
            flags: PmxMaterialFlags(flags),
            edge_color,
            edge_size,
            texture_index,
            sphere_texture_index,
            sphere_mode,
            toon_sharing,
            toon_texture_index,
            comment,
            surface_count: surface_count as u32,
        })
    }

    fn read_tail(&mut self, flags: PmxBoneFlags, bone_size: u8) -> (r: PmxResult<PmxBoneTail>)
        requires
            old(self).wf(),
        ensures
            old(self).same_input(final(self)),
            step(r, spec_tail(flags, bone_size, old(self).bytes@, old(self).pos as int), final(self).pos as int),
    {
        if flags.contains(PmxBoneFlags::TAIL_BONE) {
            let i = self.read_index(bone_size)?;
            Ok(PmxBoneTail::BoneIndex(i))
        } else {
            let v = self.read_vec3()?;
            Ok(PmxBoneTail::Offset(v))
        }
    }

    fn read_inheritance(&mut self, flags: PmxBoneFlags, bone_size: u8) -> (r: PmxResult<Option<PmxBoneInheritance>>)
        requires
            old(self).wf(),
        ensures
            old(self).same_input(final(self)),
            step(r, spec_inheritance(flags, bone_size, old(self).bytes@, old(self).pos as int), final(self).pos as int),
    {
        if flags.contains(PmxBoneFlags::INHERIT_ROTATION) || flags.contains(PmxBoneFlags::INHERIT_TRANSLATION) {
            let parent_bone = self.read_index(bone_size)?;
            let influence = self.read_f32()?;
            Ok(Some(PmxBoneInheritance {
                parent_bone,
                influence,
                affects_translation: flags.contains(PmxBoneFlags::INHERIT_TRANSLATION),
                affects_rotation: flags.contains(PmxBoneFlags::INHERIT_ROTATION),
            }))
        } else {
            Ok(None)
        }
    }

    fn read_fixed_axis(&mut self, flags: PmxBoneFlags) -> (r: PmxResult<Option<[u32; 3]>>)
        requires
            old(self).wf(),
        ensures
            old(self).same_input(final(self)),
            step(r, spec_fixed_axis(flags, old(self).bytes@, old(self).pos as int), final(self).pos as int),
    {
        if flags.contains(PmxBoneFlags::FIXED_AXIS) {
            let v = self.read_vec3()?;
            Ok(Some(v))
        } else {
            Ok(None)
        }
    }

    fn read_local_axes(&mut self, flags: PmxBoneFlags) -> (r: PmxResult<Option<PmxBoneAxes>>)
        requires
            old(self).wf(),
        ensures
            old(self).same_input(final(self)),
            step(r, spec_local_axes(flags, old(self).bytes@, old(self).pos as int), final(self).pos as int),
    {
        if flags.contains(PmxBoneFlags::LOCAL_AXES) {
            let local_x = self.read_vec3()?;
            let local_z = self.read_vec3()?;
            Ok(Some(PmxBoneAxes { local_x, local_z }))
        } else {
            Ok(None)
        }
    }

    fn read_external_parent(&mut self, flags: PmxBoneFlags) -> (r: PmxResult<i32>)
        requires
            old(self).wf(),
        ensures
            old(self).same_input(final(self)),
            step(r, spec_external_parent(flags, old(self).bytes@, old(self).pos as int), final(self).pos as int),
    {
        if flags.contains(PmxBoneFlags::EXTERNAL_PARENT_DEFORM) {
            self.read_i32()
        } else {
            Ok(-1)
        }
    }

    fn read_ik_link(&mut self, bone_size: u8) -> (r: PmxResult<PmxIkLink>)
        requires
            old(self).wf(),
        ensures
            old(self).same_input(final(self)),
            step(r, spec_ik_link(bone_size, old(self).bytes@, old(self).pos as int), final(self).pos as int),
    {
        let bone_index = self.read_index(bone_size)?;
        let limited = self.read_u8()?;
        if limited != 0 {
            let lower = self.read_vec3()?;
            let upper = self.read_vec3()?;
            Ok(PmxIkLink { bone_index, angle_limits: Some((lower, upper)) })
        } else {
            Ok(PmxIkLink { bone_index, angle_limits: None })
        }
    }

    fn read_ik_links(&mut self, bone_size: u8) -> (r: PmxResult<Vec<PmxIkLink>>)
        requires
            old(self).wf(),
        ensures
            old(self).same_input(final(self)),
            step_vec(r, counted(old(self).bytes@, old(self).pos as int, ik_link_item(bone_size, old(self).bytes@)), final(self).pos as int),
    {
        let ghost s = self.bytes@;
        let count = self.read_len()?;
        let ghost p0 = self.pos as int;
        let mut items: Vec<PmxIkLink> = Vec::new();
        let mut i: usize = 0;
        while i < count
            invariant
                old(self).same_input(self),
                s == self.bytes@,
                spec_len(s, old(self).pos as int) == Ok::<(usize, int), PmxError>((count, p0)),
                i <= count,
                repeat(i as nat, p0, ik_link_item(bone_size, s)) == Ok::<(Seq<PmxIkLink>, int), PmxError>((items@, self.pos as int)),
            decreases count - i,
        {
            match self.read_ik_link(bone_size) {
                Ok(v) => {
                    items.push(v);
                    i = i + 1;
                },
                Err(e) => {
                    proof {
                        lemma_repeat_err((i + 1) as nat, count as nat, p0, ik_link_item(bone_size, s), e);
                    }
                    return Err(e);
                },
            }
        }
        Ok(items)
    }

    pub(crate) fn read_ik(&mut self, bone_size: u8) -> (r: PmxResult<PmxIk>)
        requires
            old(self).wf(),
        ensures
            old(self).same_input(final(self)),
            step_view(r, spec_ik(bone_size, old(self).bytes@, old(self).pos as int), final(self).pos as int),
    {
        let target_bone = self.read_index(bone_size)?;
        let iterations = self.read_len()?;
        let limit_radians = self.read_f32()?;
        let links = self.read_ik_links(bone_size)?;
        Ok(PmxIk { target_bone, iterations: iterations as u32, limit_radians, links })
    }

    fn read_bone_ik(&mut self, flags: PmxBoneFlags, bone_size: u8) -> (r: PmxResult<Option<PmxIk>>)
        requires
            old(self).wf(),
        ensures
            old(self).same_input(final(self)),
            match spec_bone_ik(flags, bone_size, old(self).bytes@, old(self).pos as int) {
                Ok((v, q)) => (r matches Ok(x) && ik_view(x) == v) && final(self).pos == q,
                Err(e) => r == Err::<Option<PmxIk>, PmxError>(e),
            },
    {
        if flags.contains(PmxBoneFlags::IK) {
            let ik = self.read_ik(bone_size)?;
            Ok(Some(ik))
        } else {
            Ok(None)
        }
    }

    fn read_bone_head(&mut self, header: &PmxHeader) -> (r: PmxResult<((String, String), [u32; 3], i32, i32, u16)>)
        requires
            old(self).wf(),
        ensures
            old(self).same_input(final(self)),
            match spec_bone_head(header@, old(self).bytes@, old(self).pos as int) {
                Ok((v, q)) => (r matches Ok(x) && x.0.0@ == v.0.0 && x.0.1@ == v.0.1 && x.1 == v.1
                    && x.2 == v.2 && x.3 == v.3 && x.4 == v.4) && final(self).pos == q,
                Err(e) => r == Err::<((String, String), [u32; 3], i32, i32, u16), PmxError>(e),
            },
    {
        let names = self.read_names(header.encoding)?;
        let position = self.read_vec3()?;
        let parent_bone = self.read_index(header.bone_index_size)?;
        let layer = self.read_i32()?;
        let raw_flags = self.read_u16()?;
        Ok((names, position, parent_bone, layer, raw_flags))
    }

    fn read_bone_parts(&mut self, flags: PmxBoneFlags, bone_size: u8)
        -> (r: PmxResult<(PmxBoneTail, Option<PmxBoneInheritance>, Option<[u32; 3]>, Option<PmxBoneAxes>, i32)>)
        requires
            old(self).wf(),
        ensures
            old(self).same_input(final(self)),
            step(r, spec_bone_parts(flags, bone_size, old(self).bytes@, old(self).pos as int), final(self).pos as int),
    {
        let tail = self.read_tail(flags, bone_size)?;
        let inheritance = self.read_inheritance(flags, bone_size)?;
        let fixed_axis = self.read_fixed_axis(flags)?;
        let local_axes = self.read_local_axes(flags)?;
        let external_parent = self.read_external_parent(flags)?;
        Ok((tail, inheritance, fixed_axis, local_axes, external_parent))
    }

    pub(crate) fn read_bone(&mut self, header: &PmxHeader) -> (r: PmxResult<PmxBone>)
        requires
            old(self).wf(),
        ensures
            old(self).same_input(final(self)),
            step_view(r, spec_bone(header@, old(self).bytes@, old(self).pos as int), final(self).pos as int),
    {
        let head = self.read_bone_head(header)?;
        let ((name, name_english), position, parent_bone, layer, raw_flags) = head;
        let flags = PmxBoneFlags(raw_flags);
        let parts = self.read_bone_parts(flags, header.bone_index_size)?;
        let ik = self.read_bone_ik(flags, header.bone_index_size)?;
        let (tail, inheritance, fixed_axis, local_axes, external_parent) = parts;
        Ok(PmxBone {
            name,
            name_english,
            position,
            parent_bone,
            layer,
            flags,
            tail,
            inheritance,
            fixed_axis,
            local_axes,
            external_parent,
            ik,
        })
    }

    fn read_material_morph(&mut self) -> (r: PmxResult<PmxMaterialMorph>)
        requires
            old(self).wf(),
        ensures
            old(self).same_input(final(self)),
            step(r, spec_material_morph(old(self).bytes@, old(self).pos as int), final(self).pos as int),
    {
        let diffuse = self.read_vec4()?;
        let specular = self.read_vec3()?;
        let specular_strength = self.read_f32()?;
        let ambient = self.read_vec3()?;
        let edge_color = self.read_vec4()?;
        let edge_size = self.read_f32()?;
        let texture_tint = self.read_vec4()?;
        let sphere_tint = self.read_vec4()?;
        let toon_tint = self.read_vec4()?;
        Ok(PmxMaterialMorph {
            diffuse,
            specular,
            specular_strength,
            ambient,
            edge_color,
            edge_size,
            texture_tint,
            sphere_tint,
            toon_tint,
        })
    }

    fn read_morph_offset(&mut self, header: &PmxHeader, kind: PmxMorphKind) -> (r: PmxResult<PmxMorphOffset>)
        requires
            old(self).wf(),
        ensures
            old(self).same_input(final(self)),
            step(r, spec_morph_offset(header@, kind, old(self).bytes@, old(self).pos as int), final(self).pos as int),
    {
        match kind {
            PmxMorphKind::Group => {
                let morph_index = self.read_index(header.morph_index_size)?;
                let influence = self.read_f32()?;
                Ok(PmxMorphOffset::Group { morph_index, influence })
            },
            PmxMorphKind::Vertex => {
                let vertex_index = self.read_index(header.vertex_index_size)?;
                let offset = self.read_vec3()?;
                Ok(PmxMorphOffset::Vertex { vertex_index, offset })
            },
            PmxMorphKind::Bone => {
                let bone_index = self.read_index(header.bone_index_size)?;
                let translation = self.read_vec3()?;
                let rotation = self.read_vec4()?;
                Ok(PmxMorphOffset::Bone { bone_index, translation, rotation })
            },
            PmxMorphKind::Uv | PmxMorphKind::AdditionalUv(_) => {
                let vertex_index = self.read_index(header.vertex_index_size)?;
                let offset = self.read_vec4()?;
                Ok(PmxMorphOffset::Uv { vertex_index, offset })
            },
            PmxMorphKind::Material => {
                let material_index = self.read_index(header.material_index_size)?;
                let operation = material_morph_operation_from_byte(self.read_u8()?)?;
                let morph = self.read_material_morph()?;
                Ok(PmxMorphOffset::Material { material_index, operation, morph })
            },
            PmxMorphKind::Flip => {
                let morph_index = self.read_index(header.morph_index_size)?;
                let influence = self.read_f32()?;
                Ok(PmxMorphOffset::Flip { morph_index, influence })
            },
            PmxMorphKind::Impulse => {
                let rigid_body_index = self.read_index(header.rigid_body_index_size)?;
                let local = self.read_u8()? != 0;
                let velocity = self.read_vec3()?;
                let angular_velocity = self.read_vec3()?;
                Ok(PmxMorphOffset::Impulse { rigid_body_index, local, velocity, angular_velocity })
            },
        }
    }

    fn read_morph_offsets(&mut self, header: &PmxHeader, kind: PmxMorphKind) -> (r: PmxResult<Vec<PmxMorphOffset>>)
        requires
            old(self).wf(),
        ensures
            old(self).same_input(final(self)),
            step_vec(r, counted(old(self).bytes@, old(self).pos as int, morph_offset_item(header@, kind, old(self).bytes@)), final(self).pos as int),
    {
        let ghost s = self.bytes@;
        let count = self.read_len()?;
        let ghost p0 = self.pos as int;
        let mut items: Vec<PmxMorphOffset> = Vec::new();
        let mut i: usize = 0;
        while i < count
            invariant
                old(self).same_input(self),
                s == self.bytes@,
                spec_len(s, old(self).pos as int) == Ok::<(usize, int), PmxError>((count, p0)),
                i <= count,
                repeat(i as nat, p0, morph_offset_item(header@, kind, s)) == Ok::<(Seq<PmxMorphOffset>, int), PmxError>((items@, self.pos as int)),
            decreases count - i,
        {
            match self.read_morph_offset(header, kind) {
                Ok(v) => {
                    items.push(v);
                    i = i + 1;
                },
                Err(e) => {
                    proof {
                        lemma_repeat_err((i + 1) as nat, count as nat, p0, morph_offset_item(header@, kind, s), e);
                    }
                    return Err(e);
                },
            }
        }
        Ok(items)
    }

    pub(crate) fn read_morph(&mut self, header: &PmxHeader) -> (r: PmxResult<PmxMorph>)
        requires
            old(self).wf(),
        ensures
            old(self).same_input(final(self)),
            step_view(r, spec_morph(header@, old(self).bytes@, old(self).pos as int), final(self).pos as int),
    {
        let (name, name_english) = self.read_names(header.encoding)?;
        let panel = morph_panel_from_byte(self.read_u8()?)?;
        let kind = morph_kind_from_byte(self.read_u8()?)?;
        let offsets = self.read_morph_offsets(header, kind)?;
        Ok(PmxMorph { name, name_english, panel, kind, offsets })
    }

    fn read_display_frame_item(&mut self, header: &PmxHeader) -> (r: PmxResult<PmxDisplayFrameItem>)
        requires
            old(self).wf(),
        ensures
            old(self).same_input(final(self)),
            step(r, spec_display_frame_item(header@, old(self).bytes@, old(self).pos as int), final(self).pos as int),
    {
        let tag = self.read_u8()?;
        if tag == 0 {
            let i = self.read_index(header.bone_index_size)?;
            Ok(PmxDisplayFrameItem::Bone(i))
        } else if tag == 1 {
            let i = self.read_index(header.morph_index_size)?;
            Ok(PmxDisplayFrameItem::Morph(i))
        } else {
            Err(PmxError::InvalidFormat("unsupported PMX display frame item"))
        }
    }

    fn read_display_frame_items(&mut self, header: &PmxHeader) -> (r: PmxResult<Vec<PmxDisplayFrameItem>>)
        requires
            old(self).wf(),
        ensures
            old(self).same_input(final(self)),
            step_vec(r, counted(old(self).bytes@, old(self).pos as int, display_frame_item_item(header@, old(self).bytes@)), final(self).pos as int),
    {
        let ghost s = self.bytes@;
        let count = self.read_len()?;
        let ghost p0 = self.pos as int;
        let mut items: Vec<PmxDisplayFrameItem> = Vec::new();
        let mut i: usize = 0;
        while i < count
            invariant
                old(self).same_input(self),
                s == self.bytes@,
                spec_len(s, old(self).pos as int) == Ok::<(usize, int), PmxError>((count, p0)),
                i <= count,
                repeat(i as nat, p0, display_frame_item_item(header@, s)) == Ok::<(Seq<PmxDisplayFrameItem>, int), PmxError>((items@, self.pos as int)),
            decreases count - i,
        {
            match self.read_display_frame_item(header) {
                Ok(v) => {
                    items.push(v);
                    i = i + 1;
                },
                Err(e) => {
                    proof {
                        lemma_repeat_err((i + 1) as nat, count as nat, p0, display_frame_item_item(header@, s), e);
                    }
                    return Err(e);
                },
            }
        }
        Ok(items)
    }

    pub(crate) fn read_display_frame(&mut self, header: &PmxHeader) -> (r: PmxResult<PmxDisplayFrame>)
        requires
            old(self).wf(),
        ensures
            old(self).same_input(final(self)),
            step_view(r, spec_display_frame(header@, old(self).bytes@, old(self).pos as int), final(self).pos as int),
    {
        let (name, name_english) = self.read_names(header.encoding)?;
        let special = self.read_u8()? != 0;
        let items = self.read_display_frame_items(header)?;
        Ok(PmxDisplayFrame { name, name_english, special, items })
    }

    fn read_f32x5(&mut self) -> (r: PmxResult<[u32; 5]>)
        requires
            old(self).wf(),
        ensures
            old(self).same_input(final(self)),
            step(r, spec_f32x5(old(self).bytes@, old(self).pos as int), final(self).pos as int),
    {
        let a = self.read_f32()?;
        let b = self.read_f32()?;
        let c = self.read_f32()?;
        let d = self.read_f32()?;
        let e = self.read_f32()?;
        Ok([a, b, c, d, e])
    }

    fn read_vec3x3(&mut self) -> (r: PmxResult<[[u32; 3]; 3]>)
        requires
            old(self).wf(),
        ensures
            old(self).same_input(final(self)),
            step(r, spec_vec3x3(old(self).bytes@, old(self).pos as int), final(self).pos as int),
    {
        let a = self.read_vec3()?;
        let b = self.read_vec3()?;
        let c = self.read_vec3()?;
        Ok([a, b, c])
    }

    fn read_vec3x8(&mut self) -> (r: PmxResult<[[u32; 3]; 8]>)
        requires
            old(self).wf(),
        ensures
            old(self).same_input(final(self)),
            step(r, spec_vec3x8(old(self).bytes@, old(self).pos as int), final(self).pos as int),
    {
        let a = self.read_vec3()?;
        let b = self.read_vec3()?;
        let c = self.read_vec3()?;
        let d = self.read_vec3()?;
        let e = self.read_vec3()?;
        let f = self.read_vec3()?;
        let g = self.read_vec3()?;
        let k = self.read_vec3()?;
        Ok([a, b, c, d, e, f, g, k])
    }

    fn read_rigid_body_head(&mut self, header: &PmxHeader) -> (r: PmxResult<((String, String), i32, u8, u16)>)
        requires
            old(self).wf(),
        ensures
            old(self).same_input(final(self)),
            match spec_rigid_body_head(header@, old(self).bytes@, old(self).pos as int) {
                Ok((v, q)) => (r matches Ok(x) && x.0.0@ == v.0.0 && x.0.1@ == v.0.1 && x.1 == v.1
                    && x.2 == v.2 && x.3 == v.3) && final(self).pos == q,
                Err(e) => r == Err::<((String, String), i32, u8, u16), PmxError>(e),
            },
    {
        let names = self.read_names(header.encoding)?;
        let bone_index = self.read_index(header.bone_index_size)?;
        let group = self.read_u8()?;
        let mask = self.read_u16()?;
        Ok((names, bone_index, group, mask))
    }

    pub(crate) fn read_rigid_body(&mut self, header: &PmxHeader) -> (r: PmxResult<PmxRigidBody>)
        requires
            old(self).wf(),
        ensures
            old(self).same_input(final(self)),
            step_view(r, spec_rigid_body(header@, old(self).bytes@, old(self).pos as int), final(self).pos as int),
    {
        let head = self.read_rigid_body_head(header)?;
        let shape = rigid_body_shape_from_byte(self.read_u8()?)?;
        let geometry = self.read_vec3x3()?;
        let physics = self.read_f32x5()?;
        let mode = rigid_body_mode_from_byte(self.read_u8()?)?;
        let ((name, name_english), bone_index, group, mask) = head;
        Ok(PmxRigidBody {
            name,
            name_english,
            bone_index,
            group,
            mask,
            shape,
            size: geometry[0],
            position: geometry[1],
            rotation: geometry[2],
            mass: physics[0],
            linear_damping: physics[1],
            angular_damping: physics[2],
            restitution: physics[3],
            friction: physics[4],
            mode,
        })
    }

    pub(crate) fn read_joint(&mut self, header: &PmxHeader) -> (r: PmxResult<PmxJoint>)
        requires
            old(self).wf(),
        ensures
            old(self).same_input(final(self)),
            step_view(r, spec_joint(header@, old(self).bytes@, old(self).pos as int), final(self).pos as int),
    {
        let (name, name_english) = self.read_names(header.encoding)?;
        let joint_type = joint_kind_from_byte(self.read_u8()?)?;
        let body_a = self.read_index(header.rigid_body_index_size)?;
        let body_b = self.read_index(header.rigid_body_index_size)?;
        let v = self.read_vec3x8()?;
        Ok(PmxJoint {
            name,
            name_english,
            joint_type,
            body_a,
            body_b,
            position: v[0],
            rotation: v[1],
            translation_limit_min: v[2],
            translation_limit_max: v[3],
            rotation_limit_min: v[4],
            rotation_limit_max: v[5],
            spring_translation: v[6],
            spring_rotation: v[7],
        })
    }

    fn read_soft_body_head(&mut self, header: &PmxHeader) -> (r: PmxResult<((String, String), PmxSoftBodyShape, i32, u8, u16)>)
        requires
            old(self).wf(),
        ensures
            old(self).same_input(final(self)),
            match spec_soft_body_head(header@, old(self).bytes@, old(self).pos as int) {
                Ok((v, q)) => (r matches Ok(x) && x.0.0@ == v.0.0 && x.0.1@ == v.0.1 && x.1 == v.1
                    && x.2 == v.2 && x.3 == v.3 && x.4 == v.4) && final(self).pos == q,
                Err(e) => r == Err::<((String, String), PmxSoftBodyShape, i32, u8, u16), PmxError>(e),
            },
    {
        let names = self.read_names(header.encoding)?;
        let shape = soft_body_shape_from_byte(self.read_u8()?)?;
        let material_index = self.read_index(header.material_index_size)?;
        let group = self.read_u8()?;
        let mask = self.read_u16()?;
        Ok((names, shape, material_index, group, mask))
    }

    fn read_soft_body_params(&mut self) -> (r: PmxResult<(u8, i32, i32, u32, u32, PmxSoftBodyAeroModel)>)
        requires
            old(self).wf(),
        ensures
            old(self).same_input(final(self)),
            step(r, spec_soft_body_params(old(self).bytes@, old(self).pos as int), final(self).pos as int),
    {
        let flags = self.read_u8()?;
        let b_link_distance = self.read_i32()?;
        let num_clusters = self.read_i32()?;
        let total_mass = self.read_f32()?;
        let collision_margin = self.read_f32()?;
        let aero_model = soft_body_aero_model_from(self.read_i32()?);
        Ok((flags, b_link_distance, num_clusters, total_mass, collision_margin, aero_model))
    }

    fn read_soft_body_config(&mut self) -> (r: PmxResult<PmxSoftBodyConfig>)
        requires
            old(self).wf(),
        ensures
            old(self).same_input(final(self)),
            step(r, spec_soft_body_config(old(self).bytes@, old(self).pos as int), final(self).pos as int),
    {
        let a = self.read_vec4()?;
        let b = self.read_vec4()?;
        let c = self.read_vec4()?;
        Ok(PmxSoftBodyConfig {
            vcf: a[0], dp: a[1], dg: a[2], lf: a[3],
            pr: b[0], vc: b[1], df: b[2], mt: b[3],
            chr: c[0], khr: c[1], shr: c[2], ahr: c[3],
        })
    }

    fn read_soft_body_cluster(&mut self) -> (r: PmxResult<PmxSoftBodyCluster>)
        requires
            old(self).wf(),
        ensures
            old(self).same_input(final(self)),
            step(r, spec_soft_body_cluster(old(self).bytes@, old(self).pos as int), final(self).pos as int),
    {
        let a = self.read_vec3()?;
        let b = self.read_vec3()?;
        Ok(PmxSoftBodyCluster {
            srhr_cl: a[0], skhr_cl: a[1], sshr_cl: a[2],
            sr_splt_cl: b[0], sk_splt_cl: b[1], ss_splt_cl: b[2],
        })
    }

    fn read_soft_body_iteration(&mut self) -> (r: PmxResult<PmxSoftBodyIteration>)
        requires
            old(self).wf(),
        ensures
            old(self).same_input(final(self)),
            step(r, spec_soft_body_iteration(old(self).bytes@, old(self).pos as int), final(self).pos as int),
    {
        let v_it = self.read_i32()?;
        let p_it = self.read_i32()?;
        let d_it = self.read_i32()?;
        let c_it = self.read_i32()?;
        Ok(PmxSoftBodyIteration { v_it, p_it, d_it, c_it })
    }

    fn read_soft_body_material(&mut self) -> (r: PmxResult<PmxSoftBodyMaterial>)
        requires
            old(self).wf(),
        ensures
            old(self).same_input(final(self)),
            step(r, spec_soft_body_material(old(self).bytes@, old(self).pos as int), final(self).pos as int),
    {
        let a = self.read_vec3()?;
        Ok(PmxSoftBodyMaterial { lst: a[0], ast: a[1], vst: a[2] })
    }

    fn read_soft_body_settings(&mut self) -> (r: PmxResult<(
        (u8, i32, i32, u32, u32, PmxSoftBodyAeroModel),
        PmxSoftBodyConfig,
        PmxSoftBodyCluster,
        PmxSoftBodyIteration,
        PmxSoftBodyMaterial,
    )>)
        requires
            old(self).wf(),
        ensures
            old(self).same_input(final(self)),
            step(r, spec_soft_body_settings(old(self).bytes@, old(self).pos as int), final(self).pos as int),
    {
        let params = self.read_soft_body_params()?;
        let config = self.read_soft_body_config()?;
        let cluster = self.read_soft_body_cluster()?;
        let iteration = self.read_soft_body_iteration()?;
        let material = self.read_soft_body_material()?;
        Ok((params, config, cluster, iteration, material))
    }

    fn read_soft_body_anchor(&mut self, header: &PmxHeader) -> (r: PmxResult<PmxSoftBodyAnchorRigidBody>)
        requires
            old(self).wf(),
        ensures
            old(self).same_input(final(self)),
            step(r, spec_soft_body_anchor(header@, old(self).bytes@, old(self).pos as int), final(self).pos as int),
    {
        let rigid_body_index = self.read_index(header.rigid_body_index_size)?;
        let vertex_index = self.read_vertex_index(header.vertex_index_size)?;
        let near_mode = self.read_u8()? != 0;
        Ok(PmxSoftBodyAnchorRigidBody { rigid_body_index, vertex_index, near_mode })
    }

    fn read_soft_body_anchors(&mut self, header: &PmxHeader) -> (r: PmxResult<Vec<PmxSoftBodyAnchorRigidBody>>)
        requires
            old(self).wf(),
        ensures
            old(self).same_input(final(self)),
            step_vec(r, counted(old(self).bytes@, old(self).pos as int, soft_body_anchor_item(header@, old(self).bytes@)), final(self).pos as int),
    {
        let ghost s = self.bytes@;
        let count = self.read_len()?;
        let ghost p0 = self.pos as int;
        let mut items: Vec<PmxSoftBodyAnchorRigidBody> = Vec::new();
        let mut i: usize = 0;
        while i < count
            invariant
                old(self).same_input(self),
                s == self.bytes@,
                spec_len(s, old(self).pos as int) == Ok::<(usize, int), PmxError>((count, p0)),
                i <= count,
                repeat(i as nat, p0, soft_body_anchor_item(header@, s)) == Ok::<(Seq<PmxSoftBodyAnchorRigidBody>, int), PmxError>((items@, self.pos as int)),
            decreases count - i,
        {
            match self.read_soft_body_anchor(header) {
                Ok(v) => {
                    items.push(v);
                    i = i + 1;
                },
                Err(e) => {
                    proof {
                        lemma_repeat_err((i + 1) as nat, count as nat, p0, soft_body_anchor_item(header@, s), e);
                    }
                    return Err(e);
                },
            }
        }
        Ok(items)
    }


    fn read_soft_body_pins(&mut self, header: &PmxHeader) -> (r: PmxResult<Vec<u32>>)
        requires
            old(self).wf(),
        ensures
            old(self).same_input(final(self)),
            step_vec(r, counted(old(self).bytes@, old(self).pos as int, vertex_index_item(header.vertex_index_size, old(self).bytes@)), final(self).pos as int),
    {
        let ghost s = self.bytes@;
        let count = self.read_len()?;
        let ghost p0 = self.pos as int;
        let mut items: Vec<u32> = Vec::new();
        let mut i: usize = 0;
        while i < count
            invariant
                old(self).same_input(self),
                s == self.bytes@,
                spec_len(s, old(self).pos as int) == Ok::<(usize, int), PmxError>((count, p0)),
                i <= count,
                repeat(i as nat, p0, vertex_index_item(header.vertex_index_size, s)) == Ok::<(Seq<u32>, int), PmxError>((items@, self.pos as int)),
            decreases count - i,
        {
            match self.read_vertex_index(header.vertex_index_size) {
                Ok(v) => {
                    items.push(v);
                    i = i + 1;
                },
                Err(e) => {
                    proof {
                        lemma_repeat_err((i + 1) as nat, count as nat, p0, vertex_index_item(header.vertex_index_size, s), e);
                    }
                    return Err(e);
                },
            }
        }
        Ok(items)
    }

    pub(crate) fn read_soft_body(&mut self, header: &PmxHeader) -> (r: PmxResult<PmxSoftBody>)
        requires
            old(self).wf(),
        ensures
            old(self).same_input(final(self)),
            step_view(r, spec_soft_body(header@, old(self).bytes@, old(self).pos as int), final(self).pos as int),
    {
        let head = self.read_soft_body_head(header)?;
        let settings = self.read_soft_body_settings()?;
        let anchor_rigid_bodies = self.read_soft_body_anchors(header)?;
        let pin_vertices = self.read_soft_body_pins(header)?;
        let ((name, name_english), shape, material_index, group, mask) = head;
        let ((flags, b_link_distance, num_clusters, total_mass, collision_margin, aero_model), config, cluster, iteration, material) = settings;
        Ok(PmxSoftBody {
            name,
            name_english,
            shape,
            material_index,
            group,
            mask,
            flags: PmxSoftBodyFlags(flags),
            b_link_distance,
            num_clusters,
            total_mass,
            collision_margin,
            aero_model,
            config,
            cluster,
            iteration,
            material,
            anchor_rigid_bodies,
            pin_vertices,
        })
    }

    pub(crate) fn read_materials(&mut self, header: &PmxHeader) -> (r: PmxResult<Vec<PmxMaterial>>)
        requires
            old(self).wf(),
        ensures
            old(self).same_input(final(self)),
            step_seq(r, counted(old(self).bytes@, old(self).pos as int, material_item(header@, old(self).bytes@)), final(self).pos as int),
    {
        let ghost s = self.bytes@;
        let count = self.read_len()?;
        let ghost p0 = self.pos as int;
        let mut items: Vec<PmxMaterial> = Vec::new();
        proof { lemma_seq_view_empty(items@); }
        let mut i: usize = 0;
        while i < count
            invariant
                old(self).same_input(self),
                s == self.bytes@,
                spec_len(s, old(self).pos as int) == Ok::<(usize, int), PmxError>((count, p0)),
                i <= count,
                repeat(i as nat, p0, material_item(header@, s)) == Ok::<(Seq<SpecMaterial>, int), PmxError>((seq_view(items@), self.pos as int)),
            decreases count - i,
        {
            match self.read_material(header) {
                Ok(v) => {
                    proof { lemma_seq_view_push(items@, v); }
                    items.push(v);
                    i = i + 1;
                },
                Err(e) => {
                    proof {
                        lemma_repeat_err((i + 1) as nat, count as nat, p0, material_item(header@, s), e);
                    }
                    return Err(e);
                },
            }
        }
        Ok(items)
    }

    pub(crate) fn read_bones(&mut self, header: &PmxHeader) -> (r: PmxResult<Vec<PmxBone>>)
        requires
            old(self).wf(),
        ensures
            old(self).same_input(final(self)),
            step_seq(r, counted(old(self).bytes@, old(self).pos as int, bone_item(header@, old(self).bytes@)), final(self).pos as int),
    {
        let ghost s = self.bytes@;
        let count = self.read_len()?;
        let ghost p0 = self.pos as int;
        let mut items: Vec<PmxBone> = Vec::new();
        proof { lemma_seq_view_empty(items@); }
        let mut i: usize = 0;
        while i < count
            invariant
                old(self).same_input(self),
                s == self.bytes@,
                spec_len(s, old(self).pos as int) == Ok::<(usize, int), PmxError>((count, p0)),
                i <= count,
                repeat(i as nat, p0, bone_item(header@, s)) == Ok::<(Seq<SpecBone>, int), PmxError>((seq_view(items@), self.pos as int)),
            decreases count - i,
        {
            match self.read_bone(header) {
                Ok(v) => {
                    proof { lemma_seq_view_push(items@, v); }
                    items.push(v);
                    i = i + 1;
                },
                Err(e) => {
                    proof {
                        lemma_repeat_err((i + 1) as nat, count as nat, p0, bone_item(header@, s), e);
                    }
                    return Err(e);
                },
            }
        }
        Ok(items)
    }

    pub(crate) fn read_morphs(&mut self, header: &PmxHeader) -> (r: PmxResult<Vec<PmxMorph>>)
        requires
            old(self).wf(),
        ensures
            old(self).same_input(final(self)),
            step_seq(r, counted(old(self).bytes@, old(self).pos as int, morph_item(header@, old(self).bytes@)), final(self).pos as int),
    {
        let ghost s = self.bytes@;
        let count = self.read_len()?;
        let ghost p0 = self.pos as int;
        let mut items: Vec<PmxMorph> = Vec::new();
        proof { lemma_seq_view_empty(items@); }
        let mut i: usize = 0;
        while i < count
            invariant
                old(self).same_input(self),
                s == self.bytes@,
                spec_len(s, old(self).pos as int) == Ok::<(usize, int), PmxError>((count, p0)),
                i <= count,
                repeat(i as nat, p0, morph_item(header@, s)) == Ok::<(Seq<SpecMorph>, int), PmxError>((seq_view(items@), self.pos as int)),
            decreases count - i,
        {
            match self.read_morph(header) {
                Ok(v) => {
                    proof { lemma_seq_view_push(items@, v); }
                    items.push(v);
                    i = i + 1;
                },
                Err(e) => {
                    proof {
                        lemma_repeat_err((i + 1) as nat, count as nat, p0, morph_item(header@, s), e);
                    }
                    return Err(e);
                },
            }
        }
        Ok(items)
    }

    pub(crate) fn read_display_frames(&mut self, header: &PmxHeader) -> (r: PmxResult<Vec<PmxDisplayFrame>>)
        requires
            old(self).wf(),
        ensures
            old(self).same_input(final(self)),
            step_seq(r, counted(old(self).bytes@, old(self).pos as int, display_frame_item(header@, old(self).bytes@)), final(self).pos as int),
    {
        let ghost s = self.bytes@;
        let count = self.read_len()?;
        let ghost p0 = self.pos as int;
        let mut items: Vec<PmxDisplayFrame> = Vec::new();
        proof { lemma_seq_view_empty(items@); }
        let mut i: usize = 0;
        while i < count
            invariant
                old(self).same_input(self),
                s == self.bytes@,
                spec_len(s, old(self).pos as int) == Ok::<(usize, int), PmxError>((count, p0)),
                i <= count,
                repeat(i as nat, p0, display_frame_item(header@, s)) == Ok::<(Seq<SpecDisplayFrame>, int), PmxError>((seq_view(items@), self.pos as int)),
            decreases count - i,
        {
            match self.read_display_frame(header) {
                Ok(v) => {
                    proof { lemma_seq_view_push(items@, v); }
                    items.push(v);
                    i = i + 1;
                },
                Err(e) => {
                    proof {
                        lemma_repeat_err((i + 1) as nat, count as nat, p0, display_frame_item(header@, s), e);
                    }
                    return Err(e);
                },
            }
        }
        Ok(items)
    }

    pub(crate) fn read_rigid_bodies(&mut self, header: &PmxHeader) -> (r: PmxResult<Vec<PmxRigidBody>>)
        requires
            old(self).wf(),
        ensures
            old(self).same_input(final(self)),
            step_seq(r, counted(old(self).bytes@, old(self).pos as int, rigid_body_item(header@, old(self).bytes@)), final(self).pos as int),
    {
        let ghost s = self.bytes@;
        let count = self.read_len()?;
        let ghost p0 = self.pos as int;
        let mut items: Vec<PmxRigidBody> = Vec::new();
        proof { lemma_seq_view_empty(items@); }
        let mut i: usize = 0;
        while i < count
            invariant
                old(self).same_input(self),
                s == self.bytes@,
                spec_len(s, old(self).pos as int) == Ok::<(usize, int), PmxError>((count, p0)),
                i <= count,
                repeat(i as nat, p0, rigid_body_item(header@, s)) == Ok::<(Seq<SpecRigidBody>, int), PmxError>((seq_view(items@), self.pos as int)),
            decreases count - i,
        {
            match self.read_rigid_body(header) {
                Ok(v) => {
                    proof { lemma_seq_view_push(items@, v); }
                    items.push(v);
                    i = i + 1;
                },
                Err(e) => {
                    proof {
                        lemma_repeat_err((i + 1) as nat, count as nat, p0, rigid_body_item(header@, s), e);
                    }
                    return Err(e);
                },
            }
        }
        Ok(items)
    }

    pub(crate) fn read_joints(&mut self, header: &PmxHeader) -> (r: PmxResult<Vec<PmxJoint>>)
        requires
            old(self).wf(),
        ensures
            old(self).same_input(final(self)),
            step_seq(r, counted(old(self).bytes@, old(self).pos as int, joint_item(header@, old(self).bytes@)), final(self).pos as int),
    {
        let ghost s = self.bytes@;
        let count = self.read_len()?;
        let ghost p0 = self.pos as int;
        let mut items: Vec<PmxJoint> = Vec::new();
        proof { lemma_seq_view_empty(items@); }
        let mut i: usize = 0;
        while i < count
            invariant
                old(self).same_input(self),
                s == self.bytes@,
                spec_len(s, old(self).pos as int) == Ok::<(usize, int), PmxError>((count, p0)),
                i <= count,
                repeat(i as nat, p0, joint_item(header@, s)) == Ok::<(Seq<SpecJoint>, int), PmxError>((seq_view(items@), self.pos as int)),
            decreases count - i,
        {
            match self.read_joint(header) {
                Ok(v) => {
                    proof { lemma_seq_view_push(items@, v); }
                    items.push(v);
                    i = i + 1;
                },
                Err(e) => {
                    proof {
                        lemma_repeat_err((i + 1) as nat, count as nat, p0, joint_item(header@, s), e);
                    }
                    return Err(e);
                },
            }
        }
        Ok(items)
    }

    pub(crate) fn read_soft_bodies(&mut self, header: &PmxHeader) -> (r: PmxResult<Vec<PmxSoftBody>>)
        requires
            old(self).wf(),
        ensures
            old(self).same_input(final(self)),
            step_seq(r, counted(old(self).bytes@, old(self).pos as int, soft_body_item(header@, old(self).bytes@)), final(self).pos as int),
    {
        let ghost s = self.bytes@;
        let count = self.read_len()?;
        let ghost p0 = self.pos as int;
        let mut items: Vec<PmxSoftBody> = Vec::new();
        proof { lemma_seq_view_empty(items@); }
        let mut i: usize = 0;
        while i < count
            invariant
                old(self).same_input(self),
                s == self.bytes@,
                spec_len(s, old(self).pos as int) == Ok::<(usize, int), PmxError>((count, p0)),
                i <= count,
                repeat(i as nat, p0, soft_body_item(header@, s)) == Ok::<(Seq<SpecSoftBody>, int), PmxError>((seq_view(items@), self.pos as int)),
            decreases count - i,
        {
            match self.read_soft_body(header) {
                Ok(v) => {
                    proof { lemma_seq_view_push(items@, v); }
                    items.push(v);
                    i = i + 1;
                },
                Err(e) => {
                    proof {
                        lemma_repeat_err((i + 1) as nat, count as nat, p0, soft_body_item(header@, s), e);
                    }
                    return Err(e);
                },
            }
        }
        Ok(items)
    }

}


// ---------------------------------------------------------------------------------------------
// Document
// ---------------------------------------------------------------------------------------------

/// The sections that follow the header: vertices, indices, textures, materials, bones,
/// morphs, display frames, rigid bodies, joints and, from version 2.1 on, soft bodies.
pub open spec fn spec_geometry_sections(h: SpecHeader, s: Seq<u8>, p: int)
    -> PRes<(Seq<SpecVertex>, Seq<u32>, Seq<Seq<char>>, Seq<SpecMaterial>)> {
    bind(counted(s, p, vertex_item(h, s)), |vertices: Seq<SpecVertex>, p1: int|
    bind(counted(s, p1, vertex_index_item(h.vertex_index_size, s)), |indices: Seq<u32>, p2: int|
    bind(counted(s, p2, text_item(h.encoding, s)), |textures: Seq<Seq<char>>, p3: int|
    bind(counted(s, p3, material_item(h, s)), |materials: Seq<SpecMaterial>, p4: int|
    done((vertices, indices, textures, materials), p4)))))
}

pub open spec fn spec_rig_sections(h: SpecHeader, s: Seq<u8>, p: int)
    -> PRes<(Seq<SpecBone>, Seq<SpecMorph>, Seq<SpecDisplayFrame>)> {
    bind(counted(s, p, bone_item(h, s)), |bones: Seq<SpecBone>, p1: int|
    bind(counted(s, p1, morph_item(h, s)), |morphs: Seq<SpecMorph>, p2: int|
    bind(counted(s, p2, display_frame_item(h, s)), |display_frames: Seq<SpecDisplayFrame>, p3: int|
    done((bones, morphs, display_frames), p3))))
}

/// Soft bodies are present from version 2.1 on; a 2.0 document has none.
pub open spec fn spec_soft_bodies(h: SpecHeader, s: Seq<u8>, p: int) -> PRes<Seq<SpecSoftBody>> {
    if h.version == PMX_VERSION_2_1_BITS {
        counted(s, p, soft_body_item(h, s))
    } else {
        done(Seq::empty(), p)
    }
}

pub open spec fn spec_physics_sections(h: SpecHeader, s: Seq<u8>, p: int)
    -> PRes<(Seq<SpecRigidBody>, Seq<SpecJoint>, Seq<SpecSoftBody>)> {
    bind(counted(s, p, rigid_body_item(h, s)), |rigid_bodies: Seq<SpecRigidBody>, p1: int|
    bind(counted(s, p1, joint_item(h, s)), |joints: Seq<SpecJoint>, p2: int|
    bind(spec_soft_bodies(h, s, p2), |soft_bodies: Seq<SpecSoftBody>, p3: int|
    done((rigid_bodies, joints, soft_bodies), p3))))
}

pub open spec fn make_document(
    header: SpecHeader,
    geometry: (Seq<SpecVertex>, Seq<u32>, Seq<Seq<char>>, Seq<SpecMaterial>),
    rig: (Seq<SpecBone>, Seq<SpecMorph>, Seq<SpecDisplayFrame>),
    physics: (Seq<SpecRigidBody>, Seq<SpecJoint>, Seq<SpecSoftBody>),
) -> SpecDocument {
    SpecDocument {
        header,
        vertices: geometry.0,
        indices: geometry.1,
        textures: geometry.2,
        materials: geometry.3,
        bones: rig.0,
        morphs: rig.1,
        display_frames: rig.2,
        rigid_bodies: physics.0,
        joints: physics.1,
        soft_bodies: physics.2,
    }
}

/// A whole document starting at `p`: the header, then every section in file order.
pub open spec fn spec_document(s: Seq<u8>, p: int) -> PRes<SpecDocument> {
    bind(spec_header(s, p), |header: SpecHeader, p1: int|
    bind(spec_geometry_sections(header, s, p1), |geometry: (Seq<SpecVertex>, Seq<u32>, Seq<Seq<char>>, Seq<SpecMaterial>), p2: int|
    bind(spec_rig_sections(header, s, p2), |rig: (Seq<SpecBone>, Seq<SpecMorph>, Seq<SpecDisplayFrame>), p3: int|
    bind(spec_physics_sections(header, s, p3), |physics: (Seq<SpecRigidBody>, Seq<SpecJoint>, Seq<SpecSoftBody>), p4: int|
    done(make_document(header, geometry, rig, physics), p4)))))
}

/// What parsing `bytes` as a PMX document yields. Bytes after the document are ignored.
pub open spec fn spec_parse_pmx(bytes: Seq<u8>) -> Result<SpecDocument, PmxError> {
    match spec_document(bytes, 0) {
        Ok((d, _)) => Ok(d),
        Err(e) => Err(e),
    }
}

impl<'a> PmxParser<'a> {
    fn read_geometry_sections(&mut self, header: &PmxHeader)
        -> (r: PmxResult<(Vec<PmxVertex>, Vec<u32>, Vec<PmxTexture>, Vec<PmxMaterial>)>)
        requires
            old(self).wf(),
        ensures
            old(self).same_input(final(self)),
            match spec_geometry_sections(header@, old(self).bytes@, old(self).pos as int) {
                Ok((v, q)) => (r matches Ok(x) && seq_view(x.0@) == v.0 && x.1@ == v.1
                    && seq_view(x.2@) == v.2 && seq_view(x.3@) == v.3) && final(self).pos == q,
                Err(e) => r == Err::<(Vec<PmxVertex>, Vec<u32>, Vec<PmxTexture>, Vec<PmxMaterial>), PmxError>(e),
            },
    {
        let vertices = self.read_vertices(header)?;
        let indices = self.read_indices(header)?;
        let textures = self.read_textures(header)?;
        let materials = self.read_materials(header)?;
        Ok((vertices, indices, textures, materials))
    }

    fn read_rig_sections(&mut self, header: &PmxHeader)
        -> (r: PmxResult<(Vec<PmxBone>, Vec<PmxMorph>, Vec<PmxDisplayFrame>)>)
        requires
            old(self).wf(),
        ensures
            old(self).same_input(final(self)),
            match spec_rig_sections(header@, old(self).bytes@, old(self).pos as int) {
                Ok((v, q)) => (r matches Ok(x) && seq_view(x.0@) == v.0 && seq_view(x.1@) == v.1
                    && seq_view(x.2@) == v.2) && final(self).pos == q,
                Err(e) => r == Err::<(Vec<PmxBone>, Vec<PmxMorph>, Vec<PmxDisplayFrame>), PmxError>(e),
            },
    {
        let bones = self.read_bones(header)?;
        let morphs = self.read_morphs(header)?;
        let display_frames = self.read_display_frames(header)?;
        Ok((bones, morphs, display_frames))
    }

    fn read_physics_sections(&mut self, header: &PmxHeader)
        -> (r: PmxResult<(Vec<PmxRigidBody>, Vec<PmxJoint>, Vec<PmxSoftBody>)>)
        requires
            old(self).wf(),
        ensures
            old(self).same_input(final(self)),
            match spec_physics_sections(header@, old(self).bytes@, old(self).pos as int) {
                Ok((v, q)) => (r matches Ok(x) && seq_view(x.0@) == v.0 && seq_view(x.1@) == v.1
                    && seq_view(x.2@) == v.2) && final(self).pos == q,
                Err(e) => r == Err::<(Vec<PmxRigidBody>, Vec<PmxJoint>, Vec<PmxSoftBody>), PmxError>(e),
            },
    {
        let rigid_bodies = self.read_rigid_bodies(header)?;
        let joints = self.read_joints(header)?;
        let soft_bodies = if header.version == PMX_VERSION_2_1_BITS {
            self.read_soft_bodies(header)?
        } else {
            let v: Vec<PmxSoftBody> = Vec::new();
            proof { lemma_seq_view_empty(v@); }
            v
        };
        Ok((rigid_bodies, joints, soft_bodies))
    }

    pub(crate) fn parse_document(&mut self) -> (r: PmxResult<PmxDocument>)
        requires
            old(self).wf(),
        ensures
            old(self).same_input(final(self)),
            step_view(r, spec_document(old(self).bytes@, old(self).pos as int), final(self).pos as int),
    {
        let header = self.read_header()?;
        let (vertices, indices, textures, materials) = self.read_geometry_sections(&header)?;
        let (bones, morphs, display_frames) = self.read_rig_sections(&header)?;
        let (rigid_bodies, joints, soft_bodies) = self.read_physics_sections(&header)?;
        Ok(PmxDocument {
            header,
            vertices,
            indices,
            textures,
            materials,
            bones,
            morphs,
            display_frames,
            rigid_bodies,
            joints,
            soft_bodies,
        })
    }
}

/// Parses a PMX document from the start of `bytes`.
///
/// The result is exactly what the PMX grammar (`spec_parse_pmx`) gives for these bytes: the
/// document on success, otherwise the first error met in file order.
pub fn parse_pmx(bytes: &[u8]) -> (r: PmxResult<PmxDocument>)
    ensures
        match spec_parse_pmx(bytes@) {
            Ok(d) => r matches Ok(doc) && doc@ == d,
            Err(e) => r == Err::<PmxDocument, PmxError>(e),
        },
{
    PmxDocument::from_bytes(bytes)
}

impl PmxDocument {
    /// Parses a PMX document from the start of `bytes`; see `parse_pmx`.
    pub fn from_bytes(bytes: &[u8]) -> (r: PmxResult<PmxDocument>)
        ensures
            match spec_parse_pmx(bytes@) {
                Ok(d) => r matches Ok(doc) && doc@ == d,
                Err(e) => r == Err::<PmxDocument, PmxError>(e),
            },
    {
        let mut parser = PmxParser::new(bytes);
        parser.parse_document()
    }
}

} // verus!
