//! Meshes that come from Wavefront OBJ files: how their vertices are laid out
//! for the pipeline.

use vstd::prelude::*;
use crate::vulkan::buffer::GeometryBuffer;
use crate::vulkan::pipeline::Format;
use crate::vulkan::pipeline::VertexInputAttributeDescription;
use crate::vulkan::pipeline::VertexInputBindingDescription;

verus! {

/// Bytes of a 32-bit float.
pub const FLOAT_SIZE: u32 = 4;

/// A loaded model.
#[derive(Clone, Copy, Debug, PartialEq, Eq, Structural)]
pub struct ObjModel {
    pub buffers: GeometryBuffer,
}

/// The number of vertices that `positions` holds, three components each.
pub open spec fn vertex_count<T>(positions: Seq<T>) -> nat {
    positions.len() / 3
}

/// There is a normal and a texture coordinate for each position, or none at
/// all.
pub open spec fn mesh_is_complete<T>(positions: Seq<T>, normals: Seq<T>, texcoords: Seq<T>) -> bool {
    &&& normals.len() == 0 || normals.len() >= 3 * vertex_count(positions)
    &&& texcoords.len() == 0 || texcoords.len() >= 2 * vertex_count(positions)
}

/// Component `j` of the interleaved vertex `i`: its position, then its
/// normal, then its texture coordinate, with `zero` for what the mesh lacks.
pub open spec fn vertex_component<T>(
    positions: Seq<T>,
    normals: Seq<T>,
    texcoords: Seq<T>,
    zero: T,
    i: int,
    j: int,
) -> T {
    if j < 3 {
        positions[3 * i + j]
    } else if j < 6 {
        if normals.len() == 0 {
            zero
        } else {
            normals[3 * i + (j - 3)]
        }
    } else {
        if texcoords.len() == 0 {
            zero
        } else {
            texcoords[2 * i + (j - 6)]
        }
    }
}

/// The interleaved vertices of a mesh, eight components per vertex.
pub open spec fn interleaved<T>(positions: Seq<T>, normals: Seq<T>, texcoords: Seq<T>, zero: T) -> Seq<
    T,
> {
    Seq::new(
        8 * vertex_count(positions),
        |k: int| vertex_component(positions, normals, texcoords, zero, k / 8, k % 8),
    )
}

impl ObjModel {
    /// The model whose geometry is in `buffers`.
    pub fn new(buffers: GeometryBuffer) -> (model: Self)
        ensures
            model.buffers == buffers,
    {
        ObjModel { buffers }
    }

    /// The vertex buffer contents of a mesh: per vertex its position, its
    /// normal and its texture coordinate. A mesh without normals or without
    /// texture coordinates gets `zero` in their place. `None` where the mesh
    /// has some normals or texture coordinates, but not one per vertex.
    pub fn interleave_vertices<T: Copy>(
        positions: &Vec<T>,
        normals: &Vec<T>,
        texcoords: &Vec<T>,
        zero: T,
    ) -> (vertices: Option<Vec<T>>)
        ensures
            vertices is Some <==> mesh_is_complete(positions@, normals@, texcoords@),
            vertices matches Some(vertices) ==> vertices@ == interleaved(
                positions@,
                normals@,
                texcoords@,
                zero,
            ),
    {
        let length: usize = positions.len();
        let count: usize = length / 3;
        if normals.len() != 0 && normals.len() / 3 < count {
            return None;
        }
        if texcoords.len() != 0 && texcoords.len() / 2 < count {
            return None;
        }
        let mut vertices: Vec<T> = Vec::new();
        let mut index: usize = 0;
        while index < count
            invariant
                index <= count,
                count == vertex_count(positions@),
                length == positions@.len(),
                mesh_is_complete(positions@, normals@, texcoords@),
                vertices@.len() == 8 * index,
                forall|k: int|
                    0 <= k < 8 * index ==> vertices@[k] == vertex_component(
                        positions@,
                        normals@,
                        texcoords@,
                        zero,
                        k / 8,
                        k % 8,
                    ),
            decreases count - index,
        {
            vertices.push(positions[3 * index]);
            vertices.push(positions[3 * index + 1]);
            vertices.push(positions[3 * index + 2]);
            if normals.len() == 0 {
                vertices.push(zero);
                vertices.push(zero);
                vertices.push(zero);
            } else {
                vertices.push(normals[3 * index]);
                vertices.push(normals[3 * index + 1]);
                vertices.push(normals[3 * index + 2]);
            }
            if texcoords.len() == 0 {
                vertices.push(zero);
                vertices.push(zero);
            } else {
                vertices.push(texcoords[2 * index]);
                vertices.push(texcoords[2 * index + 1]);
            }
            index += 1;
        }
        Some(vertices)
    }

    /// The attributes of an interleaved vertex: position at location 0,
    /// normal at location 1, texture coordinate at location 2.
    pub fn create_vertex_attributes() -> (attributes: Vec<VertexInputAttributeDescription>)
        ensures
            attributes@ == seq![
                VertexInputAttributeDescription {
                    location: 0,
                    binding: 0,
                    format: Format::R32G32B32Sfloat,
                    offset: 0,
                },
                VertexInputAttributeDescription {
                    location: 1,
                    binding: 0,
                    format: Format::R32G32B32Sfloat,
                    offset: 12,
                },
                VertexInputAttributeDescription {
                    location: 2,
                    binding: 0,
                    format: Format::R32G32Sfloat,
                    offset: 24,
                },
            ],
    {
        let mut attributes: Vec<VertexInputAttributeDescription> = Vec::new();
        attributes.push(
            VertexInputAttributeDescription {
                location: 0,
                binding: 0,
                format: Format::R32G32B32Sfloat,
                offset: 0,
            },
        );
        attributes.push(
            VertexInputAttributeDescription {
                location: 1,
                binding: 0,
                format: Format::R32G32B32Sfloat,
                offset: 3 * FLOAT_SIZE,
            },
        );
        attributes.push(
            VertexInputAttributeDescription {
                location: 2,
                binding: 0,
                format: Format::R32G32Sfloat,
                offset: 6 * FLOAT_SIZE,
            },
        );
        attributes
    }

    /// The one vertex buffer binding: eight floats per vertex.
    pub fn create_vertex_input_descriptions() -> (descriptions: Vec<VertexInputBindingDescription>)
        ensures
            descriptions@ == seq![VertexInputBindingDescription { binding: 0, stride: 32 }],
    {
        let mut descriptions: Vec<VertexInputBindingDescription> = Vec::new();
        descriptions.push(VertexInputBindingDescription { binding: 0, stride: 8 * FLOAT_SIZE });
        descriptions
    }
}

} // verus!
