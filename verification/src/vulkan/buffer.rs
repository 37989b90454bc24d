//! Buffers as descriptions, and the geometry buffers of a mesh.

use vstd::prelude::*;
use crate::vulkan::command::GpuCommand;

verus! {

/// What a buffer is used as.
#[derive(Clone, Copy, Debug, PartialEq, Eq, Structural)]
pub enum BufferUsage {
    VertexBuffer,
    IndexBuffer,
    UniformBuffer,
}

/// Where a buffer's memory is to live.
#[derive(Clone, Copy, Debug, PartialEq, Eq, Structural)]
pub enum MemoryUsage {
    /// Written by the host, read by the device.
    CpuToGpu,
    /// Device local.
    GpuOnly,
}

/// What a buffer is created with. Buffers are never shared between queue
/// families.
#[derive(Clone, Copy, Debug, PartialEq, Eq, Structural)]
pub struct BufferCreateInfo {
    pub size: u64,
    pub buffer_usage: BufferUsage,
    pub memory_usage: MemoryUsage,
}

/// A region that is copied from a staging buffer.
#[derive(Clone, Copy, Debug, PartialEq, Eq, Structural)]
pub struct BufferCopy {
    pub src_offset: u64,
    pub dst_offset: u64,
    pub size: u64,
}

/// A buffer by its raw handle, with the size that was allocated for it.
#[derive(Clone, Copy, Debug, PartialEq, Eq, Structural)]
pub struct Buffer {
    pub buffer: u64,
    pub size: u64,
}

impl Buffer {
    /// What a mapped buffer of `size` bytes is created with.
    pub fn new_mapped_basic(size: u64, buffer_usage: BufferUsage, memory_usage: MemoryUsage) -> (info:
        BufferCreateInfo)
        ensures
            info == (BufferCreateInfo { size, buffer_usage, memory_usage }),
    {
        BufferCreateInfo { size, buffer_usage, memory_usage }
    }

    /// The raw handle.
    pub fn buffer(&self) -> (handle: u64)
        ensures
            handle == self.buffer,
    {
        self.buffer
    }
}

/// The vertex buffer of a mesh and, where it is indexed, its index buffer.
#[derive(Clone, Copy, Debug, PartialEq, Eq, Structural)]
pub struct GeometryBuffer {
    pub vertex_buffer: Buffer,
    pub index_buffer: Option<Buffer>,
    pub number_of_indices: u32,
}

impl GeometryBuffer {
    /// The geometry buffers of a mesh with `number_of_indices` indices in
    /// `index_buffer`; without an index buffer the mesh has no indices.
    /// `None` where the number of indices is no `u32`.
    pub fn new(vertex_buffer: Buffer, index_buffer: Option<Buffer>, number_of_indices: usize) -> (buffers:
        Option<Self>)
        ensures
            buffers is Some <==> index_buffer is None || number_of_indices <= u32::MAX,
            buffers matches Some(buffers) ==> buffers == (GeometryBuffer {
                vertex_buffer,
                index_buffer,
                number_of_indices: if index_buffer is Some {
                    number_of_indices as u32
                } else {
                    0
                },
            }),
    {
        match index_buffer {
            Some(_) => {
                if number_of_indices <= u32::MAX as usize {
                    Some(
                        GeometryBuffer {
                            vertex_buffer,
                            index_buffer,
                            number_of_indices: number_of_indices as u32,
                        },
                    )
                } else {
                    None
                }
            },
            None => Some(GeometryBuffer { vertex_buffer, index_buffer, number_of_indices: 0 }),
        }
    }

    /// The region that uploads `number_of_elements` elements of
    /// `element_size` bytes each to the start of a buffer. `None` where their
    /// size is no `u64`.
    pub fn copy_region(number_of_elements: usize, element_size: usize) -> (region: Option<BufferCopy>)
        ensures
            region is Some <==> number_of_elements * element_size <= u64::MAX,
            region matches Some(region) ==> region == (BufferCopy {
                src_offset: 0,
                dst_offset: 0,
                size: (number_of_elements * element_size) as u64,
            }),
    {
        match (number_of_elements as u64).checked_mul(element_size as u64) {
            Some(size) => Some(BufferCopy { src_offset: 0, dst_offset: 0, size }),
            None => None,
        }
    }

    /// The bind of the vertex buffer and, where there is one, of the index
    /// buffer.
    pub open spec fn bind_commands(self) -> Seq<GpuCommand> {
        match self.index_buffer {
            Some(index_buffer) => seq![
                GpuCommand::BindVertexBuffer { buffer: self.vertex_buffer.buffer },
                GpuCommand::BindIndexBuffer { buffer: index_buffer.buffer },
            ],
            None => seq![GpuCommand::BindVertexBuffer { buffer: self.vertex_buffer.buffer }],
        }
    }

    /// The commands that bind the vertex buffer and, where there is one, the
    /// index buffer.
    pub fn bind(&self) -> (commands: Vec<GpuCommand>)
        ensures
            commands@ == self.bind_commands(),
    {
        let mut commands: Vec<GpuCommand> = Vec::new();
        commands.push(GpuCommand::BindVertexBuffer { buffer: self.vertex_buffer.buffer() });
        match self.index_buffer {
            Some(index_buffer) => {
                commands.push(GpuCommand::BindIndexBuffer { buffer: index_buffer.buffer() });
            },
            None => {},
        }
        commands
    }
}

} // verus!
