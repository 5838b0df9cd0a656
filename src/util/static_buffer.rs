//! One-time upload of immutable vertex and index data, and the draw call
//! over it.
use vstd::prelude::*;

use core::ops::Range;

use crate::error::RenderError;

verus! {

/// Byte size of one index (a `u32`).
pub const INDEX_SIZE: usize = 4;

/// How static data reaches device memory.
#[derive(Clone, Copy, Debug, PartialEq, Eq, Structural)]
pub enum UploadPolicy {
    /// Through a host-visible staging buffer and a transfer command into
    /// device-local memory: fastest to read, costlier to fill.
    Staging,
    /// Straight into a persistently host-writable buffer, no transfer.
    DirectMapped,
}

/// What a static buffer is bound as.
#[derive(Clone, Copy, Debug, PartialEq, Eq, Structural)]
pub enum BufferUsage {
    Vertex,
    Index,
}

/// One step of uploading a static buffer, in the order it is performed.
#[derive(Clone, Copy, Debug, PartialEq, Eq, Structural)]
pub enum UploadStep {
    /// Create a host-visible transfer source of `size` bytes.
    CreateStaging { usage: BufferUsage, size: u64 },
    /// Create a device-local transfer destination of `size` bytes, bound as
    /// `usage`.
    CreateDeviceLocal { usage: BufferUsage, size: u64 },
    /// Create a persistently host-writable buffer of `size` bytes, bound as
    /// `usage`.
    CreateMapped { usage: BufferUsage, size: u64 },
    /// Copy the data into the host-visible buffer created last.
    CopyData { usage: BufferUsage, size: u64 },
    /// Transfer the staging buffer into the device-local one, then free the
    /// staging buffer.
    TransferAndFreeStaging { usage: BufferUsage, size: u64 },
}

/// The steps that upload `size` bytes bound as `usage` under `policy`.
pub open spec fn upload_steps(policy: UploadPolicy, usage: BufferUsage, size: u64) -> Seq<UploadStep> {
    match policy {
        UploadPolicy::Staging => seq![
            UploadStep::CreateStaging { usage, size },
            UploadStep::CreateDeviceLocal { usage, size },
            UploadStep::CopyData { usage, size },
            UploadStep::TransferAndFreeStaging { usage, size },
        ],
        UploadPolicy::DirectMapped => seq![
            UploadStep::CreateMapped { usage, size },
            UploadStep::CopyData { usage, size },
        ],
    }
}

/// `count` elements of `element_size` bytes can be described to the
/// device: the count fits in 32 bits and the byte size in 64.
pub open spec fn describable(count: nat, element_size: nat) -> bool {
    count <= u32::MAX && count * element_size <= u64::MAX
}

/// A draw over static geometry.
#[derive(Debug, PartialEq, Eq)]
pub enum DrawCall {
    /// Bind the vertex and index buffers and draw `index_count` indices for
    /// each instance in `instances`.
    Indexed { index_count: u32, instances: Range<u32> },
    /// Bind the vertex buffer and draw `vertex_count` vertices for each
    /// instance in `instances`.
    Plain { vertex_count: u32, instances: Range<u32> },
}

/// Immutable vertex data, with optional index data, once uploaded.
#[derive(Clone, Copy, Debug)]
pub struct StaticVertexBuffer {
    vertex_count: u32,
    index_count: Option<u32>,
    policy: UploadPolicy,
}

impl StaticVertexBuffer {
    pub closed spec fn vertex_count_spec(&self) -> nat {
        self.vertex_count as nat
    }

    pub closed spec fn index_count_spec(&self) -> Option<nat> {
        match self.index_count {
            Some(n) => Some(n as nat),
            None => None,
        }
    }

    pub closed spec fn policy_spec(&self) -> UploadPolicy {
        self.policy
    }

    /// Byte size of `count` elements of `element_size` bytes, or
    /// `BufferTooLarge` where they cannot be described to the device.
    fn byte_size(count: usize, element_size: usize) -> (r: Result<u64, RenderError>)
        ensures
            describable(count as nat, element_size as nat) ==> r == Ok::<u64, RenderError>(
                (count * element_size) as u64,
            ),
            !describable(count as nat, element_size as nat) ==> r == Err::<u64, RenderError>(
                RenderError::BufferTooLarge { count },
            ),
    {
        if count > u32::MAX as usize {
            return Err(RenderError::BufferTooLarge { count });
        }
        match (count as u64).checked_mul(element_size as u64) {
            Some(size) => Ok(size),
            None => Err(RenderError::BufferTooLarge { count }),
        }
    }

    /// Plans the upload of `vertex_count` vertices of `vertex_size` bytes
    /// and, where given, `index_count` `u32` indices, under `policy`. The
    /// index buffer is uploaded first. Returns the buffer's description and
    /// the steps, or `BufferTooLarge` for the first of the two that cannot be
    /// described to the device.
    pub fn allocate(
        policy: UploadPolicy,
        vertex_count: usize,
        vertex_size: usize,
        index_count: Option<usize>,
    ) -> (r: Result<(StaticVertexBuffer, Vec<UploadStep>), RenderError>)
        ensures
            ({
                let index_ok = match index_count {
                    Some(n) => describable(n as nat, INDEX_SIZE as nat),
                    None => true,
                };
                let vertex_ok = describable(vertex_count as nat, vertex_size as nat);
                let index_steps = match index_count {
                    Some(n) => upload_steps(policy, BufferUsage::Index, (n * INDEX_SIZE) as u64),
                    None => Seq::<UploadStep>::empty(),
                };
                &&& (r is Ok <==> index_ok && vertex_ok)
                &&& (!index_ok ==> r == Err::<(StaticVertexBuffer, Vec<UploadStep>), RenderError>(
                    RenderError::BufferTooLarge { count: index_count->Some_0 },
                ))
                &&& (index_ok && !vertex_ok ==> r == Err::<(StaticVertexBuffer, Vec<UploadStep>), RenderError>(
                    RenderError::BufferTooLarge { count: vertex_count },
                ))
                &&& (r is Ok ==> {
                    let (buffer, steps) = r->Ok_0;
                    &&& buffer.vertex_count_spec() == vertex_count
                    &&& buffer.index_count_spec() == match index_count {
                        Some(n) => Some(n as nat),
                        None => None::<nat>,
                    }
                    &&& buffer.policy_spec() == policy
                    &&& steps@ == index_steps + upload_steps(
                        policy,
                        BufferUsage::Vertex,
                        (vertex_count * vertex_size) as u64,
                    )
                })
            }),
    {
        let mut steps: Vec<UploadStep> = Vec::new();
        let index_count32: Option<u32> = match index_count {
            Some(n) => {
                let size = Self::byte_size(n, INDEX_SIZE)?;
                Self::push_upload(&mut steps, policy, BufferUsage::Index, size);
                Some(n as u32)
            },
            None => None,
        };
        let vertex_bytes = Self::byte_size(vertex_count, vertex_size)?;
        Self::push_upload(&mut steps, policy, BufferUsage::Vertex, vertex_bytes);
        Ok((StaticVertexBuffer { vertex_count: vertex_count as u32, index_count: index_count32, policy }, steps))
    }

    /// Appends the steps that upload `size` bytes bound as `usage`.
    fn push_upload(steps: &mut Vec<UploadStep>, policy: UploadPolicy, usage: BufferUsage, size: u64)
        ensures
            final(steps)@ == old(steps)@ + upload_steps(policy, usage, size),
    {
        let ghost start = steps@;
        match policy {
            UploadPolicy::Staging => {
                steps.push(UploadStep::CreateStaging { usage, size });
                steps.push(UploadStep::CreateDeviceLocal { usage, size });
                steps.push(UploadStep::CopyData { usage, size });
                steps.push(UploadStep::TransferAndFreeStaging { usage, size });
            },
            UploadPolicy::DirectMapped => {
                steps.push(UploadStep::CreateMapped { usage, size });
                steps.push(UploadStep::CopyData { usage, size });
            },
        }
        assert(steps@ =~= start + upload_steps(policy, usage, size));
    }

    /// The draw over `instances`: indexed where index data was uploaded,
    /// else over the vertices.
    pub fn draw(&self, instances: Range<u32>) -> (r: DrawCall)
        ensures
            match self.index_count_spec() {
                Some(n) => r == DrawCall::Indexed { index_count: n as u32, instances },
                None => r == DrawCall::Plain { vertex_count: self.vertex_count_spec() as u32, instances },
            },
    {
        match self.index_count {
            Some(n) => DrawCall::Indexed { index_count: n, instances },
            None => DrawCall::Plain { vertex_count: self.vertex_count, instances },
        }
    }
}

} // verus!
