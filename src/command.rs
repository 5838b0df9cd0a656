//! Commands that a render pass asks the device layer to record.
use vstd::prelude::*;

verus! {

/// Descriptor-set position of the environment (camera) set in every pass.
pub const ENVIRONMENT_SET: u32 = 0;

/// Descriptor-set position of a pass's first record pool.
pub const FIRST_POOL_SET: u32 = 1;

/// Descriptor-set position of a pass's second pool (records or texture).
pub const SECOND_POOL_SET: u32 = 2;

/// What a pass asks of the frame after preparing.
#[derive(Clone, Copy, Debug, PartialEq, Eq, Structural)]
pub enum PrepareResult {
    /// Record the pass's draw commands anew.
    DrawRecord,
    /// Nothing changed: the commands recorded before may be reused.
    DrawReuse,
}

/// Where in the frame a pass runs, relative to the rest of the renderer.
#[derive(Clone, Copy, Debug, PartialEq, Eq, Structural)]
pub enum RenderOrder {
    /// Right after opaque geometry.
    AfterOpaque,
    /// Before transparent geometry.
    BeforeTransparent,
    /// In the final post-effect stage.
    DisplayPostEffects,
}

/// One command of a pass's draw submission, in the order it is recorded.
#[derive(Clone, Copy, Debug, PartialEq, Eq, Structural)]
pub enum PassCommand {
    /// Bind the pass's graphics pipeline.
    BindPipeline,
    /// Bind the environment (camera) descriptor set at `set_id`.
    BindEnvironment { set_id: u32 },
    /// Bind the descriptor set of frame slot `index` of a record pool at
    /// `set_id`.
    BindFrameSlot { set_id: u32, index: usize },
    /// Bind the descriptor set of a single shader buffer at `set_id`.
    BindShaderBuffer { set_id: u32 },
    /// Bind the descriptor set of texture slot `index` at `set_id`.
    BindTexture { set_id: u32, index: usize },
    /// Draw the static geometry `instances` times.
    Draw { instances: u32 },
}

} // verus!
