//! The renderer: the owner of the initialized resources, and the per-frame
//! draw plan.
//!
//! A frame is a fixed list of backend commands. It rebinds everything that
//! it uses (program, buffers, attribute layouts), so it assumes no binding
//! left behind by initialization or by another frame. The matrices are
//! named by their uniform; the backend fills in their values, column-major,
//! when it performs the command.
use vstd::prelude::*;
use crate::init::{InitSession, INIT_STEPS};
use crate::resources::{BufferRole, GpuResources, ShaderLocations};
use crate::shader::{RenderError, ShaderSymbol};

verus! {

/// Floats per vertex in the position buffer.
pub const POSITION_COMPONENTS: u32 = 3;

/// Floats per vertex in the colour buffer.
pub const COLOR_COMPONENTS: u32 = 4;

/// One backend command of a frame.
#[derive(Clone, Copy, Debug, PartialEq, Eq)]
pub enum DrawCommand {
    /// Make the linked program current.
    UseProgram,
    /// Turn on depth testing.
    EnableDepthTest,
    /// Upload a 4x4 matrix, as 16 column-major floats, to this uniform: the
    /// model matrix to `Model`, the projection matrix to `Projection`.
    SetUniformMatrix(ShaderSymbol),
    /// Bind the buffer of this role to its binding point.
    BindBuffer(BufferRole),
    /// Read the bound buffer into the attribute `slot`: `components` floats
    /// per vertex, tightly packed, from offset zero.
    AttributePointer { slot: u32, components: u32 },
    /// Turn on the attribute stream of this slot.
    EnableAttribute(u32),
    /// Draw `count` 16-bit indices of the bound index buffer as triangles.
    DrawTriangles { count: usize },
}

/// The uniform and attribute commands of a frame, for the attribute slots
/// `position` and `color`.
pub open spec fn input_commands(position: u32, color: u32) -> Seq<DrawCommand> {
    seq![
        DrawCommand::SetUniformMatrix(ShaderSymbol::Model),
        DrawCommand::SetUniformMatrix(ShaderSymbol::Projection),
        DrawCommand::BindBuffer(BufferRole::Position),
        DrawCommand::AttributePointer { slot: position, components: POSITION_COMPONENTS },
        DrawCommand::EnableAttribute(position),
        DrawCommand::BindBuffer(BufferRole::Color),
        DrawCommand::AttributePointer { slot: color, components: COLOR_COMPONENTS },
        DrawCommand::EnableAttribute(color),
    ]
}

/// All commands of one frame: program and depth test, inputs, then a single
/// indexed draw of `count` indices.
pub open spec fn frame_commands(position: u32, color: u32, count: usize) -> Seq<DrawCommand> {
    seq![DrawCommand::UseProgram, DrawCommand::EnableDepthTest] + input_commands(position, color)
        + seq![DrawCommand::BindBuffer(BufferRole::Index), DrawCommand::DrawTriangles { count }]
}

/// The frame of a renderer that holds `held`, none when it holds nothing.
pub open spec fn frame_plan<B, S, P, U>(held: Option<GpuResources<B, S, P, U>>) -> Option<
    Seq<DrawCommand>,
> {
    match held {
        Some(res) => Some(
            frame_commands(res.locations.position, res.locations.color, res.buffers.n_elements),
        ),
        None => None,
    }
}

/// A renderer: uninitialized, or holding every resource of the pipeline.
pub struct Renderer<B, S, P, U> {
    resources: Option<GpuResources<B, S, P, U>>,
}

/// Appends the commands that feed the shader: both matrices, then each
/// attribute stream bound to its buffer and enabled.
fn update_attributes_and_uniforms<U>(locations: &ShaderLocations<U>, commands: &mut Vec<DrawCommand>)
    ensures
        final(commands)@ == old(commands)@ + input_commands(locations.position, locations.color),
{
    commands.push(DrawCommand::SetUniformMatrix(ShaderSymbol::Model));
    commands.push(DrawCommand::SetUniformMatrix(ShaderSymbol::Projection));
    commands.push(DrawCommand::BindBuffer(BufferRole::Position));
    commands.push(
        DrawCommand::AttributePointer { slot: locations.position, components: POSITION_COMPONENTS },
    );
    commands.push(DrawCommand::EnableAttribute(locations.position));
    commands.push(DrawCommand::BindBuffer(BufferRole::Color));
    commands.push(
        DrawCommand::AttributePointer { slot: locations.color, components: COLOR_COMPONENTS },
    );
    commands.push(DrawCommand::EnableAttribute(locations.color));
}

impl<B, S, P, U> Renderer<B, S, P, U> {
    /// The resources that the renderer holds.
    pub closed spec fn held(&self) -> Option<GpuResources<B, S, P, U>> {
        self.resources
    }

    /// Whether the renderer holds its resources.
    pub open spec fn initialized(&self) -> bool {
        self.held() is Some
    }

    /// An uninitialized renderer.
    pub fn new() -> (r: Self)
        ensures
            !r.initialized(),
    {
        Renderer { resources: None }
    }

    /// Whether the renderer holds its resources.
    pub fn is_initialized(&self) -> (r: bool)
        ensures
            r == self.initialized(),
    {
        self.resources.is_some()
    }

    /// Installs the resources of a completed initialization. Returns those
    /// held before, which the caller must release.
    pub fn init(&mut self, resources: GpuResources<B, S, P, U>) -> (r: Option<
        GpuResources<B, S, P, U>,
    >)
        ensures
            final(self).held() == Some(resources),
            r == old(self).held(),
    {
        let previous = self.resources.take();
        self.resources = Some(resources);
        previous
    }

    /// Gives the resources up, for release; the renderer is uninitialized
    /// afterwards.
    pub fn release(&mut self) -> (r: Option<GpuResources<B, S, P, U>>)
        ensures
            !final(self).initialized(),
            r == old(self).held(),
    {
        self.resources.take()
    }

    /// The resources that the renderer holds, so that the backend can find
    /// the handle behind a command.
    pub fn resources(&self) -> (r: Option<&GpuResources<B, S, P, U>>)
        ensures
            r is Some <==> self.initialized(),
            r matches Some(res) ==> self.held() == Some(*res),
    {
        match &self.resources {
            Some(res) => Some(res),
            None => None,
        }
    }

    /// The commands of one frame. An uninitialized renderer fails with
    /// `NotInitialized` and gives no command at all.
    pub fn draw(&self) -> (r: Result<Vec<DrawCommand>, RenderError>)
        ensures
            r is Ok <==> self.initialized(),
            r matches Ok(commands) ==> frame_plan(self.held()) == Some(commands@),
            !self.initialized() ==> r == Err::<Vec<DrawCommand>, RenderError>(
                RenderError::NotInitialized,
            ),
    {
        match &self.resources {
            None => Err(RenderError::NotInitialized),
            Some(res) => {
                let mut commands: Vec<DrawCommand> = Vec::new();
                commands.push(DrawCommand::UseProgram);
                commands.push(DrawCommand::EnableDepthTest);
                update_attributes_and_uniforms(&res.locations, &mut commands);
                commands.push(DrawCommand::BindBuffer(BufferRole::Index));
                commands.push(DrawCommand::DrawTriangles { count: res.buffers.n_elements });
                assert(commands@ =~= frame_commands(
                    res.locations.position,
                    res.locations.color,
                    res.buffers.n_elements,
                ));
                Ok(commands)
            },
        }
    }
}

/// The commands end in one draw of `count` indices, and no other command
/// draws.
pub open spec fn draws_once_at_end(c: Seq<DrawCommand>, count: usize) -> bool {
    &&& c.len() > 0
    &&& c.last() == (DrawCommand::DrawTriangles { count })
    &&& forall|i: int| 0 <= i < c.len() - 1 ==> !(#[trigger] c[i] is DrawTriangles)
}

/// A renderer that holds no resources, whether new or released, has no
/// frame: its draw fails with `NotInitialized` and issues no command.
pub proof fn lemma_draw_before_init<B, S, P, U>(r: Renderer<B, S, P, U>)
    requires
        !r.initialized(),
    ensures
        (frame_plan(r.held()) is None),
{
}

/// A frame of an initialized renderer ends in exactly one draw, of the index
/// count cached in its resources, and issues no other draw.
pub proof fn lemma_one_draw_per_frame<B, S, P, U>(r: Renderer<B, S, P, U>, res: GpuResources<B, S, P, U>)
    requires
        r.held() == Some(res),
    ensures
        (frame_plan(r.held()) matches Some(c) && draws_once_at_end(c, res.buffers.n_elements)),
{
    let c = frame_commands(res.locations.position, res.locations.color, res.buffers.n_elements);
    assert(c.len() == 12);
    assert forall|i: int| 0 <= i < c.len() - 1 implies !(#[trigger] c[i] is DrawTriangles) by {
        assert(c[i] == if i < 2 {
            seq![DrawCommand::UseProgram, DrawCommand::EnableDepthTest][i]
        } else if i < 10 {
            input_commands(res.locations.position, res.locations.color)[i - 2]
        } else {
            DrawCommand::BindBuffer(BufferRole::Index)
        });
    }
}

/// Resources that an initialization session completed, once installed in a
/// renderer, give a frame over the attribute slots that the session resolved
/// and draw the index count of the session's mesh.
pub proof fn lemma_completed_init_draws<B, S, P, U>(
    s: InitSession<B, S, P, U>,
    projection: U,
    res: GpuResources<B, S, P, U>,
    r: Renderer<B, S, P, U>,
)
    requires
        s.wf(),
        s.step() + 1 == INIT_STEPS,
        s.completes(projection, res),
        r.held() == Some(res),
    ensures
        frame_plan(r.held()) == Some(
            frame_commands(s.attributes@[0], s.attributes@[1], s.index_count),
        ),
{
}

} // verus!
