//! Initialization as a sequence of backend requests.
//!
//! A session names the next request; the backend performs it and reports
//! what happened; the session then either asks for the next request, hands
//! over the complete set of resources, or fails and hands back every object
//! that it created, so that nothing leaks. The requests come in a fixed
//! order: the three buffers, the two stages, the link, then the four
//! bindings.
use vstd::prelude::*;
use crate::geometry::CubeData;
use crate::resources::{BufferRole, GpuResources, ShaderLocations, create_buffers_for_cube};
use crate::shader::{
    RenderError, ShaderStage, ShaderSymbol, create_shader, link_program, diagnostic_text,
    is_compile_error, is_link_error, MISSING_COMPILE_LOG, MISSING_LINK_LOG,
};

verus! {

/// Number of requests of a complete initialization.
pub const INIT_STEPS: usize = 10;

/// What the backend is asked to do next.
#[derive(Clone, Copy, Debug, PartialEq, Eq)]
pub enum InitRequest {
    /// Create a buffer, bind it and fill it with the mesh's data for `role`.
    CreateBuffer(BufferRole),
    /// Create a shader of this stage, give it its source and compile it.
    CompileShader(ShaderStage),
    /// Create a program, attach both shaders and link it.
    LinkProgram,
    /// Look up the attribute slot of a symbol.
    ResolveAttribute(ShaderSymbol),
    /// Look up the uniform slot of a symbol.
    ResolveUniform(ShaderSymbol),
}

/// What the backend reports after performing a request.
pub enum InitEvent<B, S, P, U> {
    /// The buffer, or none when it could not be created.
    BufferCreated(Option<B>),
    /// The shader, or none when it could not be created; its compile status
    /// and compiler log.
    ShaderCompiled { shader: Option<S>, compiled: bool, log: Option<String> },
    /// The program, or none when it could not be created; its link status and
    /// linker log.
    ProgramLinked { program: Option<P>, linked: bool, log: Option<String> },
    /// The attribute slot; negative when the program has none of that name.
    AttributeResolved(i32),
    /// The uniform slot, or none when the program has none of that name.
    UniformResolved(Option<U>),
}

/// The objects to release after a failed initialization.
pub struct Released<B, S, P> {
    pub buffers: Vec<B>,
    pub shaders: Vec<S>,
    pub program: Option<P>,
}

/// An initialization in progress: the objects created so far, in request
/// order.
pub struct InitSession<B, S, P, U> {
    pub index_count: usize,
    pub buffers: Vec<B>,
    pub shaders: Vec<S>,
    pub program: Option<P>,
    pub attributes: Vec<u32>,
    pub uniforms: Vec<U>,
}

/// The session after one event.
pub enum InitProgress<B, S, P, U> {
    /// More requests follow.
    Pending(InitSession<B, S, P, U>),
    /// Every object is in place.
    Ready(GpuResources<B, S, P, U>),
    /// The event reported a failure; every object created so far is handed
    /// back for release.
    Failed { error: RenderError, release: Released<B, S, P> },
}

/// The request of each step of the sequence.
pub open spec fn request_at(step: nat) -> InitRequest {
    if step == 0 {
        InitRequest::CreateBuffer(BufferRole::Position)
    } else if step == 1 {
        InitRequest::CreateBuffer(BufferRole::Color)
    } else if step == 2 {
        InitRequest::CreateBuffer(BufferRole::Index)
    } else if step == 3 {
        InitRequest::CompileShader(ShaderStage::Vertex)
    } else if step == 4 {
        InitRequest::CompileShader(ShaderStage::Fragment)
    } else if step == 5 {
        InitRequest::LinkProgram
    } else if step == 6 {
        InitRequest::ResolveAttribute(ShaderSymbol::Position)
    } else if step == 7 {
        InitRequest::ResolveAttribute(ShaderSymbol::Color)
    } else if step == 8 {
        InitRequest::ResolveUniform(ShaderSymbol::Model)
    } else {
        InitRequest::ResolveUniform(ShaderSymbol::Projection)
    }
}

impl<B, S, P, U> InitEvent<B, S, P, U> {
    /// Whether the event is a report on `request`.
    pub open spec fn answers(&self, request: InitRequest) -> bool {
        match request {
            InitRequest::CreateBuffer(_) => self is BufferCreated,
            InitRequest::CompileShader(_) => self is ShaderCompiled,
            InitRequest::LinkProgram => self is ProgramLinked,
            InitRequest::ResolveAttribute(_) => self is AttributeResolved,
            InitRequest::ResolveUniform(_) => self is UniformResolved,
        }
    }

    /// Whether the event reports success.
    pub open spec fn succeeded(&self) -> bool {
        match self {
            InitEvent::BufferCreated(b) => b is Some,
            InitEvent::ShaderCompiled { shader, compiled, .. } => shader is Some && *compiled,
            InitEvent::ProgramLinked { program, linked, .. } => program is Some && *linked,
            InitEvent::AttributeResolved(slot) => *slot >= 0,
            InitEvent::UniformResolved(u) => u is Some,
        }
    }

    /// Whether `error` is the error that this failed report on `request`
    /// stands for.
    pub open spec fn fails_with(&self, request: InitRequest, error: RenderError) -> bool {
        match self {
            InitEvent::BufferCreated(_) => error == RenderError::Allocation,
            InitEvent::ShaderCompiled { shader, log, .. } => if shader is None {
                error == RenderError::Allocation
            } else {
                is_compile_error(error, diagnostic_text(*log, MISSING_COMPILE_LOG@))
            },
            InitEvent::ProgramLinked { program, log, .. } => if program is None {
                error == RenderError::Allocation
            } else {
                is_link_error(error, diagnostic_text(*log, MISSING_LINK_LOG@))
            },
            InitEvent::AttributeResolved(_) => request matches InitRequest::ResolveAttribute(
                symbol,
            ) && error == RenderError::BindingNotFound { symbol },
            InitEvent::UniformResolved(_) => request matches InitRequest::ResolveUniform(symbol)
                && error == RenderError::BindingNotFound { symbol },
        }
    }

    /// Whether the event is a report on `request`.
    pub fn is_answer_to(&self, request: InitRequest) -> (r: bool)
        ensures
            r == self.answers(request),
    {
        match request {
            InitRequest::CreateBuffer(_) => matches!(self, InitEvent::BufferCreated(_)),
            InitRequest::CompileShader(_) => matches!(self, InitEvent::ShaderCompiled { .. }),
            InitRequest::LinkProgram => matches!(self, InitEvent::ProgramLinked { .. }),
            InitRequest::ResolveAttribute(_) => matches!(self, InitEvent::AttributeResolved(_)),
            InitRequest::ResolveUniform(_) => matches!(self, InitEvent::UniformResolved(_)),
        }
    }
}

impl<B, S, P, U> InitSession<B, S, P, U> {
    /// How many requests have succeeded.
    pub open spec fn step(&self) -> nat {
        self.buffers@.len() + self.shaders@.len() + (if self.program is Some {
            1nat
        } else {
            0nat
        }) + self.attributes@.len() + self.uniforms@.len()
    }

    /// The objects were created in request order, and the sequence is not
    /// yet complete.
    pub open spec fn wf(&self) -> bool {
        &&& self.buffers@.len() <= 3
        &&& self.shaders@.len() <= 2
        &&& self.attributes@.len() <= 2
        &&& self.uniforms@.len() <= 1
        &&& self.shaders@.len() > 0 ==> self.buffers@.len() == 3
        &&& self.program is Some ==> self.shaders@.len() == 2
        &&& self.attributes@.len() > 0 ==> self.program is Some
        &&& self.uniforms@.len() > 0 ==> self.attributes@.len() == 2
    }

    /// Whether `next` is this session with the object of the successful
    /// `event` added.
    pub open spec fn records(&self, event: InitEvent<B, S, P, U>, next: Self) -> bool {
        &&& next.index_count == self.index_count
        &&& next.buffers@ == match event {
            InitEvent::BufferCreated(Some(b)) => self.buffers@.push(b),
            _ => self.buffers@,
        }
        &&& next.shaders@ == match event {
            InitEvent::ShaderCompiled { shader: Some(s), .. } => self.shaders@.push(s),
            _ => self.shaders@,
        }
        &&& next.program == match event {
            InitEvent::ProgramLinked { program: Some(p), .. } => Some(p),
            _ => self.program,
        }
        &&& next.attributes@ == match event {
            InitEvent::AttributeResolved(slot) => self.attributes@.push(slot as u32),
            _ => self.attributes@,
        }
        &&& next.uniforms@ == match event {
            InitEvent::UniformResolved(Some(u)) => self.uniforms@.push(u),
            _ => self.uniforms@,
        }
    }

    /// Whether `release` holds every object of this session and the object
    /// that the failed `event` created, if any.
    pub open spec fn releases_all(&self, event: InitEvent<B, S, P, U>, release: Released<B, S, P>) -> bool {
        &&& release.buffers@ == self.buffers@
        &&& release.shaders@ == match event {
            InitEvent::ShaderCompiled { shader: Some(s), .. } => self.shaders@.push(s),
            _ => self.shaders@,
        }
        &&& release.program == match event {
            InitEvent::ProgramLinked { program: Some(p), .. } => Some(p),
            _ => self.program,
        }
    }

    /// Whether `res` holds the objects of this session, in request order,
    /// completed by the projection slot `projection`.
    pub open spec fn completes(&self, projection: U, res: GpuResources<B, S, P, U>) -> bool {
        &&& res.buffers.positions == self.buffers@[0]
        &&& res.buffers.colors == self.buffers@[1]
        &&& res.buffers.elements == self.buffers@[2]
        &&& res.buffers.n_elements == self.index_count
        &&& res.vertex_shader == self.shaders@[0]
        &&& res.fragment_shader == self.shaders@[1]
        &&& Some(res.program) == self.program
        &&& res.locations.position == self.attributes@[0]
        &&& res.locations.color == self.attributes@[1]
        &&& res.locations.model == self.uniforms@[0]
        &&& res.locations.projection == projection
    }

    /// A session for `mesh` that has created nothing yet.
    pub fn new(mesh: &CubeData) -> (r: Self)
        ensures
            r.wf(),
            r.step() == 0,
            r.index_count == mesh.elements@.len(),
    {
        InitSession {
            index_count: mesh.elements.len(),
            buffers: Vec::new(),
            shaders: Vec::new(),
            program: None,
            attributes: Vec::new(),
            uniforms: Vec::new(),
        }
    }

    /// The request that the backend must perform next.
    pub fn request(&self) -> (r: InitRequest)
        requires
            self.wf(),
        ensures
            r == request_at(self.step()),
    {
        if self.buffers.len() == 0 {
            InitRequest::CreateBuffer(BufferRole::Position)
        } else if self.buffers.len() == 1 {
            InitRequest::CreateBuffer(BufferRole::Color)
        } else if self.buffers.len() == 2 {
            InitRequest::CreateBuffer(BufferRole::Index)
        } else if self.shaders.len() == 0 {
            InitRequest::CompileShader(ShaderStage::Vertex)
        } else if self.shaders.len() == 1 {
            InitRequest::CompileShader(ShaderStage::Fragment)
        } else if self.program.is_none() {
            InitRequest::LinkProgram
        } else if self.attributes.len() == 0 {
            InitRequest::ResolveAttribute(ShaderSymbol::Position)
        } else if self.attributes.len() == 1 {
            InitRequest::ResolveAttribute(ShaderSymbol::Color)
        } else if self.uniforms.len() == 0 {
            InitRequest::ResolveUniform(ShaderSymbol::Model)
        } else {
            InitRequest::ResolveUniform(ShaderSymbol::Projection)
        }
    }

    /// Takes the backend's report on the current request. A success moves to
    /// the next request, or completes the resources after the last one; a
    /// failure ends the session with its error and hands back every object
    /// created so far, the failed one included.
    pub fn advance(self, event: InitEvent<B, S, P, U>) -> (r: InitProgress<B, S, P, U>)
        requires
            self.wf(),
            event.answers(request_at(self.step())),
        ensures
            event.succeeded() && self.step() + 1 < INIT_STEPS ==> (r matches InitProgress::Pending(
                next,
            ) && next.wf() && next.step() == self.step() + 1 && self.records(event, next)),
            event.succeeded() && self.step() + 1 == INIT_STEPS ==> (r matches InitProgress::Ready(
                res,
            ) && event matches InitEvent::UniformResolved(Some(u)) && self.completes(u, res)),
            !event.succeeded() ==> (r matches InitProgress::Failed { error, release }
                && event.fails_with(request_at(self.step()), error) && self.releases_all(
                event,
                release,
            )),
    {
        let request = self.request();
        let InitSession { index_count, mut buffers, mut shaders, mut program, mut attributes, mut uniforms } = self;
        match event {
            InitEvent::BufferCreated(created) => match created {
                Some(b) => {
                    buffers.push(b);
                    InitProgress::Pending(InitSession { index_count, buffers, shaders, program, attributes, uniforms })
                },
                None => InitProgress::Failed {
                    error: RenderError::Allocation,
                    release: Released { buffers, shaders, program },
                },
            },
            InitEvent::ShaderCompiled { shader, compiled, log } => match create_shader(shader, compiled, log) {
                Ok(s) => {
                    shaders.push(s);
                    InitProgress::Pending(InitSession { index_count, buffers, shaders, program, attributes, uniforms })
                },
                Err(failure) => {
                    if let Some(s) = failure.release {
                        shaders.push(s);
                    }
                    InitProgress::Failed {
                        error: failure.error,
                        release: Released { buffers, shaders, program },
                    }
                },
            },
            InitEvent::ProgramLinked { program: linked_program, linked, log } => match link_program(linked_program, linked, log) {
                Ok(p) => {
                    program = Some(p);
                    InitProgress::Pending(InitSession { index_count, buffers, shaders, program, attributes, uniforms })
                },
                Err(failure) => {
                    if failure.release.is_some() {
                        program = failure.release;
                    }
                    InitProgress::Failed {
                        error: failure.error,
                        release: Released { buffers, shaders, program },
                    }
                },
            },
            InitEvent::AttributeResolved(slot) => {
                if slot >= 0 {
                    attributes.push(slot as u32);
                    InitProgress::Pending(InitSession { index_count, buffers, shaders, program, attributes, uniforms })
                } else {
                    let symbol = match request {
                        InitRequest::ResolveAttribute(symbol) => symbol,
                        _ => ShaderSymbol::Position,
                    };
                    InitProgress::Failed {
                        error: RenderError::BindingNotFound { symbol },
                        release: Released { buffers, shaders, program },
                    }
                }
            },
            InitEvent::UniformResolved(found) => match found {
                Some(u) => {
                    if uniforms.len() == 0 {
                        uniforms.push(u);
                        InitProgress::Pending(InitSession { index_count, buffers, shaders, program, attributes, uniforms })
                    } else {
                        let model = uniforms.pop().unwrap();
                        let elements = buffers.pop().unwrap();
                        let colors = buffers.pop().unwrap();
                        let positions = buffers.pop().unwrap();
                        let fragment_shader = shaders.pop().unwrap();
                        let vertex_shader = shaders.pop().unwrap();
                        let locations = ShaderLocations {
                            model,
                            projection: u,
                            position: attributes[0],
                            color: attributes[1],
                        };
                        InitProgress::Ready(GpuResources {
                            buffers: create_buffers_for_cube(positions, colors, elements, index_count),
                            vertex_shader,
                            fragment_shader,
                            program: program.unwrap(),
                            locations,
                        })
                    }
                },
                None => {
                    let symbol = match request {
                        InitRequest::ResolveUniform(symbol) => symbol,
                        _ => ShaderSymbol::Model,
                    };
                    InitProgress::Failed {
                        error: RenderError::BindingNotFound { symbol },
                        release: Released { buffers, shaders, program },
                    }
                }
            },
        }
    }
}

} // verus!
