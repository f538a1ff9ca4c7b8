use cube_pipeline::geometry::create_cube_data;
use cube_pipeline::init::{InitEvent, InitProgress, InitRequest, InitSession, Released};
use cube_pipeline::renderer::{DrawCommand, Renderer, COLOR_COMPONENTS, POSITION_COMPONENTS};
use cube_pipeline::resources::{BufferRole, GpuResources};
use cube_pipeline::shader::{RenderError, ShaderStage, ShaderSymbol};

type Session = InitSession<u32, u32, u32, u32>;
type Event = InitEvent<u32, u32, u32, u32>;

/// A backend that succeeds: buffers 100, 101, 102; shaders 200, 201;
/// program 300; attribute slots 0 and 1; uniform slots 400 and 401.
fn good_answer(request: InitRequest) -> Event {
    match request {
        InitRequest::CreateBuffer(BufferRole::Position) => InitEvent::BufferCreated(Some(100)),
        InitRequest::CreateBuffer(BufferRole::Color) => InitEvent::BufferCreated(Some(101)),
        InitRequest::CreateBuffer(BufferRole::Index) => InitEvent::BufferCreated(Some(102)),
        InitRequest::CompileShader(ShaderStage::Vertex) => {
            InitEvent::ShaderCompiled { shader: Some(200), compiled: true, log: None }
        }
        InitRequest::CompileShader(ShaderStage::Fragment) => {
            InitEvent::ShaderCompiled { shader: Some(201), compiled: true, log: None }
        }
        InitRequest::LinkProgram => InitEvent::ProgramLinked { program: Some(300), linked: true, log: None },
        InitRequest::ResolveAttribute(ShaderSymbol::Position) => InitEvent::AttributeResolved(0),
        InitRequest::ResolveAttribute(_) => InitEvent::AttributeResolved(1),
        InitRequest::ResolveUniform(ShaderSymbol::Model) => InitEvent::UniformResolved(Some(400)),
        InitRequest::ResolveUniform(_) => InitEvent::UniformResolved(Some(401)),
    }
}

enum Outcome {
    Ready(GpuResources<u32, u32, u32, u32>),
    Failed(RenderError, Released<u32, u32, u32>),
}

/// Runs a session, answering the request at `fail_at` with `bad` and every
/// other one as `good_answer` does; records the requests.
fn run(fail_at: usize, bad: Option<Event>, requests: &mut Vec<InitRequest>) -> Outcome {
    let cube = create_cube_data();
    let mut session: Session = InitSession::new(&cube);
    let mut bad = bad;
    loop {
        let request = session.request();
        let event = if requests.len() == fail_at { bad.take().unwrap() } else { good_answer(request) };
        assert!(event.is_answer_to(request));
        requests.push(request);
        match session.advance(event) {
            InitProgress::Pending(next) => session = next,
            InitProgress::Ready(res) => return Outcome::Ready(res),
            InitProgress::Failed { error, release } => return Outcome::Failed(error, release),
        }
    }
}

#[test]
fn init_requests_come_in_fixed_order() {
    let mut requests = Vec::new();
    assert!(matches!(run(usize::MAX, None, &mut requests), Outcome::Ready(_)));
    assert_eq!(
        requests,
        vec![
            InitRequest::CreateBuffer(BufferRole::Position),
            InitRequest::CreateBuffer(BufferRole::Color),
            InitRequest::CreateBuffer(BufferRole::Index),
            InitRequest::CompileShader(ShaderStage::Vertex),
            InitRequest::CompileShader(ShaderStage::Fragment),
            InitRequest::LinkProgram,
            InitRequest::ResolveAttribute(ShaderSymbol::Position),
            InitRequest::ResolveAttribute(ShaderSymbol::Color),
            InitRequest::ResolveUniform(ShaderSymbol::Model),
            InitRequest::ResolveUniform(ShaderSymbol::Projection),
        ]
    );
}

#[test]
fn init_success_gathers_every_object() {
    let mut requests = Vec::new();
    match run(usize::MAX, None, &mut requests) {
        Outcome::Ready(res) => {
            assert_eq!(res.buffers.positions, 100);
            assert_eq!(res.buffers.colors, 101);
            assert_eq!(res.buffers.elements, 102);
            assert_eq!(res.buffers.n_elements, 36);
            assert_eq!(*res.buffers.buffer(BufferRole::Color), 101);
            assert_eq!(res.vertex_shader, 200);
            assert_eq!(res.fragment_shader, 201);
            assert_eq!(res.program, 300);
            assert_eq!(res.locations.position, 0);
            assert_eq!(res.locations.color, 1);
            assert_eq!(res.locations.model, 400);
            assert_eq!(res.locations.projection, 401);
        }
        Outcome::Failed(e, _) => panic!("unexpected failure {:?}", e),
    }
}

#[test]
fn buffer_failure_releases_earlier_buffers() {
    let mut requests = Vec::new();
    match run(1, Some(InitEvent::BufferCreated(None)), &mut requests) {
        Outcome::Failed(error, release) => {
            assert_eq!(error, RenderError::Allocation);
            assert_eq!(release.buffers, vec![100]);
            assert!(release.shaders.is_empty());
            assert_eq!(release.program, None);
        }
        Outcome::Ready(_) => panic!("expected a failure"),
    }
    assert_eq!(requests.len(), 2);
}

#[test]
fn compile_failure_releases_failed_shader_too() {
    let mut requests = Vec::new();
    let bad = InitEvent::ShaderCompiled { shader: Some(201), compiled: false, log: Some("syntax error".to_string()) };
    match run(4, Some(bad), &mut requests) {
        Outcome::Failed(error, release) => {
            assert_eq!(error, RenderError::Compile { diagnostic: "syntax error".to_string() });
            assert_eq!(release.buffers, vec![100, 101, 102]);
            assert_eq!(release.shaders, vec![200, 201]);
            assert_eq!(release.program, None);
        }
        Outcome::Ready(_) => panic!("expected a failure"),
    }
}

#[test]
fn shader_allocation_failure() {
    let mut requests = Vec::new();
    let bad = InitEvent::ShaderCompiled { shader: None, compiled: false, log: None };
    match run(3, Some(bad), &mut requests) {
        Outcome::Failed(error, release) => {
            assert_eq!(error, RenderError::Allocation);
            assert_eq!(release.buffers, vec![100, 101, 102]);
            assert!(release.shaders.is_empty());
        }
        Outcome::Ready(_) => panic!("expected a failure"),
    }
}

#[test]
fn link_failure_releases_program() {
    let mut requests = Vec::new();
    let bad = InitEvent::ProgramLinked { program: Some(300), linked: false, log: Some("varying mismatch".to_string()) };
    match run(5, Some(bad), &mut requests) {
        Outcome::Failed(error, release) => {
            assert_eq!(error, RenderError::Link { diagnostic: "varying mismatch".to_string() });
            assert_eq!(release.buffers, vec![100, 101, 102]);
            assert_eq!(release.shaders, vec![200, 201]);
            assert_eq!(release.program, Some(300));
        }
        Outcome::Ready(_) => panic!("expected a failure"),
    }
}

#[test]
fn missing_attribute_is_binding_error() {
    let mut requests = Vec::new();
    match run(7, Some(InitEvent::AttributeResolved(-1)), &mut requests) {
        Outcome::Failed(error, release) => {
            assert_eq!(error, RenderError::BindingNotFound { symbol: ShaderSymbol::Color });
            assert_eq!(release.program, Some(300));
            assert_eq!(release.shaders, vec![200, 201]);
            assert_eq!(release.buffers, vec![100, 101, 102]);
        }
        Outcome::Ready(_) => panic!("expected a failure"),
    }
}

#[test]
fn missing_uniform_is_binding_error() {
    let mut requests = Vec::new();
    match run(9, Some(InitEvent::UniformResolved(None)), &mut requests) {
        Outcome::Failed(error, release) => {
            assert_eq!(error, RenderError::BindingNotFound { symbol: ShaderSymbol::Projection });
            assert_eq!(release.program, Some(300));
        }
        Outcome::Ready(_) => panic!("expected a failure"),
    }
}

#[test]
fn draw_before_init_fails_without_commands() {
    let renderer: Renderer<u32, u32, u32, u32> = Renderer::new();
    assert!(!renderer.is_initialized());
    assert!(renderer.resources().is_none());
    assert_eq!(renderer.draw(), Err(RenderError::NotInitialized));
}

#[test]
fn valid_init_gives_renderer_that_draws() {
    let mut requests = Vec::new();
    let res = match run(usize::MAX, None, &mut requests) {
        Outcome::Ready(res) => res,
        Outcome::Failed(e, _) => panic!("unexpected failure {:?}", e),
    };
    let mut renderer = Renderer::new();
    assert!(renderer.init(res).is_none());
    assert!(renderer.is_initialized());
    let commands = renderer.draw().unwrap();
    assert_eq!(
        commands,
        vec![
            DrawCommand::UseProgram,
            DrawCommand::EnableDepthTest,
            DrawCommand::SetUniformMatrix(ShaderSymbol::Model),
            DrawCommand::SetUniformMatrix(ShaderSymbol::Projection),
            DrawCommand::BindBuffer(BufferRole::Position),
            DrawCommand::AttributePointer { slot: 0, components: POSITION_COMPONENTS },
            DrawCommand::EnableAttribute(0),
            DrawCommand::BindBuffer(BufferRole::Color),
            DrawCommand::AttributePointer { slot: 1, components: COLOR_COMPONENTS },
            DrawCommand::EnableAttribute(1),
            DrawCommand::BindBuffer(BufferRole::Index),
            DrawCommand::DrawTriangles { count: 36 },
        ]
    );
    assert_eq!(POSITION_COMPONENTS, 3);
    assert_eq!(COLOR_COMPONENTS, 4);
    // a second frame is the same, one draw each
    assert_eq!(renderer.draw().unwrap(), commands);
}

#[test]
fn reinit_returns_previous_and_release_uninitializes() {
    let mut requests = Vec::new();
    let first = match run(usize::MAX, None, &mut requests) {
        Outcome::Ready(res) => res,
        Outcome::Failed(e, _) => panic!("unexpected failure {:?}", e),
    };
    requests.clear();
    let mut second = match run(usize::MAX, None, &mut requests) {
        Outcome::Ready(res) => res,
        Outcome::Failed(e, _) => panic!("unexpected failure {:?}", e),
    };
    second.program = 301;
    let mut renderer = Renderer::new();
    assert!(renderer.init(first).is_none());
    let previous = renderer.init(second).unwrap();
    assert_eq!(previous.program, 300);
    assert_eq!(renderer.resources().unwrap().program, 301);
    let held = renderer.release().unwrap();
    assert_eq!(held.program, 301);
    assert!(!renderer.is_initialized());
    assert_eq!(renderer.draw(), Err(RenderError::NotInitialized));
}
