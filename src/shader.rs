//! The shader pair, its symbol table, and the decisions taken on the
//! backend's compile and link reports.
//!
//! The attribute and uniform names are held once, in [`ShaderSymbol`], and
//! the vertex stage's source text is assembled from them, so the identifiers
//! that are looked up after linking are the ones that the source declares.
use vstd::prelude::*;
use vstd::string::StringExecFns;

verus! {

/// The two programmable stages of the pipeline.
#[derive(Clone, Copy, Debug, PartialEq, Eq)]
pub enum ShaderStage {
    Vertex,
    Fragment,
}

/// The bindings of the shader pair: two attributes and two uniforms.
#[derive(Clone, Copy, Debug, PartialEq, Eq)]
pub enum ShaderSymbol {
    /// Attribute: three coordinates per vertex.
    Position,
    /// Attribute: four colour channels per vertex.
    Color,
    /// Uniform: the model matrix.
    Model,
    /// Uniform: the projection matrix.
    Projection,
}

/// The failures of the pipeline.
#[derive(Clone, Debug, PartialEq, Eq)]
pub enum RenderError {
    /// The backend could not create a buffer, shader or program object.
    Allocation,
    /// A stage did not compile; the backend's compiler log.
    Compile { diagnostic: String },
    /// The program did not link; the backend's linker log.
    Link { diagnostic: String },
    /// The linked program has no slot for this symbol.
    BindingNotFound { symbol: ShaderSymbol },
    /// A frame was asked for before the resources were in place.
    NotInitialized,
    /// The projection parameters define no perspective matrix.
    DegenerateProjection,
}

/// A failed creation step: the error, and the object that was created before
/// the failure was seen, which the caller must release.
pub struct StageFailure<H> {
    pub error: RenderError,
    pub release: Option<H>,
}

/// Diagnostic given when the compiler reports failure with an empty log.
pub const MISSING_COMPILE_LOG: &'static str = "shader compilation failed and the compiler gave no log";

/// Diagnostic given when the linker reports failure with an empty log.
pub const MISSING_LINK_LOG: &'static str = "program link failed and the linker gave no log";

impl ShaderSymbol {
    /// The identifier under which the shader source declares the symbol.
    pub open spec fn spec_name(self) -> Seq<char> {
        match self {
            ShaderSymbol::Position => "position"@,
            ShaderSymbol::Color => "color"@,
            ShaderSymbol::Model => "model"@,
            ShaderSymbol::Projection => "projection"@,
        }
    }

    /// Whether the symbol is a per-vertex attribute (else a uniform).
    pub open spec fn is_attribute(self) -> bool {
        self is Position || self is Color
    }

    /// The identifier under which the shader source declares the symbol.
    pub fn name(&self) -> (r: &'static str)
        ensures
            r@ == self.spec_name(),
    {
        match self {
            ShaderSymbol::Position => "position",
            ShaderSymbol::Color => "color",
            ShaderSymbol::Model => "model",
            ShaderSymbol::Projection => "projection",
        }
    }
}

/// The vertex stage: it reads the `position` and `color` attributes and the
/// `model` and `projection` uniforms, places the vertex at
/// `projection * model * vec4(position, 1.0)` and forwards the colour.
pub open spec fn vertex_source_text() -> Seq<char> {
    "attribute vec3 "@ + ShaderSymbol::Position.spec_name() + ";\nattribute vec4 "@
        + ShaderSymbol::Color.spec_name() + ";\nuniform mat4 "@ + ShaderSymbol::Model.spec_name()
        + ";\nuniform mat4 "@ + ShaderSymbol::Projection.spec_name()
        + ";\nvarying vec4 vColor;\nvoid main() {\n    vColor = "@
        + ShaderSymbol::Color.spec_name() + ";\n    gl_Position = "@
        + ShaderSymbol::Projection.spec_name() + " * "@ + ShaderSymbol::Model.spec_name()
        + " * vec4("@ + ShaderSymbol::Position.spec_name() + ", 1.0);\n}\n"@
}

/// The fragment stage: it outputs the interpolated vertex colour unchanged.
pub const FRAGMENT_SHADER_SOURCE: &'static str =
    "precision mediump float;\nvarying vec4 vColor;\nvoid main() {\n    gl_FragColor = vColor;\n}\n";

/// Source text of the vertex stage, assembled from the symbol table.
pub fn vertex_shader_source() -> (r: String)
    ensures
        r@ == vertex_source_text(),
{
    let mut s = String::from_str("attribute vec3 ");
    s.append(ShaderSymbol::Position.name());
    s.append(";\nattribute vec4 ");
    s.append(ShaderSymbol::Color.name());
    s.append(";\nuniform mat4 ");
    s.append(ShaderSymbol::Model.name());
    s.append(";\nuniform mat4 ");
    s.append(ShaderSymbol::Projection.name());
    s.append(";\nvarying vec4 vColor;\nvoid main() {\n    vColor = ");
    s.append(ShaderSymbol::Color.name());
    s.append(";\n    gl_Position = ");
    s.append(ShaderSymbol::Projection.name());
    s.append(" * ");
    s.append(ShaderSymbol::Model.name());
    s.append(" * vec4(");
    s.append(ShaderSymbol::Position.name());
    s.append(", 1.0);\n}\n");
    s
}

/// Source text of a stage.
pub fn shader_source(stage: ShaderStage) -> (r: String)
    ensures
        stage is Vertex ==> r@ == vertex_source_text(),
        stage is Fragment ==> r@ == FRAGMENT_SHADER_SOURCE@,
{
    match stage {
        ShaderStage::Vertex => vertex_shader_source(),
        ShaderStage::Fragment => String::from_str(FRAGMENT_SHADER_SOURCE),
    }
}

/// The diagnostic reported for a failed compile or link: the backend's log
/// when it has any text, else the fallback.
pub open spec fn diagnostic_text(log: Option<String>, fallback: Seq<char>) -> Seq<char> {
    if log is Some && log->0@.len() > 0 {
        log->0@
    } else {
        fallback
    }
}

fn diagnostic(log: Option<String>, fallback: &str) -> (r: String)
    ensures
        r@ == diagnostic_text(log, fallback@),
{
    match log {
        Some(text) => {
            if text.as_str().is_empty() {
                String::from_str(fallback)
            } else {
                text
            }
        },
        None => String::from_str(fallback),
    }
}

/// Whether `error` is a compile error whose diagnostic is `text`.
pub open spec fn is_compile_error(error: RenderError, text: Seq<char>) -> bool {
    error matches RenderError::Compile { diagnostic } && diagnostic@ == text
}

/// Whether `error` is a link error whose diagnostic is `text`.
pub open spec fn is_link_error(error: RenderError, text: Seq<char>) -> bool {
    error matches RenderError::Link { diagnostic } && diagnostic@ == text
}

/// Decides on a shader from what the backend reported: the created object
/// (none when it could not allocate one), its compile status and its
/// compiler log. A compiled shader is kept; a shader that did not compile is
/// handed back for release with a `Compile` error that carries the log, and
/// its diagnostic is never empty.
pub fn create_shader<S>(shader: Option<S>, compiled: bool, log: Option<String>) -> (r: Result<
    S,
    StageFailure<S>,
>)
    ensures
        shader is None ==> (r matches Err(f) && f.error == RenderError::Allocation
            && f.release is None),
        shader is Some && compiled ==> r == Ok::<S, StageFailure<S>>(shader->0),
        shader is Some && !compiled ==> (r matches Err(f) && f.release == shader
            && is_compile_error(f.error, diagnostic_text(log, MISSING_COMPILE_LOG@))),
        r matches Err(f) ==> (f.error matches RenderError::Compile { diagnostic }
            ==> diagnostic@.len() > 0),
{
    proof {
        reveal_strlit("shader compilation failed and the compiler gave no log");
    }
    match shader {
        None => Err(StageFailure { error: RenderError::Allocation, release: None }),
        Some(s) => {
            if compiled {
                Ok(s)
            } else {
                let text = diagnostic(log, MISSING_COMPILE_LOG);
                Err(StageFailure { error: RenderError::Compile { diagnostic: text }, release: Some(s) })
            }
        },
    }
}

/// Decides on a program from what the backend reported: the created object,
/// its link status and its linker log, as [`create_shader`] does for a stage.
pub fn link_program<P>(program: Option<P>, linked: bool, log: Option<String>) -> (r: Result<
    P,
    StageFailure<P>,
>)
    ensures
        program is None ==> (r matches Err(f) && f.error == RenderError::Allocation
            && f.release is None),
        program is Some && linked ==> r == Ok::<P, StageFailure<P>>(program->0),
        program is Some && !linked ==> (r matches Err(f) && f.release == program
            && is_link_error(f.error, diagnostic_text(log, MISSING_LINK_LOG@))),
        r matches Err(f) ==> (f.error matches RenderError::Link { diagnostic }
            ==> diagnostic@.len() > 0),
{
    proof {
        reveal_strlit("program link failed and the linker gave no log");
    }
    match program {
        None => Err(StageFailure { error: RenderError::Allocation, release: None }),
        Some(p) => {
            if linked {
                Ok(p)
            } else {
                let text = diagnostic(log, MISSING_LINK_LOG);
                Err(StageFailure { error: RenderError::Link { diagnostic: text }, release: Some(p) })
            }
        },
    }
}

} // verus!
