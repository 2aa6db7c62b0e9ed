//! The shader program: which sources are compiled, and the fixed layout
//! of the resources the fragment stage reads.

use vstd::prelude::*;

verus! {

/// Name under which a source is handed to the compiler.
pub const SOURCE_NAME: &'static str = "file.glsl";

/// Entry point of both stages.
pub const ENTRY_POINT: &'static str = "main";

/// The vertex stage: a quad over the whole target, made from the vertex
/// index alone.
pub const VERTEX_SOURCE: &'static str =
    "#version 450\n\nlayout(location = 0) out vec2 v_coord;\n\nconst vec2 corners[6] = vec2[6](\n    vec2(0.0, 0.0), vec2(1.0, 0.0), vec2(1.0, 1.0),\n    vec2(0.0, 0.0), vec2(1.0, 1.0), vec2(0.0, 1.0)\n);\n\nvoid main() {\n    vec2 corner = corners[gl_VertexIndex];\n    v_coord = corner;\n    gl_Position = vec4(corner * 2.0 - 1.0, 0.0, 1.0);\n}\n";

/// The built-in fragment stage: blends the two frames next to the
/// position.
pub const FRAGMENT_SOURCE: &'static str =
    "#version 450\n\nlayout(location = 0) in vec2 v_coord;\nlayout(location = 0) out vec4 o_color;\n\nlayout(set = 0, binding = 0) uniform sampler s_frames;\nlayout(set = 0, binding = 1) uniform texture2DArray t_frames;\nlayout(set = 0, binding = 2) uniform Globals {\n    uint total_frame;\n    float position;\n};\n\nvoid main() {\n    float current = floor(position);\n    float next = mod(current + 1.0, float(total_frame));\n    vec4 a = texture(sampler2DArray(t_frames, s_frames), vec3(v_coord, current));\n    vec4 b = texture(sampler2DArray(t_frames, s_frames), vec3(v_coord, next));\n    o_color = mix(a, b, position - current);\n}\n";

/// The stage a source is compiled for.
#[derive(Clone, Copy, Debug, PartialEq, Eq)]
pub enum ShaderKind {
    Vertex,
    Fragment,
}

/// One source to compile.
#[derive(Clone, Debug, PartialEq, Eq)]
pub struct ShaderSource {
    pub code: String,
    pub kind: ShaderKind,
}

/// The two sources of the program.
#[derive(Clone, Debug, PartialEq, Eq)]
pub struct Shaders {
    pub fragment: ShaderSource,
    pub vertex: ShaderSource,
}

/// What stands at a binding of the bind group.
#[derive(Clone, Copy, Debug, PartialEq, Eq)]
pub enum BindingType {
    /// The sampler of the frames.
    Sampler,
    /// The frames, as a two-dimensional array texture.
    SampledTextureArray,
    /// The uniform block, at a fixed place.
    UniformBuffer,
}

/// One binding of the bind group, visible to the fragment stage.
#[derive(Clone, Copy, Debug, PartialEq, Eq)]
pub struct BindGroupLayoutBinding {
    pub binding: u32,
    pub ty: BindingType,
}

/// What the render pipeline is made from. Its vertex stage takes no
/// vertex buffer: the quad comes from the vertex index alone.
#[derive(Clone, Debug, PartialEq, Eq)]
pub struct RenderPipelineDescriptor {
    pub shaders: Shaders,
    pub bind_group_layout: Vec<BindGroupLayoutBinding>,
    pub vertex_buffers: u32,
    pub sample_count: u32,
    pub sample_mask: u32,
    pub alpha_to_coverage_enabled: bool,
}

/// What stands at `binding` in the layout.
pub open spec fn binding_type_at(binding: int) -> BindingType {
    if binding == 0 {
        BindingType::Sampler
    } else if binding == 1 {
        BindingType::SampledTextureArray
    } else {
        BindingType::UniformBuffer
    }
}

/// The sources to compile: the given fragment source if there is one,
/// else the built-in one, and the built-in vertex source always.
pub fn get_shaders(custom_fragment: Option<String>) -> (shaders: Shaders)
    ensures
        shaders.fragment.kind == ShaderKind::Fragment,
        shaders.vertex.kind == ShaderKind::Vertex,
        shaders.vertex.code@ == VERTEX_SOURCE@,
        shaders.fragment.code@ == match custom_fragment {
            Some(code) => code@,
            None => FRAGMENT_SOURCE@,
        },
{
    let fragment_code = match custom_fragment {
        Some(code) => code,
        None => FRAGMENT_SOURCE.to_owned(),
    };
    Shaders {
        fragment: ShaderSource { code: fragment_code, kind: ShaderKind::Fragment },
        vertex: ShaderSource { code: VERTEX_SOURCE.to_owned(), kind: ShaderKind::Vertex },
    }
}

/// The layout of the bind group: the sampler at binding 0, the frames at
/// binding 1, the uniform block at binding 2.
pub fn create_bind_group_layout() -> (bindings: Vec<BindGroupLayoutBinding>)
    ensures
        bindings@.len() == 3,
        forall|i: int|
            0 <= i < 3 ==> #[trigger] bindings@[i] == (BindGroupLayoutBinding {
                binding: i as u32,
                ty: binding_type_at(i),
            }),
{
    let mut bindings: Vec<BindGroupLayoutBinding> = Vec::new();
    bindings.push(BindGroupLayoutBinding { binding: 0, ty: BindingType::Sampler });
    bindings.push(BindGroupLayoutBinding { binding: 1, ty: BindingType::SampledTextureArray });
    bindings.push(BindGroupLayoutBinding { binding: 2, ty: BindingType::UniformBuffer });
    bindings
}

/// The description of the render pipeline over the given layout, with
/// the given fragment source or the built-in one.
pub fn create_pipeline(
    bind_group_layout: Vec<BindGroupLayoutBinding>,
    custom_fragment: Option<String>,
) -> (descriptor: RenderPipelineDescriptor)
    ensures
        descriptor.bind_group_layout == bind_group_layout,
        descriptor.shaders.fragment.kind == ShaderKind::Fragment,
        descriptor.shaders.vertex.kind == ShaderKind::Vertex,
        descriptor.shaders.vertex.code@ == VERTEX_SOURCE@,
        descriptor.shaders.fragment.code@ == match custom_fragment {
            Some(code) => code@,
            None => FRAGMENT_SOURCE@,
        },
        descriptor.vertex_buffers == 0,
        descriptor.sample_count == 1,
        descriptor.sample_mask == u32::MAX,
        !descriptor.alpha_to_coverage_enabled,
{
    RenderPipelineDescriptor {
        shaders: get_shaders(custom_fragment),
        bind_group_layout,
        vertex_buffers: 0,
        sample_count: 1,
        sample_mask: u32::MAX,
        alpha_to_coverage_enabled: false,
    }
}

} // verus!
