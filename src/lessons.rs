use vstd::prelude::*;

use crate::pipeline::{BlendMode, DrawState};
use crate::shaders::{stage10_w_11, stage12, stage14, stage2, stage3, stage4, stage6, stage7, stage8, stage9};

verus! {

/// The name that selects the glium lesson series.
pub const GLIUM: &'static str = "glium";

/// The name that selects the wgpu lesson series.
pub const LEARN_WGPU: &'static str = "lwgpu";

/// The lesson series that can be asked for by name.
#[derive(Clone, Copy, Debug, PartialEq, Eq, Structural)]
pub enum Tutorial {
    Glium,
    LearnWgpu,
}

/// The series named by `name`, compared as given.
pub open spec fn tutorial_named(name: Seq<char>) -> Option<Tutorial> {
    if name == GLIUM@ {
        Some(Tutorial::Glium)
    } else if name == LEARN_WGPU@ {
        Some(Tutorial::LearnWgpu)
    } else {
        None
    }
}

/// What str::to_lowercase makes of `s`.
pub uninterp spec fn lowercase_of(s: Seq<char>) -> Seq<char>;

/// Relies on str::to_lowercase: the result depends on the characters alone.
#[verifier::external_body]
fn to_lowercase(s: &str) -> (r: String)
    ensures
        r@ == lowercase_of(s@),
{
    s.to_lowercase()
}

/// The series whose name is exactly `name`.
pub fn tutorial_from_lowercase(name: &str) -> (r: Option<Tutorial>)
    ensures
        r == tutorial_named(name@),
{
    let name = name.to_owned();
    if name == GLIUM.to_owned() {
        Some(Tutorial::Glium)
    } else if name == LEARN_WGPU.to_owned() {
        Some(Tutorial::LearnWgpu)
    } else {
        None
    }
}

/// The series that `name` asks for, letter case aside.
pub fn select_tutorial(name: &str) -> (r: Option<Tutorial>)
    ensures
        r == tutorial_named(lowercase_of(name@)),
{
    let lowered = to_lowercase(name);
    tutorial_from_lowercase(lowered.as_str())
}

/// The stage run when none is asked for.
pub const DEFAULT_STAGE: usize = 9;

/// The lessons of the glium series, each a configuration of the frame
/// pipeline.
#[derive(Clone, Copy, Debug, PartialEq, Eq, Structural)]
pub enum Lesson {
    /// A window cleared to one colour.
    ClearWindow,
    /// One triangle.
    Triangle,
    /// A triangle moved by a uniform.
    MovingTriangle,
    /// A triangle placed by translation and rotation matrices.
    RotatingTriangle,
    /// A textured triangle.
    TexturedTriangle,
    /// An indexed mesh under a scaling matrix.
    Mesh,
    /// The mesh lit by a directional light.
    ShadedMesh,
    /// The lit mesh drawn with depth testing.
    DepthTestedMesh,
    /// The lit mesh seen through a perspective projection; this and the
    /// lessons below have no stage number.
    PerspectiveMesh,
    /// The lit mesh seen from a camera placed by a view matrix.
    CameraMesh,
    /// A normal-mapped quad with specular lighting.
    NormalMappedQuad,
}

/// The lesson that stage number `stage` runs: stages 1 to 9 are numbered,
/// the later lessons are not reachable by number.
pub open spec fn lesson_of_stage(stage: int) -> Option<Lesson> {
    if stage == 1 {
        Some(Lesson::ClearWindow)
    } else if stage == 2 {
        Some(Lesson::Triangle)
    } else if stage == 3 {
        Some(Lesson::MovingTriangle)
    } else if stage == 4 {
        Some(Lesson::RotatingTriangle)
    } else if stage == 5 || stage == 6 {
        Some(Lesson::TexturedTriangle)
    } else if stage == 7 {
        Some(Lesson::Mesh)
    } else if stage == 8 {
        Some(Lesson::ShadedMesh)
    } else if stage == 9 {
        Some(Lesson::DepthTestedMesh)
    } else {
        None
    }
}

/// The stage that a request for `stage` runs.
pub open spec fn stage_requested(stage: Option<usize>) -> int {
    match stage {
        Some(k) => k as int,
        None => DEFAULT_STAGE as int,
    }
}

/// The lesson that a request for `stage` runs, or `None` for a stage number
/// that no lesson has.
pub fn select_lesson(stage: Option<usize>) -> (r: Option<Lesson>)
    ensures
        r == lesson_of_stage(stage_requested(stage)),
{
    let k = match stage {
        Some(k) => k,
        None => DEFAULT_STAGE,
    };
    match k {
        1 => Some(Lesson::ClearWindow),
        2 => Some(Lesson::Triangle),
        3 => Some(Lesson::MovingTriangle),
        4 => Some(Lesson::RotatingTriangle),
        5 | 6 => Some(Lesson::TexturedTriangle),
        7 => Some(Lesson::Mesh),
        8 => Some(Lesson::ShadedMesh),
        9 => Some(Lesson::DepthTestedMesh),
        _ => None,
    }
}

impl Lesson {
    /// The lessons from the depth-tested mesh on test and write depth.
    pub open spec fn tests_depth(self) -> bool {
        self is DepthTestedMesh || self is PerspectiveMesh || self is CameraMesh || self is NormalMappedQuad
    }

    /// The number of meshes drawn in each frame.
    pub open spec fn spec_mesh_count(self) -> nat {
        if self is ClearWindow {
            0
        } else {
            1
        }
    }

    /// The vertex and fragment shader sources of the lesson's program.
    pub open spec fn shaders(self) -> Option<(Seq<char>, Seq<char>)> {
        match self {
            Lesson::ClearWindow => None,
            Lesson::Triangle => Some((stage2::VERTEX_SHADER@, stage2::FRAGMENT_SHADER@)),
            Lesson::MovingTriangle => Some((stage3::VERTEX_SHADER@, stage2::FRAGMENT_SHADER@)),
            Lesson::RotatingTriangle => Some((stage4::VERTEX_SHADER@, stage2::FRAGMENT_SHADER@)),
            Lesson::TexturedTriangle => Some((stage6::VERTEX_SHADER@, stage6::FRAGMENT_SHADER@)),
            Lesson::Mesh => Some((stage7::VERTEX_SHADER@, stage7::FRAGMENT_SHADER@)),
            Lesson::ShadedMesh => Some((stage8::VERTEX_SHADER@, stage8::FRAGMENT_SHADER@)),
            Lesson::DepthTestedMesh => Some((stage9::VERTEX_SHADER@, stage9::FRAGMENT_SHADER@)),
            Lesson::PerspectiveMesh => Some((stage10_w_11::VERTEX_SHADER@, stage10_w_11::FRAGMENT_SHADER@)),
            Lesson::CameraMesh => Some((stage12::VERTEX_SHADER@, stage12::FRAGMENT_SHADER@)),
            Lesson::NormalMappedQuad => Some((stage14::VERTEX_SHADER@, stage14::FRAGMENT_SHADER@)),
        }
    }

    /// The rasterizer configuration of the lesson's draw call: depth tested
    /// and written from the depth-tested mesh on, never blended.
    pub fn draw_state(&self) -> (r: DrawState)
        ensures
            r.depth_test_enabled == self.tests_depth(),
            r.depth_write_enabled == self.tests_depth(),
            r.blend_mode == BlendMode::Disabled,
    {
        let depth = match self {
            Lesson::DepthTestedMesh | Lesson::PerspectiveMesh | Lesson::CameraMesh | Lesson::NormalMappedQuad => true,
            _ => false,
        };
        DrawState { depth_test_enabled: depth, depth_write_enabled: depth, blend_mode: BlendMode::Disabled }
    }

    /// The number of meshes drawn in each frame: none for the cleared window,
    /// one otherwise.
    pub fn mesh_count(&self) -> (r: usize)
        ensures
            r == self.spec_mesh_count(),
    {
        match self {
            Lesson::ClearWindow => 0,
            _ => 1,
        }
    }

    /// The shader sources of the lesson's program, vertex shader first; `None`
    /// for the lesson that draws nothing.
    pub fn shader_sources(&self) -> (r: Option<(&'static str, &'static str)>)
        ensures
            match r {
                Some((vertex, fragment)) => self.shaders() == Some((vertex@, fragment@)),
                None => self.shaders() is None,
            },
    {
        match self {
            Lesson::ClearWindow => None,
            Lesson::Triangle => Some((stage2::vertex_shader_src(), stage2::fragment_shader_src())),
            Lesson::MovingTriangle => Some((stage3::vertex_shader_src(), stage2::fragment_shader_src())),
            Lesson::RotatingTriangle => Some((stage4::vertex_shader_src(), stage2::fragment_shader_src())),
            Lesson::TexturedTriangle => Some((stage6::vertex_shader_src(), stage6::fragment_shader_src())),
            Lesson::Mesh => Some((stage7::vertex_shader_src(), stage7::fragment_shader_src())),
            Lesson::ShadedMesh => Some((stage8::vertex_shader_src(), stage8::fragment_shader_src())),
            Lesson::DepthTestedMesh => Some((stage9::vertex_shader_src(), stage9::fragment_shader_src())),
            Lesson::PerspectiveMesh => Some((stage10_w_11::vertex_shader_src(), stage10_w_11::fragment_shader_src())),
            Lesson::CameraMesh => Some((stage12::vertex_shader_src(), stage12::fragment_shader_src())),
            Lesson::NormalMappedQuad => Some((stage14::vertex_shader_src(), stage14::fragment_shader_src())),
        }
    }
}

} // verus!
