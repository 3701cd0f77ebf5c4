//! Shader sources.
//!
//! The program text of each stage, in GLSL 1.50. The vertex stage is shared by
//! every technique that transforms geometry, the fragment stage by every
//! technique that writes one flat color. The geometry stage belongs to the
//! wireframe technique: for each triangle it emits a line strip of four
//! vertices, the three corners and the first corner again, with the clip-space
//! positions passed through as they are.

use vstd::prelude::*;

verus! {

/// Vertex stage: transforms `a_Pos` by `u_Proj * u_View * u_Model`.
pub const VERTEX_SRC: &'static str = "
    #version 150 core

    uniform mat4 u_Proj;
    uniform mat4 u_View;
    uniform mat4 u_Model;

    in vec3 a_Pos;
    in vec3 a_Normal;

    void main() {
        gl_Position = u_Proj * u_View * u_Model * vec4(a_Pos, 1.0);
    }
";

/// Fragment stage: writes the uniform `u_Ka` to the output `o_Ka`.
pub const FLAT_FRAGMENT_SRC: &'static str = "
    #version 150 core

    uniform vec4 u_Ka;

    out vec4 o_Ka;

    void main() {
        o_Ka = u_Ka;
    }
";

/// Geometry stage: turns each triangle into a closed line strip of four
/// vertices.
pub const WIREFRAME_GEOMETRY_SRC: &'static str = "
    #version 150 core

    layout(triangles) in;
    layout(line_strip, max_vertices=4) out;

    void main() {
        gl_Position = gl_in[0].gl_Position;
        EmitVertex();
        gl_Position = gl_in[1].gl_Position;
        EmitVertex();
        gl_Position = gl_in[2].gl_Position;
        EmitVertex();
        gl_Position = gl_in[0].gl_Position;
        EmitVertex();
        EndPrimitive();
    }
";

} // verus!
