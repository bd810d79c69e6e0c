//! The concrete passes' uniform providers and pass descriptions: the
//! rasterized mesh, the fractal ray-march and the volumetric-cloud
//! layers all share one camera through their providers.
//!
//! Shader source text is opaque: the host hands the strings in and the
//! backend's compiler is their only consumer.

use vstd::prelude::*;
use crate::scalar::{Scalar, F32_ZERO, F32_ONE, F32_NEG_ONE};
use crate::vec_lib::mat4::{Mat4f, mat4_from_seq, lemma_mat4_from_seq};
use crate::vec_lib::vec3::Vec3f;
use crate::webgl_utils::camera::FPSCamera;
use crate::webgl_utils::render_pass::{RenderPassConfig, UniformProvider, UniformValue};

verus! {

/// The triangle primitive mode (`TRIANGLES`).
pub const GL_TRIANGLES: u32 = 0x0004;

/// The 32-bit unsigned index element type (`UNSIGNED_INT`).
pub const GL_UNSIGNED_INT: u32 = 0x1405;

/// The binary32 attribute component type (`FLOAT`).
pub const GL_FLOAT: u32 = 0x1406;

/// The bit pattern of `5.0`, the rasterized model's depth offset.
pub const F32_FIVE: u32 = 0x40A0_0000;

/// The view matrix of a camera, at the spec level.
pub open spec fn spec_view_seq(camera: FPSCamera) -> Seq<Scalar> {
    Mat4f::spec_look_at(camera.eye, FPSCamera::spec_target(camera), camera.up)
}

/// The projection matrix of a camera, at the spec level.
pub open spec fn spec_proj_seq(camera: FPSCamera) -> Seq<Scalar> {
    Mat4f::spec_perspective(camera.fov, camera.aspect, camera.near, camera.far)
}

/// The provider the ray-march passes bind: slot 0 is the transposed
/// inverse projection, slot 1 the transposed inverse view, slot 3 the
/// frame time, and every other slot the transposed view-projection
/// product.
#[derive(Clone, Copy, Debug)]
pub struct FractalUniformProvider;

impl UniformProvider for FractalUniformProvider {
    open spec fn spec_update(&self, camera: FPSCamera, time: Scalar, slot: u32) -> UniformValue {
        if slot == 3 {
            UniformValue::Float(time)
        } else if slot == 0 {
            UniformValue::Matrix4(
                mat4_from_seq(Mat4f::spec_transpose(Mat4f::spec_inverse(spec_proj_seq(camera)))),
            )
        } else if slot == 1 {
            UniformValue::Matrix4(
                mat4_from_seq(Mat4f::spec_transpose(Mat4f::spec_inverse(spec_view_seq(camera)))),
            )
        } else {
            UniformValue::Matrix4(
                mat4_from_seq(
                    Mat4f::spec_transpose(
                        Mat4f::spec_multiply(spec_proj_seq(camera), spec_view_seq(camera)),
                    ),
                ),
            )
        }
    }

    fn update(&self, camera: &FPSCamera, time: Scalar, slot: u32) -> (v: UniformValue) {
        if slot == 3 {
            return UniformValue::Float(time);
        }
        let mat = if slot == 0 {
            camera.proj_matrix().inverse().transpose()
        } else if slot == 1 {
            camera.view_matrix().inverse().transpose()
        } else {
            let view = camera.view_matrix();
            let proj = camera.proj_matrix();
            proj.multiply_mat4(&view).transpose()
        };
        proof {
            if slot == 0 {
                lemma_mat4_from_seq(
                    Mat4f::spec_transpose(Mat4f::spec_inverse(spec_proj_seq(*camera))),
                );
            } else if slot == 1 {
                lemma_mat4_from_seq(
                    Mat4f::spec_transpose(Mat4f::spec_inverse(spec_view_seq(*camera))),
                );
            } else {
                lemma_mat4_from_seq(
                    Mat4f::spec_transpose(
                        Mat4f::spec_multiply(spec_proj_seq(*camera), spec_view_seq(*camera)),
                    ),
                );
            }
            assert(mat.vals =~= match self.spec_update(*camera, time, slot) {
                UniformValue::Matrix4(m) => m.vals,
                UniformValue::Float(_) => mat.vals,
            });
        }
        UniformValue::Matrix4(mat)
    }
}

/// The rasterized mesh's model matrix, at the spec level: the identity
/// translated five units along z and rotated by a zero angle about the
/// y axis, exactly as the executable code composes it.
pub open spec fn spec_raster_model_seq() -> Seq<Scalar> {
    Mat4f::spec_rotate3d(
        Mat4f::spec_translate(
            Mat4f::spec_identity(),
            Vec3f {
                x: Scalar { bits: F32_ZERO },
                y: Scalar { bits: F32_ZERO },
                z: Scalar { bits: F32_FIVE },
            },
        ),
        Vec3f {
            x: Scalar { bits: F32_ZERO },
            y: Scalar { bits: F32_ONE },
            z: Scalar { bits: F32_ZERO },
        },
        Scalar { bits: F32_ZERO },
    )
}

/// The provider the rasterized pass binds: every slot yields the
/// transposed model-view-projection product for a fixed model matrix.
#[derive(Clone, Copy, Debug)]
pub struct RasterUniformProvider;

impl UniformProvider for RasterUniformProvider {
    open spec fn spec_update(&self, camera: FPSCamera, time: Scalar, slot: u32) -> UniformValue {
        UniformValue::Matrix4(
            mat4_from_seq(
                Mat4f::spec_transpose(
                    Mat4f::spec_multiply(
                        Mat4f::spec_multiply(spec_proj_seq(camera), spec_view_seq(camera)),
                        spec_raster_model_seq(),
                    ),
                ),
            ),
        )
    }

    fn update(&self, camera: &FPSCamera, time: Scalar, slot: u32) -> (v: UniformValue) {
        let model = Mat4f::identity().translate(
            &Vec3f::new(
                Scalar { bits: F32_ZERO },
                Scalar { bits: F32_ZERO },
                Scalar { bits: F32_FIVE },
            ),
        ).rotate3d(
            &Vec3f::new(
                Scalar { bits: F32_ZERO },
                Scalar { bits: F32_ONE },
                Scalar { bits: F32_ZERO },
            ),
            Scalar { bits: F32_ZERO },
        );
        let view = camera.view_matrix();
        let proj = camera.proj_matrix();
        let mvp = proj.multiply_mat4(&view).multiply_mat4(&model).transpose();
        proof {
            lemma_mat4_from_seq(
                Mat4f::spec_transpose(
                    Mat4f::spec_multiply(
                        Mat4f::spec_multiply(spec_proj_seq(*camera), spec_view_seq(*camera)),
                        spec_raster_model_seq(),
                    ),
                ),
            );
            assert(mvp.vals =~= match self.spec_update(*camera, time, slot) {
                UniformValue::Matrix4(m) => m.vals,
                UniformValue::Float(_) => mvp.vals,
            });
        }
        UniformValue::Matrix4(mvp)
    }
}

/// The index values of the full-screen quad the ray-march passes draw.
pub open spec fn spec_pixel_indices() -> Seq<u32> {
    seq![3u32, 1u32, 0u32, 0u32, 2u32, 3u32]
}

/// The vertex positions of the full-screen quad, as binary32 bit words:
/// the four corners `(-1,1) (1,1) (-1,-1) (1,-1)`.
pub open spec fn spec_pixel_verts() -> Seq<u32> {
    seq![
        F32_NEG_ONE,
        F32_ONE,
        F32_ONE,
        F32_ONE,
        F32_NEG_ONE,
        F32_NEG_ONE,
        F32_ONE,
        F32_NEG_ONE,
    ]
}

/// The shared description of a full-screen ray-march pass: six indices
/// over four quad corners, one two-component `vertPos` attribute, and
/// an indexed triangle draw.
pub fn setup_pixel_shader(v_shader: String, frag_shader: String) -> (r: RenderPassConfig<
    FractalUniformProvider,
>)
    ensures
        r.v_shader == v_shader,
        r.f_shader == frag_shader,
        r.draw_mode == GL_TRIANGLES,
        r.draw_count == 6,
        r.draw_type == GL_UNSIGNED_INT,
        r.draw_offset == 0,
        r.index_buffer_data@ == spec_pixel_indices(),
        r.attributes@.len() == 1,
        r.attributes@[0].name@ == "vertPos"@,
        r.attributes@[0].size == 2,
        r.attributes@[0].size_type == GL_FLOAT,
        !r.attributes@[0].normalized,
        r.attributes@[0].stride == 8,
        r.attributes@[0].offset == 0,
        r.attributes@[0].divisor == 0,
        r.attributes@[0].data@ == spec_pixel_verts(),
        r.uniforms@.len() == 0,
        r.textures_loaded@.len() == 0,
{
    let mut indices: Vec<u32> = Vec::new();
    indices.push(3);
    indices.push(1);
    indices.push(0);
    indices.push(0);
    indices.push(2);
    indices.push(3);
    let mut verts: Vec<u32> = Vec::new();
    verts.push(F32_NEG_ONE);
    verts.push(F32_ONE);
    verts.push(F32_ONE);
    verts.push(F32_ONE);
    verts.push(F32_NEG_ONE);
    verts.push(F32_NEG_ONE);
    verts.push(F32_ONE);
    verts.push(F32_NEG_ONE);
    proof {
        assert(indices@ =~= spec_pixel_indices());
        assert(verts@ =~= spec_pixel_verts());
    }
    RenderPassConfig::new(
        v_shader,
        frag_shader,
        GL_TRIANGLES,
        6,
        GL_UNSIGNED_INT,
        0,
    ).set_index_buffer_data(indices).add_attribute_data(
        "vertPos".to_owned(),
        2,
        GL_FLOAT,
        false,
        8,
        0,
        0,
        verts,
    )
}

/// The rasterized pass's description: a single triangle, one
/// two-component `vertPos` attribute, and the `mvp` uniform served by
/// [`RasterUniformProvider`] under slot zero.
pub fn raster_pass_config(v_shader: String, f_shader: String) -> (r: RenderPassConfig<
    RasterUniformProvider,
>)
    ensures
        r.v_shader == v_shader,
        r.f_shader == f_shader,
        r.draw_mode == GL_TRIANGLES,
        r.draw_count == 3,
        r.draw_type == GL_UNSIGNED_INT,
        r.draw_offset == 0,
        r.index_buffer_data@ == seq![2u32, 1u32, 0u32],
        r.attributes@.len() == 1,
        r.attributes@[0].name@ == "vertPos"@,
        r.attributes@[0].size == 2,
        r.attributes@[0].size_type == GL_FLOAT,
        !r.attributes@[0].normalized,
        r.attributes@[0].stride == 8,
        r.attributes@[0].offset == 0,
        r.attributes@[0].divisor == 0,
        r.attributes@[0].data@ == seq![
            F32_NEG_ONE,
            F32_ONE,
            F32_ONE,
            F32_ONE,
            F32_ONE,
            F32_NEG_ONE,
        ],
        r.uniforms@.len() == 1,
        r.uniforms@[0].name@ == "mvp"@,
        r.uniforms@[0].slot == 0,
        r.textures_loaded@.len() == 0,
{
    let mut indices: Vec<u32> = Vec::new();
    indices.push(2);
    indices.push(1);
    indices.push(0);
    let mut verts: Vec<u32> = Vec::new();
    verts.push(F32_NEG_ONE);
    verts.push(F32_ONE);
    verts.push(F32_ONE);
    verts.push(F32_ONE);
    verts.push(F32_ONE);
    verts.push(F32_NEG_ONE);
    proof {
        assert(indices@ =~= seq![2u32, 1u32, 0u32]);
        assert(verts@ =~= seq![F32_NEG_ONE, F32_ONE, F32_ONE, F32_ONE, F32_ONE, F32_NEG_ONE]);
    }
    RenderPassConfig::new(
        v_shader,
        f_shader,
        GL_TRIANGLES,
        3,
        GL_UNSIGNED_INT,
        0,
    ).set_index_buffer_data(indices).add_attribute_data(
        "vertPos".to_owned(),
        2,
        GL_FLOAT,
        false,
        8,
        0,
        0,
        verts,
    ).add_uniform("mvp".to_owned(), RasterUniformProvider, 0)
}

/// The fractal ray-march pass's description: the full-screen quad with
/// the inverse-projection, inverse-view, view-projection and time
/// uniforms, all served by one [`FractalUniformProvider`] under slots
/// zero to three.
pub fn fractal_pass_config(v_shader: String, f_shader: String) -> (r: RenderPassConfig<
    FractalUniformProvider,
>)
    ensures
        r.v_shader == v_shader,
        r.f_shader == f_shader,
        r.draw_mode == GL_TRIANGLES,
        r.draw_count == 6,
        r.draw_type == GL_UNSIGNED_INT,
        r.draw_offset == 0,
        r.index_buffer_data@ == spec_pixel_indices(),
        r.attributes@.len() == 1,
        r.attributes@[0].data@ == spec_pixel_verts(),
        r.uniforms@.len() == 4,
        r.uniforms@[0].name@ == "invProjMat"@ && r.uniforms@[0].slot == 0,
        r.uniforms@[1].name@ == "invViewMat"@ && r.uniforms@[1].slot == 1,
        r.uniforms@[2].name@ == "viewProjMat"@ && r.uniforms@[2].slot == 2,
        r.uniforms@[3].name@ == "time"@ && r.uniforms@[3].slot == 3,
        r.textures_loaded@.len() == 0,
{
    setup_pixel_shader(v_shader, f_shader).add_uniform(
        "invProjMat".to_owned(),
        FractalUniformProvider,
        0,
    ).add_uniform("invViewMat".to_owned(), FractalUniformProvider, 1).add_uniform(
        "viewProjMat".to_owned(),
        FractalUniformProvider,
        2,
    ).add_uniform("time".to_owned(), FractalUniformProvider, 3)
}

/// The volumetric-cloud pass's description: the fractal pass's bindings
/// plus the rasterized color texture under the `colorTex` sampler.
pub fn cloud_pass_config(v_shader: String, f_shader: String, color_texture: u32) -> (r:
    RenderPassConfig<FractalUniformProvider>)
    ensures
        r.v_shader == v_shader,
        r.f_shader == f_shader,
        r.draw_mode == GL_TRIANGLES,
        r.draw_count == 6,
        r.draw_type == GL_UNSIGNED_INT,
        r.draw_offset == 0,
        r.index_buffer_data@ == spec_pixel_indices(),
        r.attributes@.len() == 1,
        r.attributes@[0].data@ == spec_pixel_verts(),
        r.uniforms@.len() == 4,
        r.uniforms@[0].name@ == "invProjMat"@ && r.uniforms@[0].slot == 0,
        r.uniforms@[1].name@ == "invViewMat"@ && r.uniforms@[1].slot == 1,
        r.uniforms@[2].name@ == "viewProjMat"@ && r.uniforms@[2].slot == 2,
        r.uniforms@[3].name@ == "time"@ && r.uniforms@[3].slot == 3,
        r.textures_loaded@.len() == 1,
        r.textures_loaded@[0].name@ == "colorTex"@,
        r.textures_loaded@[0].texture == color_texture,
{
    fractal_pass_config(v_shader, f_shader).add_texture(color_texture, "colorTex".to_owned())
}

} // verus!
