//! The render-pass engine: a declarative pass configuration compiled once
//! against the linked program's reflection into an immutable pass, whose
//! draws are exact sequences of backend commands.
//!
//! The graphics backend itself is outside this library. Compilation takes
//! the backend's answers (the link outcome and the locations it resolved
//! for each declared name) as a value; a draw produces the command
//! sequence for the backend to perform, with binding and unbinding
//! symmetric around every draw call.

use vstd::prelude::*;
use crate::scalar::Scalar;
use crate::vec_lib::mat4::Mat4f;
use crate::webgl_utils::camera::FPSCamera;

verus! {

/// The backend's first texture unit (`TEXTURE0`); declared textures get
/// sequential units starting here.
pub const GL_TEXTURE0: u32 = 0x84C0;

/// The 2D texture binding target (`TEXTURE_2D`).
pub const GL_TEXTURE_2D: u32 = 0x0DE1;

/// One GPU uniform value, as a provider computes it.
#[derive(Clone, Copy, Debug, PartialEq)]
pub enum UniformValue {
    /// A 4x4 matrix, uploaded without transposition by the backend.
    Matrix4(Mat4f),
    /// A single scalar.
    Float(Scalar),
}

/// A capability that computes one uniform value per invocation from the
/// current camera state, the frame time, and a slot index. One provider
/// instance may serve several named uniforms of a pass, dispatching on
/// the slot.
pub trait UniformProvider: Sized {
    /// What the provider computes, as a function of camera, time and
    /// slot.
    spec fn spec_update(&self, camera: FPSCamera, time: Scalar, slot: u32) -> UniformValue;

    /// Computes the uniform value for `slot`.
    fn update(&self, camera: &FPSCamera, time: Scalar, slot: u32) -> (v: UniformValue)
        ensures
            v == self.spec_update(*camera, time, slot),
    ;
}

/// A declared vertex attribute: its shader name, component layout,
/// instance divisor, and the buffer contents as binary32 bit words.
#[derive(Clone, Debug)]
pub struct AttributeConfig {
    pub name: String,
    pub size: u32,
    pub size_type: u32,
    pub normalized: bool,
    pub stride: u32,
    pub offset: u32,
    pub divisor: u32,
    pub data: Vec<u32>,
}

/// A declared uniform binding: its shader name, the provider that
/// computes it, and the slot index handed to that provider.
#[derive(Clone, Debug)]
pub struct UniformConfig<P> {
    pub name: String,
    pub provider: P,
    pub slot: u32,
}

/// A declared texture binding: its sampler name and the backend texture
/// handle.
#[derive(Clone, Debug)]
pub struct TextureConfig {
    pub name: String,
    pub texture: u32,
}

/// A write-only pass description, accumulated in append order and
/// consumed exactly once by [`RenderPassConfig::configure`].
#[derive(Debug)]
pub struct RenderPassConfig<P> {
    pub v_shader: String,
    pub f_shader: String,
    pub draw_mode: u32,
    pub draw_count: i32,
    pub draw_type: u32,
    pub draw_offset: i32,
    pub attributes: Vec<AttributeConfig>,
    pub uniforms: Vec<UniformConfig<P>>,
    pub textures_loaded: Vec<TextureConfig>,
    pub index_buffer_data: Vec<u32>,
}

/// A kept attribute of a compiled pass, with its resolved location.
#[derive(Clone, Debug)]
pub struct AttributeInstance {
    pub name: String,
    pub location: u32,
    pub size: u32,
    pub size_type: u32,
    pub normalized: bool,
    pub stride: u32,
    pub offset: u32,
    pub divisor: u32,
    pub data: Vec<u32>,
}

/// A kept uniform binding of a compiled pass, with its resolved location.
#[derive(Clone, Debug)]
pub struct UniformInstance<P> {
    pub name: String,
    pub location: u32,
    pub provider: P,
    pub slot: u32,
}

/// A texture binding of a compiled pass, with its resolved location and
/// assigned texture unit.
#[derive(Clone, Debug)]
pub struct TextureInstance {
    pub name: String,
    pub texture: u32,
    pub location: u32,
    pub unit: u32,
}

/// The backend's answers for one linked program: for each declared
/// attribute its location (`-1` when the shader has no such input), and
/// for each declared uniform and texture name the location, if any, in
/// declaration order.
#[derive(Debug)]
pub struct ProgramInterface {
    pub attribute_locations: Vec<i32>,
    pub uniform_locations: Vec<Option<u32>>,
    pub texture_locations: Vec<Option<u32>>,
}

/// Why a pass failed to compile. A missing attribute or uniform name is
/// not an error (the binding is omitted); a shader failure or a missing
/// texture name is.
#[derive(Clone, Debug, PartialEq)]
pub enum RenderPassError {
    /// The backend reported a shader compile, link or validate failure,
    /// with its message.
    Shader(String),
    /// The named texture sampler was not found in the linked program.
    TextureNotFound(String),
}

/// The immutable compiled pass: the draw-call parameters, the kept
/// attributes with their buffer contents, the resolved uniform bindings,
/// the textures with their sequential units, and the index buffer
/// contents.
#[derive(Debug)]
pub struct RenderPass<P> {
    pub draw_mode: u32,
    pub draw_count: i32,
    pub draw_type: u32,
    pub draw_offset: i32,
    pub attributes: Vec<AttributeInstance>,
    pub uniforms: Vec<UniformInstance<P>>,
    pub textures: Vec<TextureInstance>,
    pub index_buffer_data: Vec<u32>,
}

/// One backend call of a draw. The program and vertex array of a pass
/// are implicit: `true` binds the pass's own object, `false` unbinds.
#[derive(Clone, Copy, Debug, PartialEq)]
pub enum GlCommand {
    UseProgram(bool),
    BindVertexArray(bool),
    SetUniformMatrix4 { location: u32, transpose: bool, value: Mat4f },
    SetUniformFloat { location: u32, value: Scalar },
    SetUniformInt { location: u32, value: i32 },
    ActiveTexture { unit: u32 },
    BindTexture2d { texture: u32 },
    DrawElements { mode: u32, count: i32, elem_type: u32, offset: i32 },
    DrawElementsInstanced { mode: u32, count: i32, elem_type: u32, offset: i32, instances: i32 },
}

/// The attributes the pass keeps: those whose location is not `-1`, in
/// declaration order, each carrying its resolved location.
pub open spec fn spec_kept_attributes(
    cfgs: Seq<AttributeConfig>,
    locs: Seq<i32>,
) -> Seq<AttributeInstance>
    decreases cfgs.len(),
{
    if cfgs.len() == 0 {
        Seq::empty()
    } else {
        let prefix = spec_kept_attributes(cfgs.drop_last(), locs.take(cfgs.len() - 1));
        let c = cfgs.last();
        let loc = locs[cfgs.len() - 1];
        if loc == -1 {
            prefix
        } else {
            prefix.push(
                AttributeInstance {
                    name: c.name,
                    location: loc as u32,
                    size: c.size,
                    size_type: c.size_type,
                    normalized: c.normalized,
                    stride: c.stride,
                    offset: c.offset,
                    divisor: c.divisor,
                    data: c.data,
                },
            )
        }
    }
}

/// The uniform bindings the pass keeps: those whose name resolved to a
/// location, in declaration order.
pub open spec fn spec_kept_uniforms<P>(
    cfgs: Seq<UniformConfig<P>>,
    locs: Seq<Option<u32>>,
) -> Seq<UniformInstance<P>>
    decreases cfgs.len(),
{
    if cfgs.len() == 0 {
        Seq::empty()
    } else {
        let prefix = spec_kept_uniforms(cfgs.drop_last(), locs.take(cfgs.len() - 1));
        let c = cfgs.last();
        match locs[cfgs.len() - 1] {
            Some(loc) => prefix.push(
                UniformInstance { name: c.name, location: loc, provider: c.provider, slot: c.slot },
            ),
            None => prefix,
        }
    }
}

/// The index of the first declared texture whose name did not resolve,
/// if any.
pub open spec fn spec_first_missing_texture(locs: Seq<Option<u32>>) -> Option<int>
    decreases locs.len(),
{
    if locs.len() == 0 {
        None
    } else if locs[0] is None {
        Some(0int)
    } else {
        match spec_first_missing_texture(locs.skip(1)) {
            Some(j) => Some(j + 1),
            None => None,
        }
    }
}

/// The texture instances of a compiled pass: texture `i` is bound to
/// unit `TEXTURE0 + i`, units assigned sequentially in declaration
/// order. Meaningful when every texture resolved.
pub open spec fn spec_texture_instances(
    cfgs: Seq<TextureConfig>,
    locs: Seq<Option<u32>>,
) -> Seq<TextureInstance> {
    Seq::new(
        cfgs.len(),
        |i: int|
            TextureInstance {
                name: cfgs[i].name,
                texture: cfgs[i].texture,
                location: locs[i]->0,
                unit: (GL_TEXTURE0 + i) as u32,
            },
    )
}

/// The backend command that writes one uniform value at a location.
pub open spec fn spec_uniform_command(location: u32, v: UniformValue) -> GlCommand {
    match v {
        UniformValue::Matrix4(m) => GlCommand::SetUniformMatrix4 {
            location,
            transpose: false,
            value: m,
        },
        UniformValue::Float(s) => GlCommand::SetUniformFloat { location, value: s },
    }
}

/// The uniform-write commands of a draw: one per kept binding, in
/// declaration order, each writing what its provider computes for the
/// given camera and time.
pub open spec fn spec_uniform_commands<P: UniformProvider>(
    uniforms: Seq<UniformInstance<P>>,
    camera: FPSCamera,
    time: Scalar,
) -> Seq<GlCommand> {
    Seq::new(
        uniforms.len(),
        |i: int|
            spec_uniform_command(
                uniforms[i].location,
                uniforms[i].provider.spec_update(camera, time, uniforms[i].slot),
            ),
    )
}

/// The texture-binding commands of a draw: for each texture, in order,
/// the sampler uniform is set to the unit value, the unit is activated,
/// and the texture is bound to it.
pub open spec fn spec_texture_commands(textures: Seq<TextureInstance>) -> Seq<GlCommand> {
    Seq::new(
        3 * textures.len(),
        |i: int|
            {
                let t = textures[i / 3];
                if i % 3 == 0 {
                    GlCommand::SetUniformInt { location: t.location, value: t.unit as i32 }
                } else if i % 3 == 1 {
                    GlCommand::ActiveTexture { unit: t.unit }
                } else {
                    GlCommand::BindTexture2d { texture: t.texture }
                }
            },
    )
}

impl<P: UniformProvider> RenderPass<P> {
    /// Everything a draw issues before its draw call: bind program and
    /// vertex array, write every uniform, bind every texture.
    pub open spec fn spec_draw_prefix(
        self,
        camera: FPSCamera,
        time: Scalar,
    ) -> Seq<GlCommand> {
        seq![GlCommand::UseProgram(true), GlCommand::BindVertexArray(true)]
            + spec_uniform_commands(self.uniforms@, camera, time)
            + spec_texture_commands(self.textures@)
    }

    /// The draw call itself: the plain indexed path for zero instances,
    /// the instanced path otherwise.
    pub open spec fn spec_draw_call(self, instances: i32) -> GlCommand {
        if instances == 0 {
            GlCommand::DrawElements {
                mode: self.draw_mode,
                count: self.draw_count,
                elem_type: self.draw_type,
                offset: self.draw_offset,
            }
        } else {
            GlCommand::DrawElementsInstanced {
                mode: self.draw_mode,
                count: self.draw_count,
                elem_type: self.draw_type,
                offset: self.draw_offset,
                instances,
            }
        }
    }

    /// Everything a draw issues after its draw call: unbind program and
    /// vertex array, symmetric to the prefix.
    pub open spec fn spec_draw_suffix(self) -> Seq<GlCommand> {
        seq![GlCommand::UseProgram(false), GlCommand::BindVertexArray(false)]
    }

    /// The full command sequence of one draw.
    pub open spec fn spec_draw_commands(
        self,
        camera: FPSCamera,
        time: Scalar,
        instances: i32,
    ) -> Seq<GlCommand> {
        self.spec_draw_prefix(camera, time) + seq![self.spec_draw_call(instances)]
            + self.spec_draw_suffix()
    }

    /// The command sequence of one plain (single-instance) draw: exactly
    /// the sequence of an instanced draw with zero instances.
    pub fn draw(&self, camera: &FPSCamera, time: Scalar) -> (cmds: Vec<GlCommand>)
        ensures
            cmds@ == self.spec_draw_commands(*camera, time, 0),
    {
        self.draw_instanced(camera, time, 0)
    }

    /// The command sequence of one draw with `instances` instances
    /// (zero selects the plain indexed path).
    pub fn draw_instanced(&self, camera: &FPSCamera, time: Scalar, instances: i32) -> (cmds:
        Vec<GlCommand>)
        ensures
            cmds@ == self.spec_draw_commands(*camera, time, instances),
    {
        let ghost gself = *self;
        let mut cmds: Vec<GlCommand> = Vec::new();
        cmds.push(GlCommand::UseProgram(true));
        cmds.push(GlCommand::BindVertexArray(true));

        let mut i: usize = 0;
        while i < self.uniforms.len()
            invariant
                i <= self.uniforms.len(),
                gself == *self,
                cmds@ == seq![GlCommand::UseProgram(true), GlCommand::BindVertexArray(true)]
                    + spec_uniform_commands(self.uniforms@.take(i as int), *camera, time),
            decreases self.uniforms.len() - i,
        {
            let u = &self.uniforms[i];
            let v = u.provider.update(camera, time, u.slot);
            let cmd = match v {
                UniformValue::Matrix4(m) => GlCommand::SetUniformMatrix4 {
                    location: u.location,
                    transpose: false,
                    value: m,
                },
                UniformValue::Float(s) => GlCommand::SetUniformFloat {
                    location: u.location,
                    value: s,
                },
            };
            cmds.push(cmd);
            proof {
                assert(spec_uniform_commands(self.uniforms@.take(i + 1 as int), *camera, time)
                    =~= spec_uniform_commands(self.uniforms@.take(i as int), *camera, time).push(
                    spec_uniform_command(
                        self.uniforms@[i as int].location,
                        self.uniforms@[i as int].provider.spec_update(
                            *camera,
                            time,
                            self.uniforms@[i as int].slot,
                        ),
                    ),
                ));
            }
            i = i + 1;
        }
        proof {
            assert(self.uniforms@.take(self.uniforms@.len() as int) =~= self.uniforms@);
        }

        let mut j: usize = 0;
        while j < self.textures.len()
            invariant
                j <= self.textures.len(),
                gself == *self,
                cmds@ == seq![GlCommand::UseProgram(true), GlCommand::BindVertexArray(true)]
                    + spec_uniform_commands(self.uniforms@, *camera, time)
                    + spec_texture_commands(self.textures@.take(j as int)),
            decreases self.textures.len() - j,
        {
            let t = &self.textures[j];
            #[verifier::truncate]
            let unit_val = t.unit as i32;
            cmds.push(GlCommand::SetUniformInt { location: t.location, value: unit_val });
            cmds.push(GlCommand::ActiveTexture { unit: t.unit });
            cmds.push(GlCommand::BindTexture2d { texture: t.texture });
            proof {
                assert(spec_texture_commands(self.textures@.take(j + 1 as int))
                    =~= spec_texture_commands(self.textures@.take(j as int)).push(
                    GlCommand::SetUniformInt {
                        location: self.textures@[j as int].location,
                        value: self.textures@[j as int].unit as i32,
                    },
                ).push(GlCommand::ActiveTexture { unit: self.textures@[j as int].unit }).push(
                    GlCommand::BindTexture2d { texture: self.textures@[j as int].texture },
                ));
            }
            j = j + 1;
        }
        proof {
            assert(self.textures@.take(self.textures@.len() as int) =~= self.textures@);
        }

        if instances == 0 {
            cmds.push(
                GlCommand::DrawElements {
                    mode: self.draw_mode,
                    count: self.draw_count,
                    elem_type: self.draw_type,
                    offset: self.draw_offset,
                },
            );
        } else {
            cmds.push(
                GlCommand::DrawElementsInstanced {
                    mode: self.draw_mode,
                    count: self.draw_count,
                    elem_type: self.draw_type,
                    offset: self.draw_offset,
                    instances,
                },
            );
        }

        cmds.push(GlCommand::UseProgram(false));
        cmds.push(GlCommand::BindVertexArray(false));
        proof {
            assert(cmds@ =~= self.spec_draw_commands(*camera, time, instances));
        }
        cmds
    }
}

impl<P: UniformProvider> RenderPassConfig<P> {
    /// Begins a pass description from the two shader sources and the
    /// draw-call parameters; the binding lists start empty.
    pub fn new(
        v_shader: String,
        f_shader: String,
        draw_mode: u32,
        draw_count: i32,
        draw_type: u32,
        draw_offset: i32,
    ) -> (r: Self)
        ensures
            r.v_shader == v_shader,
            r.f_shader == f_shader,
            r.draw_mode == draw_mode,
            r.draw_count == draw_count,
            r.draw_type == draw_type,
            r.draw_offset == draw_offset,
            r.attributes@ == Seq::<AttributeConfig>::empty(),
            r.uniforms@ == Seq::<UniformConfig<P>>::empty(),
            r.textures_loaded@ == Seq::<TextureConfig>::empty(),
            r.index_buffer_data@ == Seq::<u32>::empty(),
    {
        RenderPassConfig {
            v_shader,
            f_shader,
            draw_mode,
            draw_count,
            draw_type,
            draw_offset,
            attributes: Vec::new(),
            uniforms: Vec::new(),
            textures_loaded: Vec::new(),
            index_buffer_data: Vec::new(),
        }
    }

    /// Appends a vertex-attribute declaration with its buffer contents
    /// (binary32 bit words).
    pub fn add_attribute_data(
        self,
        name: String,
        size: u32,
        size_type: u32,
        normalized: bool,
        stride: u32,
        offset: u32,
        divisor: u32,
        data: Vec<u32>,
    ) -> (r: Self)
        ensures
            r == (RenderPassConfig { attributes: r.attributes, ..self }),
            r.attributes@ == self.attributes@.push(
                AttributeConfig { name, size, size_type, normalized, stride, offset, divisor, data },
            ),
    {
        let mut s = self;
        s.attributes.push(
            AttributeConfig { name, size, size_type, normalized, stride, offset, divisor, data },
        );
        s
    }

    /// Appends a uniform binding: the named shader uniform will be
    /// written by `provider` under `slot`.
    pub fn add_uniform(self, name: String, provider: P, slot: u32) -> (r: Self)
        ensures
            r == (RenderPassConfig { uniforms: r.uniforms, ..self }),
            r.uniforms@ == self.uniforms@.push(UniformConfig { name, provider, slot }),
    {
        let mut s = self;
        s.uniforms.push(UniformConfig { name, provider, slot });
        s
    }

    /// Appends a texture binding for the named sampler.
    pub fn add_texture(self, texture: u32, name: String) -> (r: Self)
        ensures
            r == (RenderPassConfig { textures_loaded: r.textures_loaded, ..self }),
            r.textures_loaded@ == self.textures_loaded@.push(TextureConfig { name, texture }),
    {
        let mut s = self;
        s.textures_loaded.push(TextureConfig { name, texture });
        s
    }

    /// Replaces the index buffer contents.
    pub fn set_index_buffer_data(self, data: Vec<u32>) -> (r: Self)
        ensures
            r == (RenderPassConfig { index_buffer_data: data, ..self }),
    {
        let mut s = self;
        s.index_buffer_data = data;
        s
    }

    /// Compiles the description against the backend's link outcome.
    ///
    /// A shader failure is returned as [`RenderPassError::Shader`]. An
    /// attribute location of `-1` or an unresolved uniform name only
    /// omits that binding. An unresolved texture name is an error, the
    /// first one in declaration order being reported. Otherwise the
    /// compiled pass keeps the resolved bindings in declaration order,
    /// with texture `i` assigned unit `TEXTURE0 + i`.
    #[verifier::loop_isolation(false)]
    pub fn configure(self, link: Result<ProgramInterface, String>) -> (r: Result<
        RenderPass<P>,
        RenderPassError,
    >)
        requires
            link matches Ok(pi) ==> {
                &&& pi.attribute_locations@.len() == self.attributes@.len()
                &&& pi.uniform_locations@.len() == self.uniforms@.len()
                &&& pi.texture_locations@.len() == self.textures_loaded@.len()
                &&& self.textures_loaded@.len() <= 0x1000
            },
        ensures
            link matches Err(e) ==> r == Err::<RenderPass<P>, RenderPassError>(
                RenderPassError::Shader(e),
            ),
            link matches Ok(pi) ==> match spec_first_missing_texture(pi.texture_locations@) {
                Some(j) => r == Err::<RenderPass<P>, RenderPassError>(
                    RenderPassError::TextureNotFound(self.textures_loaded@[j].name),
                ),
                None => r matches Ok(pass) && {
                    &&& pass.draw_mode == self.draw_mode
                    &&& pass.draw_count == self.draw_count
                    &&& pass.draw_type == self.draw_type
                    &&& pass.draw_offset == self.draw_offset
                    &&& pass.attributes@ == spec_kept_attributes(
                        self.attributes@,
                        pi.attribute_locations@,
                    )
                    &&& pass.uniforms@ == spec_kept_uniforms(self.uniforms@, pi.uniform_locations@)
                    &&& pass.textures@ == spec_texture_instances(
                        self.textures_loaded@,
                        pi.texture_locations@,
                    )
                    &&& pass.index_buffer_data@ == self.index_buffer_data@
                },
            },
    {
        let pi = match link {
            Ok(pi) => pi,
            Err(e) => {
                return Err(RenderPassError::Shader(e));
            },
        };
        let ghost attr_cfgs = self.attributes@;
        let ghost uni_cfgs = self.uniforms@;
        let ghost tex_cfgs = self.textures_loaded@;

        let mut attr_rest = self.attributes;
        let mut attributes: Vec<AttributeInstance> = Vec::new();
        let mut i: usize = 0;
        while i < pi.attribute_locations.len()
            invariant
                i + attr_rest@.len() == attr_cfgs.len(),
                attr_rest@ == attr_cfgs.skip(i as int),
                attributes@ == spec_kept_attributes(
                    attr_cfgs.take(i as int),
                    pi.attribute_locations@.take(i as int),
                ),
            decreases attr_rest@.len(),
        {
            let c = attr_rest.remove(0);
            let loc = pi.attribute_locations[i];
            if loc != -1 {
                attributes.push(
                    AttributeInstance {
                        name: c.name,
                        location: loc as u32,
                        size: c.size,
                        size_type: c.size_type,
                        normalized: c.normalized,
                        stride: c.stride,
                        offset: c.offset,
                        divisor: c.divisor,
                        data: c.data,
                    },
                );
            }
            proof {
                assert(attr_rest@ =~= attr_cfgs.skip(i + 1 as int));
                assert(attr_cfgs.take(i + 1 as int).drop_last() =~= attr_cfgs.take(i as int));
                assert(pi.attribute_locations@.take(i + 1 as int).take(i as int)
                    =~= pi.attribute_locations@.take(i as int));
            }
            i = i + 1;
        }
        proof {
            assert(attr_cfgs.take(attr_cfgs.len() as int) =~= attr_cfgs);
            assert(pi.attribute_locations@.take(attr_cfgs.len() as int)
                =~= pi.attribute_locations@);
        }

        let mut uni_rest = self.uniforms;
        let mut uniforms: Vec<UniformInstance<P>> = Vec::new();
        let mut k: usize = 0;
        while k < pi.uniform_locations.len()
            invariant
                k + uni_rest@.len() == uni_cfgs.len(),
                uni_rest@ == uni_cfgs.skip(k as int),
                uniforms@ == spec_kept_uniforms(
                    uni_cfgs.take(k as int),
                    pi.uniform_locations@.take(k as int),
                ),
            decreases uni_rest@.len(),
        {
            let c = uni_rest.remove(0);
            match pi.uniform_locations[k] {
                Some(loc) => {
                    uniforms.push(
                        UniformInstance {
                            name: c.name,
                            location: loc,
                            provider: c.provider,
                            slot: c.slot,
                        },
                    );
                },
                None => {},
            }
            proof {
                assert(uni_rest@ =~= uni_cfgs.skip(k + 1 as int));
                assert(uni_cfgs.take(k + 1 as int).drop_last() =~= uni_cfgs.take(k as int));
                assert(pi.uniform_locations@.take(k + 1 as int).take(k as int)
                    =~= pi.uniform_locations@.take(k as int));
            }
            k = k + 1;
        }
        proof {
            assert(uni_cfgs.take(uni_cfgs.len() as int) =~= uni_cfgs);
            assert(pi.uniform_locations@.take(uni_cfgs.len() as int) =~= pi.uniform_locations@);
        }

        let mut tex_rest = self.textures_loaded;
        let mut textures: Vec<TextureInstance> = Vec::new();
        let mut t: usize = 0;
        while t < pi.texture_locations.len()
            invariant
                t + tex_rest@.len() == tex_cfgs.len(),
                tex_rest@ == tex_cfgs.skip(t as int),
                spec_first_missing_texture(pi.texture_locations@.take(t as int)) is None,
                forall|m: int|
                    0 <= m < t ==> pi.texture_locations@[m] is Some,
                textures@ == spec_texture_instances(
                    tex_cfgs.take(t as int),
                    pi.texture_locations@.take(t as int),
                ),
            decreases tex_rest@.len(),
        {
            let c = tex_rest.remove(0);
            match pi.texture_locations[t] {
                Some(loc) => {
                    let unit: u32 = GL_TEXTURE0 + (t as u32);
                    textures.push(
                        TextureInstance { name: c.name, texture: c.texture, location: loc, unit },
                    );
                },
                None => {
                    proof {
                        lemma_first_missing_at(pi.texture_locations@, t as int);
                    }
                    return Err(RenderPassError::TextureNotFound(c.name));
                },
            }
            proof {
                assert(tex_rest@ =~= tex_cfgs.skip(t + 1 as int));
                lemma_first_missing_none_extend(pi.texture_locations@, t as int);
                assert(textures@ =~= spec_texture_instances(
                    tex_cfgs.take(t + 1 as int),
                    pi.texture_locations@.take(t + 1 as int),
                ));
            }
            t = t + 1;
        }
        proof {
            assert(tex_cfgs.take(tex_cfgs.len() as int) =~= tex_cfgs);
            assert(pi.texture_locations@.take(tex_cfgs.len() as int) =~= pi.texture_locations@);
        }

        Ok(
            RenderPass {
                draw_mode: self.draw_mode,
                draw_count: self.draw_count,
                draw_type: self.draw_type,
                draw_offset: self.draw_offset,
                attributes,
                uniforms,
                textures,
                index_buffer_data: self.index_buffer_data,
            },
        )
    }
}

/// If the first `t` locations are all resolved and location `t` is not,
/// then `t` is exactly the first missing index.
proof fn lemma_first_missing_at(locs: Seq<Option<u32>>, t: int)
    requires
        0 <= t < locs.len(),
        forall|m: int| 0 <= m < t ==> locs[m] is Some,
        locs[t] is None,
    ensures
        spec_first_missing_texture(locs) == Some(t),
    decreases t,
{
    if t == 0 {
    } else {
        lemma_first_missing_at(locs.skip(1), t - 1);
    }
}

/// If no location among the first `t` is missing and location `t` is
/// resolved, no location among the first `t + 1` is missing.
proof fn lemma_first_missing_none_extend(locs: Seq<Option<u32>>, t: int)
    requires
        0 <= t < locs.len(),
        spec_first_missing_texture(locs.take(t)) is None,
        locs[t] is Some,
    ensures
        spec_first_missing_texture(locs.take(t + 1)) is None,
    decreases t,
{
    if t == 0 {
        assert(locs.take(1)[0] == locs[0]);
        assert(locs.take(1).skip(1) =~= Seq::<Option<u32>>::empty());
    } else {
        assert(locs.take(t)[0] == locs[0]);
        assert(locs.take(t + 1)[0] == locs[0]);
        assert(locs[0] is Some) by {
            if locs[0] is None {
                assert(spec_first_missing_texture(locs.take(t)) == Some(0int));
            }
        }
        assert(locs.take(t).skip(1) =~= locs.skip(1).take(t - 1));
        assert(locs.take(t + 1).skip(1) =~= locs.skip(1).take(t));
        lemma_first_missing_none_extend(locs.skip(1), t - 1);
        assert(spec_first_missing_texture(locs.skip(1).take(t)) is None);
    }
}

/// A declared uniform whose name did not resolve leaves no trace in the
/// compiled pass: the kept bindings are exactly those of the
/// configuration with that entry removed. Together with the draw
/// contract, which writes one uniform per kept binding, a compiled
/// pass's draw never attempts to write an absent uniform.
pub proof fn lemma_absent_uniform_omitted<P>(
    cfgs: Seq<UniformConfig<P>>,
    locs: Seq<Option<u32>>,
    j: int,
)
    requires
        cfgs.len() == locs.len(),
        0 <= j < cfgs.len(),
        locs[j] is None,
    ensures
        spec_kept_uniforms(cfgs, locs) == spec_kept_uniforms(cfgs.remove(j), locs.remove(j)),
    decreases cfgs.len(),
{
    if j == cfgs.len() - 1 {
        assert(cfgs.remove(j) =~= cfgs.drop_last());
        assert(locs.remove(j) =~= locs.take(cfgs.len() - 1));
    } else {
        lemma_absent_uniform_omitted(cfgs.drop_last(), locs.take(cfgs.len() - 1), j);
        assert(cfgs.drop_last().remove(j) =~= cfgs.remove(j).drop_last());
        assert(locs.take(cfgs.len() - 1).remove(j) =~= locs.remove(j).take(cfgs.len() - 2));
        assert(cfgs.remove(j).last() == cfgs.last());
        assert(locs.remove(j)[cfgs.len() - 2] == locs[cfgs.len() - 1]);
    }
}

/// A declared uniform whose name did not resolve is never written: the
/// uniform-write commands of a draw are those of the configuration with
/// that entry removed, whatever the camera and time.
pub proof fn lemma_absent_uniform_never_written<P: UniformProvider>(
    cfgs: Seq<UniformConfig<P>>,
    locs: Seq<Option<u32>>,
    j: int,
    camera: FPSCamera,
    time: Scalar,
)
    requires
        cfgs.len() == locs.len(),
        0 <= j < cfgs.len(),
        locs[j] is None,
    ensures
        spec_uniform_commands(spec_kept_uniforms(cfgs, locs), camera, time)
            == spec_uniform_commands(
            spec_kept_uniforms(cfgs.remove(j), locs.remove(j)),
            camera,
            time,
        ),
{
    lemma_absent_uniform_omitted(cfgs, locs, j);
}

/// Two draws of one pass differ only in the draw call itself: the
/// prefix (binds, uniform writes, texture binds) and the suffix
/// (unbinds) are equal whatever the instance count, and the command
/// between them is the plain indexed draw exactly when the count is
/// zero, the instanced draw otherwise.
pub proof fn lemma_draw_varies_only_in_draw_call<P: UniformProvider>(
    pass: RenderPass<P>,
    camera: FPSCamera,
    time: Scalar,
    n1: i32,
    n2: i32,
)
    ensures
        pass.spec_draw_commands(camera, time, n1).len() == pass.spec_draw_commands(
            camera,
            time,
            n2,
        ).len(),
        forall|i: int|
            0 <= i < pass.spec_draw_commands(camera, time, n1).len() && i != pass.spec_draw_prefix(
                camera,
                time,
            ).len() ==> pass.spec_draw_commands(camera, time, n1)[i] == pass.spec_draw_commands(
                camera,
                time,
                n2,
            )[i],
        pass.spec_draw_commands(camera, time, n1)[pass.spec_draw_prefix(camera, time).len() as int]
            == pass.spec_draw_call(n1),
{
}

} // verus!
