//! The texture resource kind: its registry state, its wiring into the
//! generic pipelines, and its entry points.

use vstd::prelude::*;

verus! {

use crate::active_object::ActiveObject;
use crate::context::bind_conflicts;
use crate::context::bind_target_object_name;
use crate::context::delete_objects;
use crate::context::generate_objects;
use crate::context::get_active_texture;
use crate::context::is_nullptr;
use crate::context::is_valid_object;
use crate::context::lemma_slots_wf_after_bind;
use crate::context::lemma_slots_wf_grow;
use crate::context::object_upload_data;
use crate::context::slot_mut;
use crate::context::texture_slot_index;
use crate::context::texture_target_to_index;
use crate::context::texture_unit_to_index;
use crate::context::validate_invalid_enum;
use crate::context::validate_invalid_value;
use crate::context::validate_target;
use crate::context::Bindable;
use crate::context::Context;
use crate::context::UploadHandler;
use crate::context::TEXTURE_UNIT_COUNT;
use crate::gl_sys::GLboolean;
use crate::gl_sys::GLenum;
use crate::gl_sys::GLint;
use crate::gl_sys::GLsizei;
use crate::gl_sys::GLuint;
use crate::gl_sys::GL_ALPHA;
use crate::gl_sys::GL_INVALID_ENUM;
use crate::gl_sys::GL_INVALID_OPERATION;
use crate::gl_sys::GL_INVALID_VALUE;
use crate::gl_sys::GL_LUMINANCE;
use crate::gl_sys::GL_LUMINANCE_ALPHA;
use crate::gl_sys::GL_RGB;
use crate::gl_sys::GL_RGBA;
use crate::gl_sys::GL_TEXTURE0;
use crate::gl_sys::GL_TEXTURE_2D;
use crate::gl_sys::GL_TEXTURE_CUBE_MAP;
use crate::gl_sys::GL_TEXTURE_MAG_FILTER;
use crate::gl_sys::GL_TEXTURE_MIN_FILTER;
use crate::gl_sys::GL_TEXTURE_WRAP_S;
use crate::gl_sys::GL_TEXTURE_WRAP_T;
use crate::gl_sys::GL_UNSIGNED_BYTE;
use crate::gl_sys::GL_UNSIGNED_SHORT_4_4_4_4;
use crate::gl_sys::GL_UNSIGNED_SHORT_5_5_5_1;
use crate::gl_sys::GL_UNSIGNED_SHORT_5_6_5;
use crate::hal_registry::hal_texture_create;
use crate::program::Program;
use crate::utilities::Error;
use crate::hal_registry::HalImage;
use crate::hal_registry::HalImageView;
use crate::hal_registry::HalMemory;
use crate::hal_registry::HalSampler;
use crate::object_pool::Resource;

/// The texture binding targets, in slot order.
#[derive(Clone, Copy, Debug, Hash, PartialEq, Eq, Structural)]
pub enum TextureType {
    TwoD,
    CubeMap,
    Total,
}

/// The currently selected texture unit.
#[derive(Clone, Copy, Debug, PartialEq, Eq, Structural)]
pub struct TextureUnit {
    pub raw: GLenum,
}

impl Default for TextureUnit {
    fn default() -> (unit: TextureUnit)
        ensures
            unit.raw == GL_TEXTURE0,
    {
        TextureUnit { raw: GL_TEXTURE0 }
    }
}

/// A texture object's registry state: configuration plus the optional
/// materialized backend storage. `GL_INVALID_VALUE` in an enum field means
/// "not yet set".
#[derive(Clone, Copy, Debug, PartialEq, Eq, Structural)]
pub struct Texture {
    pub format: GLenum,
    pub target: GLenum,
    pub type_: GLenum,
    pub internal_format: GLenum,
    pub mip_level_count: GLint,
    pub layers_count: GLint,
    pub explicit_type: GLenum,
    pub explicit_internal_format: GLenum,
    pub data_updated: bool,
    pub data_no_inversion: bool,
    pub memory: Option<HalMemory>,
    pub image: Option<HalImage>,
    pub image_view: Option<HalImageView>,
    pub sampler: Option<HalSampler>,
}

impl Texture {
    pub const DEFAULT_INTERNAL_ALIGNMENT: GLint = 1;

    pub const TEXTURE_2D_LAYERS: GLint = 1;

    pub const TEXTURE_CUBE_MAP_LAYERS: GLint = 6;

    /// Build a texture with the given configuration and no backend storage.
    pub fn new(
        format: GLenum,
        target: GLenum,
        type_: GLenum,
        internal_format: GLenum,
        explicit_type: GLenum,
        explicit_internal_format: GLenum,
        mip_level_count: GLint,
        layers_count: GLint,
        data_updated: bool,
        data_no_inversion: bool,
    ) -> (texture: Texture)
        ensures
            texture == (Texture {
                format,
                target,
                type_,
                internal_format,
                mip_level_count,
                layers_count,
                explicit_type,
                explicit_internal_format,
                data_updated,
                data_no_inversion,
                memory: None,
                image: None,
                image_view: None,
                sampler: None,
            }),
    {
        Texture {
            format,
            target,
            type_,
            internal_format,
            mip_level_count,
            layers_count,
            explicit_type,
            explicit_internal_format,
            data_updated,
            data_no_inversion,
            memory: None,
            image: None,
            image_view: None,
            sampler: None,
        }
    }

    /// The texture with its backend storage released.
    pub open spec fn released(self) -> Texture {
        (Texture { memory: None, image: None, image_view: None, sampler: None, ..self })
    }
}

impl Resource for Texture {
    open spec fn fresh_spec() -> Texture {
        (Texture {
            format: GL_INVALID_VALUE,
            target: GL_INVALID_VALUE,
            type_: GL_INVALID_VALUE,
            internal_format: GL_INVALID_VALUE,
            mip_level_count: 1,
            layers_count: 1,
            explicit_type: GL_INVALID_VALUE,
            explicit_internal_format: GL_INVALID_VALUE,
            data_updated: false,
            data_no_inversion: false,
            memory: None,
            image: None,
            image_view: None,
            sampler: None,
        })
    }

    fn fresh() -> (object: Texture) {
        Texture::new(
            GL_INVALID_VALUE,
            GL_INVALID_VALUE,
            GL_INVALID_VALUE,
            GL_INVALID_VALUE,
            GL_INVALID_VALUE,
            GL_INVALID_VALUE,
            1,
            1,
            false,
            false,
        )
    }

    open spec fn cleaned(self) -> Texture {
        self.released()
    }

    fn cleanup(&mut self) {
        self.memory = None;
        self.image = None;
        self.image_view = None;
        self.sampler = None;
    }
}

impl Bindable for Texture {
    /// A texture keeps the target it was first bound to: binding it to a
    /// different target later is a conflict.
    open spec fn conflicts_with(self, target: GLenum) -> bool {
        self.target != GL_INVALID_VALUE && self.target != target
    }

    open spec fn with_target(self, target: GLenum) -> Texture {
        (Texture { target, ..self })
    }

    fn record_target(&mut self, target: GLenum) -> (ok: bool) {
        if self.target != GL_INVALID_VALUE && self.target != target {
            false
        } else {
            self.target = target;
            true
        }
    }

    proof fn fresh_never_conflicts(target: GLenum) {
    }
}

impl Default for Texture {
    fn default() -> (object: Texture)
        ensures
            object == Texture::fresh_spec(),
    {
        Texture::fresh()
    }
}

/// Materialize backend storage for a texture.
fn texture_allocate(texture: &mut Texture) -> (ok: bool)
    ensures
        ok,
        *final(texture) == *old(texture),
{
    if !hal_texture_create() {
        return false;
    }
    true
}

/// Mipmap regeneration for the textures bound at `target`; mip bookkeeping
/// is still open, so there is nothing to do yet.
pub fn generate_mip_maps(target: GLenum) {
}

/// Whether `value` is a texture binding target.
pub open spec fn is_texture_target(value: GLenum) -> bool {
    value == GL_TEXTURE_2D || value == GL_TEXTURE_CUBE_MAP
}

/// The texture binding targets as a list, with membership pinned down.
fn texture_targets() -> (required: Vec<GLenum>)
    ensures
        forall|value: GLenum| required@.contains(value) == is_texture_target(value),
{
    let required = vec![GL_TEXTURE_2D, GL_TEXTURE_CUBE_MAP];
    proof {
        assert forall|value: GLenum| required@.contains(value) == is_texture_target(value) by {
            if is_texture_target(value) {
                if value == GL_TEXTURE_2D {
                    assert(required@[0] == value);
                } else {
                    assert(required@[1] == value);
                }
            }
        }
    }
    required
}

/// Target validation for textures: `GL_INVALID_ENUM` unless `value` is a
/// texture binding target.
pub fn validate_texture_target(value: GLenum, latch: &mut Error) -> (ok: bool)
    ensures
        ok == is_texture_target(value),
        ok ==> *final(latch) == *old(latch),
        !ok ==> *final(latch) == old(latch).recorded(GL_INVALID_ENUM),
{
    let required = texture_targets();
    validate_target(value, &required, latch)
}

/// Whether `format` is a texture pixel format.
pub open spec fn is_texture_format(format: GLenum) -> bool {
    format == GL_ALPHA || format == GL_RGB || format == GL_RGBA || format == GL_LUMINANCE
        || format == GL_LUMINANCE_ALPHA
}

/// Format validation for textures: `GL_INVALID_ENUM` unless `format` is a
/// texture pixel format.
pub fn validate_texture_format(format: GLenum, latch: &mut Error) -> (ok: bool)
    ensures
        ok == is_texture_format(format),
        ok ==> *final(latch) == *old(latch),
        !ok ==> *final(latch) == old(latch).recorded(GL_INVALID_ENUM),
{
    let required = vec![GL_ALPHA, GL_RGB, GL_RGBA, GL_LUMINANCE, GL_LUMINANCE_ALPHA];
    proof {
        assert forall|v: GLenum| required@.contains(v) == is_texture_format(v) by {
            if is_texture_format(v) {
                if v == GL_ALPHA {
                    assert(required@[0] == v);
                } else if v == GL_RGB {
                    assert(required@[1] == v);
                } else if v == GL_RGBA {
                    assert(required@[2] == v);
                } else if v == GL_LUMINANCE {
                    assert(required@[3] == v);
                } else {
                    assert(required@[4] == v);
                }
            }
        }
    }
    validate_invalid_enum(format, &required, latch)
}

/// Whether `value` is a texture texel type.
pub open spec fn is_texture_type(value: GLenum) -> bool {
    value == GL_UNSIGNED_BYTE || value == GL_UNSIGNED_SHORT_5_6_5 || value
        == GL_UNSIGNED_SHORT_4_4_4_4 || value == GL_UNSIGNED_SHORT_5_5_5_1
}

/// Texel-type validation for textures: `GL_INVALID_ENUM` unless `value` is
/// a texture texel type.
pub fn validate_texture_type(value: GLenum, latch: &mut Error) -> (ok: bool)
    ensures
        ok == is_texture_type(value),
        ok ==> *final(latch) == *old(latch),
        !ok ==> *final(latch) == old(latch).recorded(GL_INVALID_ENUM),
{
    let required = vec![
        GL_UNSIGNED_BYTE,
        GL_UNSIGNED_SHORT_5_6_5,
        GL_UNSIGNED_SHORT_4_4_4_4,
        GL_UNSIGNED_SHORT_5_5_5_1,
    ];
    proof {
        assert forall|v: GLenum| required@.contains(v) == is_texture_type(v) by {
            if is_texture_type(v) {
                if v == GL_UNSIGNED_BYTE {
                    assert(required@[0] == v);
                } else if v == GL_UNSIGNED_SHORT_5_6_5 {
                    assert(required@[1] == v);
                } else if v == GL_UNSIGNED_SHORT_4_4_4_4 {
                    assert(required@[2] == v);
                } else {
                    assert(required@[3] == v);
                }
            }
        }
    }
    validate_invalid_enum(value, &required, latch)
}

/// Internal-format validation: `GL_INVALID_VALUE` unless `internal_format`
/// is one of the `required_values`.
pub fn validate_pixel_internal_format(
    internal_format: GLenum,
    required_values: &Vec<GLenum>,
    latch: &mut Error,
) -> (ok: bool)
    ensures
        ok == required_values@.contains(internal_format),
        ok ==> *final(latch) == *old(latch),
        !ok ==> *final(latch) == old(latch).recorded(GL_INVALID_VALUE),
{
    let found = crate::context::find_value_in_slice(internal_format, required_values);
    validate_invalid_value(!found, latch)
}

/// Whether `pname` is a texture sampling parameter name.
pub open spec fn is_texture_parameter(pname: GLenum) -> bool {
    pname == GL_TEXTURE_WRAP_S || pname == GL_TEXTURE_WRAP_T || pname == GL_TEXTURE_MIN_FILTER
        || pname == GL_TEXTURE_MAG_FILTER
}

/// Whether `pname` is a texture sampling parameter name; no error is
/// recorded either way.
pub fn validate_texture_parameter(pname: GLenum) -> (ok: bool)
    ensures
        ok == is_texture_parameter(pname),
{
    if pname != GL_TEXTURE_WRAP_S && pname != GL_TEXTURE_WRAP_T && pname != GL_TEXTURE_MIN_FILTER
        && pname != GL_TEXTURE_MAG_FILTER {
        false
    } else {
        true
    }
}

/// Whether the parameter destination is absent.
pub fn validate_texture_parameter_ptr<T>(params: &Option<T>) -> (null: bool)
    ensures
        null == params.is_none(),
{
    is_nullptr(params)
}

/// Target-and-parameter validation shared by the parameter entry points:
/// the target must be a texture target (else `GL_INVALID_ENUM`) and the
/// parameter name must be a sampling parameter (no error recorded for it).
pub fn validate_texture_target_parameter(target: GLenum, pname: GLenum, latch: &mut Error) -> (ok:
    bool)
    ensures
        ok == (is_texture_target(target) && is_texture_parameter(pname)),
        !is_texture_target(target) ==> *final(latch) == old(latch).recorded(GL_INVALID_ENUM),
        is_texture_target(target) ==> *final(latch) == *old(latch),
{
    validate_texture_target(target, latch) && validate_texture_parameter(pname)
}

/// Whether (target, pname, destination) meet all the rules of a texture
/// parameter query; a bad target records `GL_INVALID_ENUM`.
pub fn validate_texture_parameters(
    target: GLenum,
    pname: GLenum,
    params_present: bool,
    latch: &mut Error,
) -> (ok: bool)
    ensures
        ok == (is_texture_target(target) && is_texture_parameter(pname) && params_present),
        !is_texture_target(target) ==> *final(latch) == old(latch).recorded(GL_INVALID_ENUM),
        is_texture_target(target) ==> *final(latch) == *old(latch),
{
    validate_texture_target_parameter(target, pname, latch) && params_present
}

/// Everything in the context but the texture kind's own state, the program
/// pool, and the error register is untouched.
pub open spec fn leaves_non_texture_state(pre: Context, post: Context) -> bool {
    &&& post.active_texture_unit == pre.active_texture_unit
    &&& post.buffer_pool == pre.buffer_pool
    &&& post.active_buffer@ == pre.active_buffer@
    &&& post.render_buffer_pool == pre.render_buffer_pool
    &&& post.active_render_buffer@ == pre.active_render_buffer@
    &&& post.frame_buffer_pool == pre.frame_buffer_pool
    &&& post.active_frame_buffer@ == pre.active_frame_buffer@
    &&& post.shader_pool == pre.shader_pool
    &&& post.active_program@ == pre.active_program@
    &&& post.rasterization_state == pre.rasterization_state
    &&& post.pixel_storage_state == pre.pixel_storage_state
    &&& post.viewport_state == pre.viewport_state
}

/// Bind `texture` to `target` on the selected texture unit.
///
/// An invalid target records `GL_INVALID_ENUM` and changes nothing. Handle
/// `0` clears the unit's slot for that target. A non-zero handle is bound
/// with lazy creation and the target recorded; rebinding to a different
/// target than the one first recorded raises `GL_INVALID_OPERATION` and
/// leaves every slot and every instance as it was. On a successful bind of
/// a non-default handle, the active program (if any) is marked for
/// descriptor-set renewal.
#[allow(non_snake_case)]
pub fn glBindTexture(ctx: &mut Context, target: GLenum, texture: GLuint)
    requires
        old(ctx).wf(),
    ensures
        final(ctx).wf(),
        leaves_non_texture_state(*old(ctx), *final(ctx)),
        !is_texture_target(target) ==> {
            &&& final(ctx).error == old(ctx).error.recorded(GL_INVALID_ENUM)
            &&& final(ctx).texture_pool == old(ctx).texture_pool
            &&& final(ctx).active_texture@ == old(ctx).active_texture@
            &&& final(ctx).program_pool == old(ctx).program_pool
        },
        is_texture_target(target) && texture != 0 && bind_conflicts(
            old(ctx).texture_pool,
            texture,
            target,
        ) ==> {
            &&& final(ctx).error == old(ctx).error.recorded(GL_INVALID_OPERATION)
            &&& final(ctx).texture_pool.contents() == old(ctx).texture_pool.contents()
            &&& final(ctx).texture_pool.counter() == old(ctx).texture_pool.counter()
            &&& final(ctx).active_texture@ == old(ctx).active_texture@
            &&& final(ctx).program_pool == old(ctx).program_pool
        },
        is_texture_target(target) && (texture == 0 || !bind_conflicts(
            old(ctx).texture_pool,
            texture,
            target,
        )) ==> {
            let slot_index = texture_slot_index(target, old(ctx).active_texture_unit.raw);
            let prior = if old(ctx).texture_pool.has(texture) {
                old(ctx).texture_pool.contents()[texture]
            } else {
                Texture::fresh_spec()
            };
            let program_slot = old(ctx).active_program@[0];
            &&& final(ctx).error == old(ctx).error
            &&& final(ctx).active_texture@ == old(ctx).active_texture@.update(
                slot_index,
                (ActiveObject { name: texture }),
            )
            &&& (texture == 0 ==> final(ctx).texture_pool == old(ctx).texture_pool)
            &&& (texture != 0 ==> final(ctx).texture_pool.contents() == old(
                ctx,
            ).texture_pool.contents().insert(texture, prior.with_target(target)))
            &&& (program_slot.name == 0 ==> final(ctx).program_pool == old(ctx).program_pool)
            &&& (program_slot.name != 0 ==> final(ctx).program_pool.contents() == old(
                ctx,
            ).program_pool.contents().insert(
                program_slot.name,
                (Program {
                    update_descriptor_sets: true,
                    ..old(ctx).program_pool.contents()[program_slot.name]
                }),
            ) && final(ctx).program_pool.counter() == old(ctx).program_pool.counter())
        },
{
    let required = texture_targets();
    let row = texture_target_to_index(target);
    let unit = texture_unit_to_index(ctx.active_texture_unit.raw);
    let i = row * TEXTURE_UNIT_COUNT + unit;
    let slot = slot_mut(&mut ctx.active_texture, i);
    let bound = bind_target_object_name(
        target,
        texture,
        &required,
        &mut ctx.texture_pool,
        slot,
        &mut ctx.error,
    );
    proof {
        if is_texture_target(target) && (texture == 0 || !bind_conflicts(
            old(ctx).texture_pool,
            texture,
            target,
        )) {
            lemma_slots_wf_after_bind(
                old(ctx).active_texture@,
                ctx.active_texture@,
                old(ctx).texture_pool,
                ctx.texture_pool,
                i as int,
                texture,
            );
        } else {
            assert(ctx.active_texture@ =~= old(ctx).active_texture@);
            lemma_slots_wf_grow(old(ctx).active_texture@, old(ctx).texture_pool, ctx.texture_pool);
        }
    }
    if bound {
        let program_slot = ctx.active_program[0];
        if program_slot.name != 0 {
            proof {
                assert(old(ctx).active_program@[0].name == 0 || old(ctx).program_pool.has(
                    old(ctx).active_program@[0].name,
                ));
                old(ctx).program_pool.lemma_wf_bounds(program_slot.name);
            }
            let ghost program_pool_before = ctx.program_pool;
            let program = ctx.program_pool.get_object_mut(program_slot.name);
            program.update_descriptor_sets = true;
            proof {
                lemma_slots_wf_grow(ctx.active_program@, program_pool_before, ctx.program_pool);
            }
        }
    }
}

/// Issue `n` fresh texture handles; see the generate pipeline for the
/// validation and the handle guarantees.
#[allow(non_snake_case)]
pub fn glGenTextures(ctx: &mut Context, n: GLsizei, textures_present: bool) -> (textures: Vec<
    GLuint,
>)
    requires
        old(ctx).wf(),
        n > 0 ==> old(ctx).texture_pool.counter() + n <= u32::MAX,
    ensures
        final(ctx).wf(),
        leaves_non_texture_state(*old(ctx), *final(ctx)),
        final(ctx).active_texture@ == old(ctx).active_texture@,
        final(ctx).program_pool == old(ctx).program_pool,
        final(ctx).texture_pool.contents() == old(ctx).texture_pool.contents(),
        !(n >= 0 && textures_present) ==> {
            &&& final(ctx).error == old(ctx).error.recorded(GL_INVALID_VALUE)
            &&& final(ctx).texture_pool == old(ctx).texture_pool
            &&& textures@.len() == 0
        },
        n >= 0 && textures_present ==> {
            &&& final(ctx).error == old(ctx).error
            &&& textures@.len() == n
            &&& final(ctx).texture_pool.counter() == old(ctx).texture_pool.counter() + n
            &&& forall|j: int|
                0 <= j < n ==> textures@[j] == old(ctx).texture_pool.counter() + j + 1
        },
{
    let textures = generate_objects(n, textures_present, &mut ctx.texture_pool, &mut ctx.error);
    proof {
        lemma_slots_wf_grow(old(ctx).active_texture@, old(ctx).texture_pool, ctx.texture_pool);
    }
    textures
}

/// Destroy the first `n` textures of the list; see the delete pipeline for
/// the validation, skipping, and slot-clearing guarantees.
#[allow(non_snake_case)]
pub fn glDeleteTextures(ctx: &mut Context, n: GLsizei, textures: Option<&Vec<GLuint>>)
    requires
        old(ctx).wf(),
        n >= 0 && textures.is_some() ==> n <= textures.unwrap()@.len(),
    ensures
        final(ctx).wf(),
        leaves_non_texture_state(*old(ctx), *final(ctx)),
        final(ctx).program_pool == old(ctx).program_pool,
        final(ctx).texture_pool.counter() == old(ctx).texture_pool.counter(),
        !(n >= 0 && textures.is_some()) ==> {
            &&& final(ctx).error == old(ctx).error.recorded(GL_INVALID_VALUE)
            &&& final(ctx).texture_pool == old(ctx).texture_pool
            &&& final(ctx).active_texture@ == old(ctx).active_texture@
        },
        n >= 0 && textures.is_some() ==> {
            let names = textures.unwrap()@.take(n as int);
            &&& final(ctx).error == old(ctx).error
            &&& forall|h: GLuint|
                #[trigger] final(ctx).texture_pool.has(h) == (old(ctx).texture_pool.has(h)
                    && !names.contains(h))
            &&& forall|h: GLuint|
                #[trigger] final(ctx).texture_pool.has(h) ==> final(ctx).texture_pool.contents()[h]
                    == old(ctx).texture_pool.contents()[h]
            &&& forall|j: int|
                0 <= j < old(ctx).active_texture@.len() ==> final(ctx).active_texture@[j] == (
                if old(ctx).texture_pool.has(old(ctx).active_texture@[j].name) && names.contains(
                    old(ctx).active_texture@[j].name,
                ) {
                    ActiveObject::unbound_spec()
                } else {
                    old(ctx).active_texture@[j]
                })
        },
{
    delete_objects(n, textures, &mut ctx.texture_pool, &mut ctx.active_texture, false, &mut ctx.error);
    proof {
        if n >= 0 && textures.is_some() {
            assert forall|j: int| 0 <= j < ctx.active_texture@.len() implies ((
            #[trigger] ctx.active_texture@[j]).name == 0 || ctx.texture_pool.has(
                ctx.active_texture@[j].name,
            )) by {
                let pre = old(ctx).active_texture@[j];
                assert(pre.name == 0 || old(ctx).texture_pool.has(pre.name));
                assert(ctx.texture_pool.has(pre.name) == (old(ctx).texture_pool.has(pre.name)
                    && !textures.unwrap()@.take(n as int).contains(pre.name)));
            }
        }
    }
}

/// Whether `texture` names a texture instance the pool holds.
#[allow(non_snake_case)]
pub fn glIsTexture(ctx: &Context, texture: GLuint) -> (valid: GLboolean)
    ensures
        (valid == crate::gl_sys::GL_TRUE) == (texture != 0 && ctx.texture_pool.has(texture)),
        valid == crate::gl_sys::GL_TRUE || valid == crate::gl_sys::GL_FALSE,
{
    is_valid_object(texture, &ctx.texture_pool)
}

/// The upload handler wiring `glTexImage2D` into the upload pipeline.
/// Format bookkeeping on the instance is still open, so the prepare and
/// finalize hooks carry nothing yet; the rules the parameters must meet
/// are the excluded validation table's concern.
pub struct TexImage2DHandler {}

impl UploadHandler<Texture> for TexImage2DHandler {
    open spec fn params_valid(self) -> bool {
        true
    }

    open spec fn invalid_params_error(self) -> GLenum {
        GL_INVALID_VALUE
    }

    fn check_params(&self, latch: &mut Error) -> (ok: bool) {
        true
    }

    open spec fn prepared(self, object: Texture) -> Texture {
        object
    }

    open spec fn proceeds(self, object: Texture) -> bool {
        true
    }

    fn prepare(&self, object: &mut Texture) -> (go: bool) {
        true
    }

    open spec fn can_materialize(self, object: Texture) -> bool {
        true
    }

    open spec fn materialized(self, object: Texture) -> Texture {
        object
    }

    fn materialize(&self, object: &mut Texture) -> (ok: bool) {
        texture_allocate(object)
    }

    open spec fn finalized(self) -> TexImage2DHandler {
        self
    }

    fn finalize(&mut self) {
    }
}

/// Write a two-dimensional image into the texture bound at `target` on the
/// selected unit.
///
/// An unbound slot records `GL_INVALID_OPERATION`; otherwise backend
/// storage is materialized for the bound instance. Format bookkeeping on
/// the instance is still open, so the registry state is otherwise
/// unchanged.
#[allow(non_snake_case)]
pub fn glTexImage2D(
    ctx: &mut Context,
    target: GLenum,
    level: GLint,
    internalformat: GLenum,
    width: GLsizei,
    height: GLsizei,
    border: GLint,
    format: GLenum,
    type_: GLenum,
    pixels: Option<&Vec<u8>>,
)
    requires
        old(ctx).wf(),
    ensures
        final(ctx).wf(),
        leaves_non_texture_state(*old(ctx), *final(ctx)),
        final(ctx).program_pool == old(ctx).program_pool,
        final(ctx).active_texture@ == old(ctx).active_texture@,
        final(ctx).texture_pool.contents() == old(ctx).texture_pool.contents(),
        final(ctx).texture_pool.counter() == old(ctx).texture_pool.counter(),
        ({
            let slot = old(ctx).active_texture@[texture_slot_index(
                target,
                old(ctx).active_texture_unit.raw,
            )];
            if slot.name == 0 {
                final(ctx).error == old(ctx).error.recorded(GL_INVALID_OPERATION)
            } else {
                final(ctx).error == old(ctx).error
            }
        }),
{
    let snapshot = get_active_texture(ctx, target);
    let mut handler = TexImage2DHandler {};
    proof {
        let i = texture_slot_index(target, old(ctx).active_texture_unit.raw);
        assert(old(ctx).active_texture@[i].name == 0 || old(ctx).texture_pool.has(
            old(ctx).active_texture@[i].name,
        ));
    }
    let outcome = object_upload_data(&mut handler, snapshot, &mut ctx.texture_pool, &mut ctx.error);
    proof {
        if snapshot.name != 0 {
            assert(old(ctx).texture_pool.contents().insert(
                snapshot.name,
                old(ctx).texture_pool.contents()[snapshot.name],
            ) =~= old(ctx).texture_pool.contents());
        }
        lemma_slots_wf_grow(old(ctx).active_texture@, old(ctx).texture_pool, ctx.texture_pool);
    }
}

/// Query a sampling parameter of the texture bound at `target`: only the
/// validation is tracked here; the value write-back is the calling layer's
/// concern.
#[allow(non_snake_case)]
pub fn glGetTexParameteriv(ctx: &mut Context, target: GLenum, pname: GLenum, params_present: bool)
    requires
        old(ctx).wf(),
    ensures
        final(ctx).wf(),
        leaves_non_texture_state(*old(ctx), *final(ctx)),
        final(ctx).texture_pool == old(ctx).texture_pool,
        final(ctx).active_texture@ == old(ctx).active_texture@,
        final(ctx).program_pool == old(ctx).program_pool,
        !is_texture_target(target) ==> final(ctx).error == old(ctx).error.recorded(
            GL_INVALID_ENUM,
        ),
        is_texture_target(target) ==> final(ctx).error == old(ctx).error,
{
    if !validate_texture_parameters(target, pname, params_present, &mut ctx.error) {
        return ;
    }
}

} // verus!
