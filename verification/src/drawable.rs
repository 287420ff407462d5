// Drawables: the objects of a scene, and the draw call each one issues.

use crate::scalar::{ONE, ZERO};
use crate::vector::{Mat4, Vec3};
use vstd::prelude::*;

verus! {

/// The variants of a drawable. The variant fixes the vertex data and the
/// shader pair that the renderer uses for it.
#[derive(Clone, Copy, Debug, PartialEq, Eq, Structural)]
pub enum Kind {
    /// A box, drawn from a small built-in strip of vertices.
    Cuboid,
    /// The teapot mesh, drawn from indexed vertex and normal data.
    Teapot,
}

/// How the vertices of a draw call are assembled into triangles.
#[derive(Clone, Copy, Debug, PartialEq, Eq, Structural)]
pub enum Topology {
    /// Every vertex after the second closes a triangle; no index buffer.
    TriangleStrip,
    /// Every three indices name a triangle.
    TrianglesList,
}

impl Kind {
    pub open spec fn spec_topology(&self) -> Topology {
        match self {
            Kind::Cuboid => Topology::TriangleStrip,
            Kind::Teapot => Topology::TrianglesList,
        }
    }

    pub fn topology(&self) -> (topology: Topology)
        ensures
            topology == self.spec_topology(),
    {
        match self {
            Kind::Cuboid => Topology::TriangleStrip,
            Kind::Teapot => Topology::TrianglesList,
        }
    }
}

/// Where a drawable stands, how it is turned and how large it is.
#[derive(Clone, Copy, Debug, PartialEq, Eq, Structural)]
pub struct Transform {
    pub position: Vec3,
    pub rotation: Vec3,
    pub scale: Vec3,
}

impl Transform {
    /// At the origin, not turned, of size one.
    pub open spec fn spec_default() -> Transform {
        Transform {
            position: Vec3 { x: ZERO, y: ZERO, z: ZERO },
            rotation: Vec3 { x: ZERO, y: ZERO, z: ZERO },
            scale: Vec3 { x: ONE, y: ONE, z: ONE },
        }
    }

    pub fn new(position: Vec3, rotation: Vec3) -> (transform: Transform)
        ensures
            transform == (Transform { position, rotation, ..Transform::spec_default() }),
    {
        Transform { position, rotation, scale: Vec3::splat(ONE) }
    }

    /// The model matrix: the scale on the diagonal, the position as the
    /// translation. The rotation takes no part in it.
    pub open spec fn spec_model_matrix(&self) -> Mat4 {
        Mat4::spec_scale_translation(self.scale, self.position)
    }

    pub fn model_matrix(&self) -> (model: Mat4)
        ensures
            model == self.spec_model_matrix(),
    {
        Mat4::scale_translation(self.scale, self.position)
    }
}

impl Default for Transform {
    fn default() -> (transform: Transform)
        ensures
            transform == Transform::spec_default(),
    {
        Transform { position: Vec3::splat(ZERO), rotation: Vec3::splat(ZERO), scale: Vec3::splat(ONE) }
    }
}

/// The rasterizer state that all draw calls of a frame share.
#[derive(Clone, Copy, Debug, PartialEq, Eq, Structural)]
pub struct RasterState {
    /// A fragment is kept only where it is nearer than what was drawn before.
    pub depth_test: bool,
    /// A fragment that is kept writes its depth.
    pub depth_write: bool,
}

impl RasterState {
    /// Depth test and depth write both on.
    pub fn new() -> (state: RasterState)
        ensures
            state == (RasterState { depth_test: true, depth_write: true }),
    {
        RasterState { depth_test: true, depth_write: true }
    }
}

/// One draw submission, with everything the backend needs for it.
#[derive(Clone, Copy, Debug)]
pub struct DrawCall {
    /// The drawable that issued the call.
    pub id: usize,
    pub kind: Kind,
    pub topology: Topology,
    /// The handle of the compiled program, or `None` where the backend has to
    /// compile the variant's shader pair before it can submit this call.
    pub program: Option<u32>,
    /// The uniform `model`.
    pub model: Mat4,
    /// The uniform `view`.
    pub view: Mat4,
    /// The uniform `perspective`.
    pub perspective: Mat4,
    /// The uniform `light`.
    pub light: Vec3,
    pub state: RasterState,
}

/// What a drawable holds.
pub struct DrawableView {
    pub id: usize,
    pub kind: Kind,
    pub name: Seq<char>,
    pub transform: Transform,
    pub program: Option<u32>,
}

impl DrawableView {
    pub open spec fn with_id(&self, id: usize) -> DrawableView {
        DrawableView { id, ..*self }
    }

    pub open spec fn with_transform(&self, transform: Transform) -> DrawableView {
        DrawableView { transform, ..*self }
    }

    pub open spec fn with_position(&self, position: Vec3) -> DrawableView {
        DrawableView { transform: Transform { position, ..self.transform }, ..*self }
    }

    pub open spec fn with_rotation(&self, rotation: Vec3) -> DrawableView {
        DrawableView { transform: Transform { rotation, ..self.transform }, ..*self }
    }

    pub open spec fn with_scale(&self, scale: Vec3) -> DrawableView {
        DrawableView { transform: Transform { scale, ..self.transform }, ..*self }
    }

    /// The drawable after the backend compiled a program for it: the handle
    /// is cached unless one was cached before.
    pub open spec fn with_program(&self, program: u32) -> DrawableView {
        if self.program is None {
            DrawableView { program: Some(program), ..*self }
        } else {
            *self
        }
    }

    /// The draw call of a drawable under the given camera matrices, light
    /// and shared state.
    pub open spec fn draw(
        &self,
        view: Mat4,
        perspective: Mat4,
        light: Vec3,
        state: RasterState,
    ) -> DrawCall {
        DrawCall {
            id: self.id,
            kind: self.kind,
            topology: self.kind.spec_topology(),
            program: self.program,
            model: self.transform.spec_model_matrix(),
            view,
            perspective,
            light,
            state,
        }
    }
}

/// An object that reports its identity and transform and issues its own
/// draw call.
pub struct Drawable {
    id: usize,
    kind: Kind,
    name: String,
    transform: Transform,
    program: Option<u32>,
}

impl View for Drawable {
    type V = DrawableView;

    closed spec fn view(&self) -> DrawableView {
        DrawableView {
            id: self.id,
            kind: self.kind,
            name: self.name@,
            transform: self.transform,
            program: self.program,
        }
    }
}

impl Drawable {
    /// A drawable that belongs to no scene yet: the default transform, no
    /// compiled program, and the id 0 until a scene gives it one.
    pub fn new(kind: Kind, name: &str) -> (drawable: Drawable)
        ensures
            drawable@ == (DrawableView {
                id: 0,
                kind,
                name: name@,
                transform: Transform::spec_default(),
                program: None,
            }),
    {
        Drawable {
            id: 0,
            kind,
            name: name.to_owned(),
            transform: Transform::default(),
            program: None,
        }
    }

    pub fn cuboid(name: &str) -> (drawable: Drawable)
        ensures
            drawable@ == (DrawableView {
                id: 0,
                kind: Kind::Cuboid,
                name: name@,
                transform: Transform::spec_default(),
                program: None,
            }),
    {
        Drawable::new(Kind::Cuboid, name)
    }

    pub fn teapot(name: &str) -> (drawable: Drawable)
        ensures
            drawable@ == (DrawableView {
                id: 0,
                kind: Kind::Teapot,
                name: name@,
                transform: Transform::spec_default(),
                program: None,
            }),
    {
        Drawable::new(Kind::Teapot, name)
    }

    /// The same drawable under another id.
    pub(crate) fn with_id(self, id: usize) -> (drawable: Drawable)
        ensures
            drawable@ == self@.with_id(id),
    {
        Drawable {
            id,
            kind: self.kind,
            name: self.name,
            transform: self.transform,
            program: self.program,
        }
    }

    pub fn get_id(&self) -> (id: usize)
        ensures
            id == self@.id,
    {
        self.id
    }

    pub fn get_kind(&self) -> (kind: Kind)
        ensures
            kind == self@.kind,
    {
        self.kind
    }

    pub fn get_name(&self) -> (name: &str)
        ensures
            name@ == self@.name,
    {
        self.name.as_str()
    }

    pub fn get_transform(&self) -> (transform: Transform)
        ensures
            transform == self@.transform,
    {
        self.transform
    }

    pub fn get_position(&self) -> (position: Vec3)
        ensures
            position == self@.transform.position,
    {
        self.transform.position
    }

    pub fn get_rotation(&self) -> (rotation: Vec3)
        ensures
            rotation == self@.transform.rotation,
    {
        self.transform.rotation
    }

    pub fn get_scale(&self) -> (scale: Vec3)
        ensures
            scale == self@.transform.scale,
    {
        self.transform.scale
    }

    pub fn get_program(&self) -> (program: Option<u32>)
        ensures
            program == self@.program,
    {
        self.program
    }

    pub fn set_transform(&mut self, transform: Transform)
        ensures
            final(self)@ == old(self)@.with_transform(transform),
    {
        self.transform = transform;
    }

    pub fn set_position(&mut self, position: Vec3)
        ensures
            final(self)@ == old(self)@.with_position(position),
    {
        self.transform.position = position;
    }

    pub fn set_rotation(&mut self, rotation: Vec3)
        ensures
            final(self)@ == old(self)@.with_rotation(rotation),
    {
        self.transform.rotation = rotation;
    }

    pub fn set_scale(&mut self, scale: Vec3)
        ensures
            final(self)@ == old(self)@.with_scale(scale),
    {
        self.transform.scale = scale;
    }

    /// Whether the backend still has to compile a program for this drawable.
    pub fn needs_program(&self) -> (needed: bool)
        ensures
            needed == (self@.program is None),
    {
        self.program.is_none()
    }

    /// Caches the handle of the program that the backend compiled for this
    /// drawable. A drawable caches at most one handle in its life: where it
    /// has one already, the call changes nothing and returns `false`.
    pub fn attach_program(&mut self, program: u32) -> (attached: bool)
        ensures
            attached == (old(self)@.program is None),
            final(self)@ == old(self)@.with_program(program),
    {
        if self.program.is_none() {
            self.program = Some(program);
            true
        } else {
            false
        }
    }

    /// The draw call of this drawable for a frame with the given camera
    /// matrices, light direction and shared rasterizer state.
    pub fn draw(&self, view: Mat4, perspective: Mat4, light: Vec3, state: RasterState) -> (call:
        DrawCall)
        ensures
            call == self@.draw(view, perspective, light, state),
    {
        DrawCall {
            id: self.id,
            kind: self.kind,
            topology: self.kind.topology(),
            program: self.program,
            model: self.transform.model_matrix(),
            view,
            perspective,
            light,
            state,
        }
    }
}

/// The programs that were compiled so far, one for each variant at most, so
/// that drawables of one variant can share a program.
#[derive(Clone, Copy, Debug, PartialEq, Eq, Structural)]
pub struct ProgramCache {
    pub cuboid: Option<u32>,
    pub teapot: Option<u32>,
}

impl ProgramCache {
    /// The handle of the program of `kind`, if one was compiled.
    pub open spec fn spec_get(&self, kind: Kind) -> Option<u32> {
        match kind {
            Kind::Cuboid => self.cuboid,
            Kind::Teapot => self.teapot,
        }
    }

    /// The cache after `program` was offered for `kind`: the first offer for
    /// a variant is kept, later ones are not.
    pub open spec fn spec_offer(&self, kind: Kind, program: u32) -> ProgramCache {
        if self.spec_get(kind) is Some {
            *self
        } else {
            match kind {
                Kind::Cuboid => ProgramCache { cuboid: Some(program), ..*self },
                Kind::Teapot => ProgramCache { teapot: Some(program), ..*self },
            }
        }
    }

    /// A cache with no program in it.
    pub fn new() -> (cache: ProgramCache)
        ensures
            cache == (ProgramCache { cuboid: None, teapot: None }),
    {
        ProgramCache { cuboid: None, teapot: None }
    }

    pub fn get(&self, kind: Kind) -> (program: Option<u32>)
        ensures
            program == self.spec_get(kind),
    {
        match kind {
            Kind::Cuboid => self.cuboid,
            Kind::Teapot => self.teapot,
        }
    }

    /// Offers `program` as the program of `kind` and returns the handle
    /// that the variant has from now on: the one that was cached before, or
    /// else `program`.
    pub fn offer(&mut self, kind: Kind, program: u32) -> (kept: u32)
        ensures
            *final(self) == old(self).spec_offer(kind, program),
            final(self).spec_get(kind) == Some(kept),
            kept == (match old(self).spec_get(kind) {
                Some(cached) => cached,
                None => program,
            }),
    {
        match self.get(kind) {
            Some(cached) => cached,
            None => {
                match kind {
                    Kind::Cuboid => {
                        self.cuboid = Some(program);
                    },
                    Kind::Teapot => {
                        self.teapot = Some(program);
                    },
                }
                program
            },
        }
    }
}

/// A drawable goes from uncompiled to compiled once: after a first handle
/// was offered it has a program, and a second offer changes nothing.
pub proof fn lemma_program_is_cached_once(drawable: DrawableView, first: u32, second: u32)
    ensures
        drawable.with_program(first).program is Some,
        drawable.program is None ==> drawable.with_program(first).program == Some(first),
        drawable.with_program(first).with_program(second) == drawable.with_program(first),
{
}

/// The draw call of a drawable does not depend on its rotation.
pub proof fn lemma_rotation_is_not_drawn(
    drawable: DrawableView,
    rotation: Vec3,
    view: Mat4,
    perspective: Mat4,
    light: Vec3,
    state: RasterState,
)
    ensures
        drawable.with_rotation(rotation).draw(view, perspective, light, state) == drawable.draw(
            view,
            perspective,
            light,
            state,
        ),
{
}

} // verus!
