// The scene: an ordered collection of drawables under one light, and the
// plan of the frame that draws them.

use crate::drawable::{DrawCall, Drawable, DrawableView, RasterState, Transform};
use crate::scalar::ONE;
use crate::vector::{Mat4, Vec3};
use vstd::prelude::*;

verus! {

/// -1.0
pub const DEFAULT_LIGHT_X: u32 = 0xBF80_0000;

/// 0.4
pub const DEFAULT_LIGHT_Y: u32 = 0x3ECC_CCCD;

/// 0.9
pub const DEFAULT_LIGHT_Z: u32 = 0x3F66_6666;

/// The direction of the light in a scene that was given no other.
pub open spec fn spec_default_light() -> Vec3 {
    Vec3 { x: DEFAULT_LIGHT_X, y: DEFAULT_LIGHT_Y, z: DEFAULT_LIGHT_Z }
}

/// The colour a frame is cleared to: three channels on the scale 0..255 and
/// an alpha scalar.
#[derive(Clone, Copy, Debug, PartialEq, Eq, Structural)]
pub struct Ambient {
    pub red: i64,
    pub green: i64,
    pub blue: i64,
    pub alpha: u32,
}

impl Ambient {
    /// A dark blue-grey, opaque.
    pub open spec fn spec_default() -> Ambient {
        Ambient { red: 22, green: 22, blue: 29, alpha: ONE }
    }

    /// Black, opaque.
    pub open spec fn spec_black() -> Ambient {
        Ambient { red: 0, green: 0, blue: 0, alpha: ONE }
    }

    pub fn black() -> (ambient: Ambient)
        ensures
            ambient == Ambient::spec_black(),
    {
        Ambient { red: 0, green: 0, blue: 0, alpha: ONE }
    }

    /// The three colour channels.
    pub fn get_color(&self) -> (color: (i64, i64, i64))
        ensures
            color == (self.red, self.green, self.blue),
    {
        (self.red, self.green, self.blue)
    }

    /// Replaces the three colour channels and keeps the alpha.
    pub fn set_color(&mut self, color: (i64, i64, i64))
        ensures
            *final(self) == (Ambient {
                red: color.0,
                green: color.1,
                blue: color.2,
                alpha: old(self).alpha,
            }),
    {
        self.red = color.0;
        self.green = color.1;
        self.blue = color.2;
    }
}

impl Default for Ambient {
    fn default() -> (ambient: Ambient)
        ensures
            ambient == Ambient::spec_default(),
    {
        Ambient { red: 22, green: 22, blue: 29, alpha: ONE }
    }
}

/// Why a request to a scene failed.
#[derive(Clone, Copy, Debug, PartialEq, Eq, Structural)]
pub enum SceneError {
    /// The scene holds no drawable with the id that was asked for.
    ResourceNotFound,
}

impl SceneError {
    pub fn message(&self) -> (text: String)
        ensures
            text@ == "Object not found"@,
    {
        "Object not found".to_owned()
    }
}

/// What the backend does for one frame: clear, then submit the draw calls in
/// the order given.
pub struct FramePlan {
    pub clear_color: Ambient,
    /// The depth the frame is cleared to, or `None` where only the colour is
    /// cleared.
    pub clear_depth: Option<u32>,
    pub draws: Vec<DrawCall>,
}

/// What a scene holds.
pub struct SceneView {
    pub name: Seq<char>,
    pub global_light: Vec3,
    pub ambient: Ambient,
    /// The drawables in insertion order, which is draw order.
    pub objects: Seq<DrawableView>,
}

impl SceneView {
    /// Every drawable has its place in the sequence as its id.
    pub open spec fn ids_in_order(&self) -> bool {
        forall|i: int| 0 <= i < self.objects.len() ==> (#[trigger] self.objects[i]).id == i
    }

    /// The scene after `drawable` was added: it stands last, and its id is
    /// the number of drawables that were there before.
    pub open spec fn with_added(&self, drawable: DrawableView) -> SceneView {
        SceneView {
            objects: self.objects.push(drawable.with_id(self.objects.len() as usize)),
            ..*self
        }
    }

    /// The scene after the drawables of `added` were added one by one, the
    /// first of them first.
    pub open spec fn with_all_added(&self, added: Seq<DrawableView>) -> SceneView
        decreases added.len(),
    {
        if added.len() == 0 {
            *self
        } else {
            self.with_all_added(added.drop_last()).with_added(added.last())
        }
    }

    /// The scene with `drawable` in the place `index`.
    pub open spec fn with_object(&self, index: int, drawable: DrawableView) -> SceneView {
        SceneView { objects: self.objects.update(index, drawable), ..*self }
    }

    /// The id of a drawable that has no compiled program, `None` of one
    /// that has.
    pub open spec fn wants_program() -> spec_fn(DrawableView) -> Option<usize> {
        |d: DrawableView|
            if d.program is None {
                Some(d.id)
            } else {
                None
            }
    }

    /// The ids of the drawables that have no compiled program, in insertion
    /// order.
    pub open spec fn pending(&self) -> Seq<usize> {
        self.objects.filter_map(SceneView::wants_program())
    }

    /// The draw calls of one frame: one for each drawable, in insertion
    /// order, all under the same pair of camera matrices.
    pub open spec fn draws(&self, view: Mat4, perspective: Mat4, state: RasterState) -> Seq<
        DrawCall,
    > {
        Seq::new(
            self.objects.len(),
            |i: int| self.objects[i].draw(view, perspective, self.global_light, state),
        )
    }
}

pub struct Scene {
    name: String,
    global_light: Vec3,
    ambient: Ambient,
    objects: Vec<Drawable>,
}

impl View for Scene {
    type V = SceneView;

    closed spec fn view(&self) -> SceneView {
        SceneView {
            name: self.name@,
            global_light: self.global_light,
            ambient: self.ambient,
            objects: Seq::new(self.objects@.len(), |i: int| self.objects@[i]@),
        }
    }
}

impl Scene {
    /// The ids of the scene's drawables are their places in it: 0, 1, 2, ...
    pub open spec fn wf(&self) -> bool {
        self@.ids_in_order()
    }

    /// An empty scene under the default light and ambient colour.
    pub fn new(name: &str) -> (scene: Scene)
        ensures
            scene.wf(),
            scene@ == (SceneView {
                name: name@,
                global_light: spec_default_light(),
                ambient: Ambient::spec_default(),
                objects: Seq::empty(),
            }),
    {
        let scene = Scene {
            name: name.to_owned(),
            global_light: Vec3::new(DEFAULT_LIGHT_X, DEFAULT_LIGHT_Y, DEFAULT_LIGHT_Z),
            ambient: Ambient::default(),
            objects: Vec::new(),
        };
        assert(scene@.objects =~= Seq::empty());
        scene
    }

    pub fn get_name(&self) -> (name: &str)
        ensures
            name@ == self@.name,
    {
        self.name.as_str()
    }

    pub fn get_global_light(&self) -> (light: Vec3)
        ensures
            light == self@.global_light,
    {
        self.global_light
    }

    pub fn get_ambient(&self) -> (ambient: Ambient)
        ensures
            ambient == self@.ambient,
    {
        self.ambient
    }

    /// The number of drawables in the scene.
    pub fn len(&self) -> (len: usize)
        ensures
            len == self@.objects.len(),
    {
        self.objects.len()
    }

    pub fn set_global_light(&mut self, light: Vec3)
        ensures
            final(self)@ == (SceneView { global_light: light, ..old(self)@ }),
    {
        self.global_light = light;
    }

    pub fn set_ambient(&mut self, ambient: Ambient)
        ensures
            final(self)@ == (SceneView { ambient, ..old(self)@ }),
    {
        self.ambient = ambient;
    }

    /// Appends `drawable` to the scene and gives it the number of drawables
    /// that were there before as its id.
    pub fn add_object(&mut self, drawable: Drawable) -> (id: usize)
        requires
            old(self).wf(),
        ensures
            final(self).wf(),
            id == old(self)@.objects.len(),
            final(self)@ == old(self)@.with_added(drawable@),
    {
        let id = self.objects.len();
        self.objects.push(drawable.with_id(id));
        assert(self@.objects =~= old(self)@.objects.push(drawable@.with_id(id)));
        id
    }

    /// The drawable with the given id, or `ResourceNotFound` where the scene
    /// has none.
    pub fn get_object(&self, id: usize) -> (found: Result<&Drawable, SceneError>)
        requires
            self.wf(),
        ensures
            match found {
                Ok(drawable) => id < self@.objects.len() && drawable@ == self@.objects[id as int]
                    && drawable@.id == id,
                Err(error) => id >= self@.objects.len() && error == SceneError::ResourceNotFound,
            },
    {
        if id < self.objects.len() {
            Ok(&self.objects[id])
        } else {
            Err(SceneError::ResourceNotFound)
        }
    }

    /// The drawables in insertion order.
    pub fn get_objects(&self) -> (objects: &Vec<Drawable>)
        ensures
            objects@.len() == self@.objects.len(),
            forall|i: int| 0 <= i < objects@.len() ==> (#[trigger] objects@[i])@ == self@.objects[i],
    {
        &self.objects
    }

    /// Replaces the transform of the drawable with the given id.
    pub fn set_transform(&mut self, id: usize, transform: Transform) -> (done: Result<
        (),
        SceneError,
    >)
        requires
            old(self).wf(),
        ensures
            final(self).wf(),
            match done {
                Ok(_) => id < old(self)@.objects.len() && final(self)@ == old(self)@.with_object(
                    id as int,
                    old(self)@.objects[id as int].with_transform(transform),
                ),
                Err(error) => id >= old(self)@.objects.len() && error
                    == SceneError::ResourceNotFound && final(self)@ == old(self)@,
            },
    {
        if id < self.objects.len() {
            self.objects[id].set_transform(transform);
            assert(self@.objects =~= old(self)@.objects.update(
                id as int,
                old(self)@.objects[id as int].with_transform(transform),
            ));
            Ok(())
        } else {
            Err(SceneError::ResourceNotFound)
        }
    }

    /// Moves the drawable with the given id.
    pub fn set_position(&mut self, id: usize, position: Vec3) -> (done: Result<(), SceneError>)
        requires
            old(self).wf(),
        ensures
            final(self).wf(),
            match done {
                Ok(_) => id < old(self)@.objects.len() && final(self)@ == old(self)@.with_object(
                    id as int,
                    old(self)@.objects[id as int].with_position(position),
                ),
                Err(error) => id >= old(self)@.objects.len() && error
                    == SceneError::ResourceNotFound && final(self)@ == old(self)@,
            },
    {
        if id < self.objects.len() {
            self.objects[id].set_position(position);
            assert(self@.objects =~= old(self)@.objects.update(
                id as int,
                old(self)@.objects[id as int].with_position(position),
            ));
            Ok(())
        } else {
            Err(SceneError::ResourceNotFound)
        }
    }

    /// Turns the drawable with the given id.
    pub fn set_rotation(&mut self, id: usize, rotation: Vec3) -> (done: Result<(), SceneError>)
        requires
            old(self).wf(),
        ensures
            final(self).wf(),
            match done {
                Ok(_) => id < old(self)@.objects.len() && final(self)@ == old(self)@.with_object(
                    id as int,
                    old(self)@.objects[id as int].with_rotation(rotation),
                ),
                Err(error) => id >= old(self)@.objects.len() && error
                    == SceneError::ResourceNotFound && final(self)@ == old(self)@,
            },
    {
        if id < self.objects.len() {
            self.objects[id].set_rotation(rotation);
            assert(self@.objects =~= old(self)@.objects.update(
                id as int,
                old(self)@.objects[id as int].with_rotation(rotation),
            ));
            Ok(())
        } else {
            Err(SceneError::ResourceNotFound)
        }
    }

    /// Resizes the drawable with the given id.
    pub fn set_scale(&mut self, id: usize, scale: Vec3) -> (done: Result<(), SceneError>)
        requires
            old(self).wf(),
        ensures
            final(self).wf(),
            match done {
                Ok(_) => id < old(self)@.objects.len() && final(self)@ == old(self)@.with_object(
                    id as int,
                    old(self)@.objects[id as int].with_scale(scale),
                ),
                Err(error) => id >= old(self)@.objects.len() && error
                    == SceneError::ResourceNotFound && final(self)@ == old(self)@,
            },
    {
        if id < self.objects.len() {
            self.objects[id].set_scale(scale);
            assert(self@.objects =~= old(self)@.objects.update(
                id as int,
                old(self)@.objects[id as int].with_scale(scale),
            ));
            Ok(())
        } else {
            Err(SceneError::ResourceNotFound)
        }
    }

    /// The ids of the drawables for which the backend has to compile a
    /// program, in insertion order.
    pub fn compile_shaders(&self) -> (pending: Vec<usize>)
        ensures
            pending@ == self@.pending(),
    {
        let mut pending: Vec<usize> = Vec::new();
        let mut i: usize = 0;
        assert(self@.objects.take(0).filter_map(SceneView::wants_program()) =~= Seq::empty());
        while i < self.objects.len()
            invariant
                i <= self.objects@.len(),
                self@.objects.len() == self.objects@.len(),
                pending@ == self@.objects.take(i as int).filter_map(SceneView::wants_program()),
            decreases self.objects@.len() - i,
        {
            proof {
                self@.objects.lemma_filter_map_take_succ(SceneView::wants_program(), i as int);
            }
            if self.objects[i].needs_program() {
                pending.push(self.objects[i].get_id());
            }
            i += 1;
        }
        assert(self@.objects.take(i as int) =~= self@.objects);
        pending
    }

    /// Caches the handle of the program that the backend compiled for the
    /// drawable with the given id. Returns whether the handle was cached: a
    /// drawable that had a program keeps it, and the call changes nothing.
    pub fn attach_program(&mut self, id: usize, program: u32) -> (done: Result<bool, SceneError>)
        requires
            old(self).wf(),
        ensures
            final(self).wf(),
            match done {
                Ok(attached) => {
                    &&& id < old(self)@.objects.len()
                    &&& attached == (old(self)@.objects[id as int].program is None)
                    &&& final(self)@ == old(self)@.with_object(
                        id as int,
                        old(self)@.objects[id as int].with_program(program),
                    )
                },
                Err(error) => id >= old(self)@.objects.len() && error
                    == SceneError::ResourceNotFound && final(self)@ == old(self)@,
            },
    {
        if id < self.objects.len() {
            let attached = self.objects[id].attach_program(program);
            assert(self@.objects =~= old(self)@.objects.update(
                id as int,
                old(self)@.objects[id as int].with_program(program),
            ));
            Ok(attached)
        } else {
            Err(SceneError::ResourceNotFound)
        }
    }

    /// The plan of one frame: clear to the ambient colour and to depth one,
    /// then one draw call for each drawable, in insertion order. Every call
    /// carries the pair of camera matrices that was handed in, so the caller
    /// computes the pair once for the frame.
    pub fn render(&self, view: Mat4, perspective: Mat4, state: RasterState) -> (plan: FramePlan)
        ensures
            plan.clear_color == self@.ambient,
            plan.clear_depth == Some(ONE),
            plan.draws@ == self@.draws(view, perspective, state),
    {
        let mut draws: Vec<DrawCall> = Vec::new();
        let mut i: usize = 0;
        while i < self.objects.len()
            invariant
                i <= self.objects@.len(),
                self@.objects.len() == self.objects@.len(),
                draws@.len() == i,
                forall|j: int|
                    0 <= j < i ==> draws@[j] == (#[trigger] self@.objects[j]).draw(
                        view,
                        perspective,
                        self@.global_light,
                        state,
                    ),
            decreases self.objects@.len() - i,
        {
            draws.push(self.objects[i].draw(view, perspective, self.global_light, state));
            i += 1;
        }
        assert(draws@ =~= self@.draws(view, perspective, state));
        FramePlan { clear_color: self.ambient, clear_depth: Some(ONE), draws }
    }
}

/// In a scene whose ids are in order, the first id is 0 and the ids grow
/// strictly from each drawable to every later one, so no two are equal.
pub proof fn lemma_ids_strictly_increasing(scene: SceneView)
    requires
        scene.ids_in_order(),
    ensures
        scene.objects.len() > 0 ==> scene.objects[0].id == 0,
        forall|i: int, j: int|
            #![trigger scene.objects[i], scene.objects[j]]
            0 <= i < j < scene.objects.len() ==> scene.objects[i].id < scene.objects[j].id,
{
}

/// A frame has one draw call for each drawable, in insertion order, and all
/// its draw calls carry the same view matrix, the same perspective matrix,
/// the scene's light and the same rasterizer state.
pub proof fn lemma_frame_shares_camera_matrices(
    scene: SceneView,
    view: Mat4,
    perspective: Mat4,
    state: RasterState,
)
    ensures
        scene.draws(view, perspective, state).len() == scene.objects.len(),
        forall|i: int|
            #![trigger scene.draws(view, perspective, state)[i]]
            0 <= i < scene.objects.len() ==> {
                let call = scene.draws(view, perspective, state)[i];
                &&& call.id == scene.objects[i].id
                &&& call.kind == scene.objects[i].kind
                &&& call.view == view
                &&& call.perspective == perspective
                &&& call.light == scene.global_light
                &&& call.state == state
            },
{
}

/// The pending ids are exactly the ids of the drawables that have no
/// program: once every drawable has one, nothing is pending.
pub proof fn lemma_pending_lists_the_uncompiled(scene: SceneView, id: usize)
    requires
        scene.ids_in_order(),
    ensures
        scene.pending().contains(id) <==> (id < scene.objects.len() && scene.objects[id as int].program
            is None),
    decreases scene.objects.len(),
{
    if scene.objects.len() > 0 {
        let rest = SceneView { objects: scene.objects.drop_last(), ..scene };
        let last = scene.objects.last();
        lemma_pending_lists_the_uncompiled(rest, id);
        if last.program is None {
            let grown = rest.pending() + seq![last.id];
            assert(scene.pending() == grown);
            assert(grown[grown.len() - 1] == last.id);
            if rest.pending().contains(id) {
                let at = choose|at: int| 0 <= at < rest.pending().len() && rest.pending()[at] == id;
                assert(grown[at] == id);
            }
        } else {
            assert(scene.pending() == rest.pending());
        }
    }
}

/// Adding drawables to a scene numbers them in the order in which they are
/// added, whatever their variants: after `added` went in, the scene holds
/// what it held before, and behind that the k-th added drawable under the
/// id `n + k`, where `n` is the number of drawables before. From an empty
/// scene the ids are 0, 1, 2, ...
pub proof fn lemma_adds_number_in_insertion_order(scene: SceneView, added: Seq<DrawableView>)
    requires
        scene.ids_in_order(),
        scene.objects.len() + added.len() <= usize::MAX,
    ensures
        scene.with_all_added(added).ids_in_order(),
        scene.with_all_added(added).objects.len() == scene.objects.len() + added.len(),
        forall|i: int|
            #![trigger scene.with_all_added(added).objects[i]]
            0 <= i < scene.objects.len() ==> scene.with_all_added(added).objects[i]
                == scene.objects[i],
        forall|i: int|
            #![trigger scene.with_all_added(added).objects[i]]
            scene.objects.len() <= i < scene.objects.len() + added.len() ==> scene.with_all_added(
                added,
            ).objects[i] == added[i - scene.objects.len()].with_id(i as usize),
    decreases added.len(),
{
    if added.len() > 0 {
        lemma_adds_number_in_insertion_order(scene, added.drop_last());
    }
}

} // verus!
