// The persisted form of a scene: a named list of tagged object records.
//
// A document keeps, for each drawable, the tag of its variant, its name and
// its transform. It keeps no ids, which are the places in the list, and no
// program handles, which belong to one run of the backend. How a document is
// written to bytes is left to whoever stores it.

use crate::drawable::{Drawable, DrawableView, Kind, Transform};
use crate::scene::{spec_default_light, Ambient, Scene, SceneView};
use vstd::prelude::*;

verus! {

/// What a record holds.
pub struct RecordView {
    pub kind: Kind,
    pub name: Seq<char>,
    pub transform: Transform,
}

/// One drawable as it is persisted: the tag of its variant, its name and its
/// transform.
pub struct ObjectRecord {
    pub kind: Kind,
    pub name: String,
    pub transform: Transform,
}

impl View for ObjectRecord {
    type V = RecordView;

    open spec fn view(&self) -> RecordView {
        RecordView { kind: self.kind, name: self.name@, transform: self.transform }
    }
}

/// What a document holds.
pub struct DocumentView {
    pub name: Seq<char>,
    pub objects: Seq<RecordView>,
}

/// A scene as it is persisted: its name and the records of its drawables in
/// insertion order.
pub struct WorldDocument {
    pub name: String,
    pub objects: Vec<ObjectRecord>,
}

impl View for WorldDocument {
    type V = DocumentView;

    open spec fn view(&self) -> DocumentView {
        DocumentView {
            name: self.name@,
            objects: Seq::new(self.objects@.len(), |i: int| self.objects@[i]@),
        }
    }
}

impl DrawableView {
    /// The record that persists this drawable.
    pub open spec fn record(&self) -> RecordView {
        RecordView { kind: self.kind, name: self.name, transform: self.transform }
    }
}

impl RecordView {
    /// The drawable that this record restores in the place `id` of a scene:
    /// it has no compiled program.
    pub open spec fn drawable(&self, id: usize) -> DrawableView {
        DrawableView {
            id,
            kind: self.kind,
            name: self.name,
            transform: self.transform,
            program: None,
        }
    }
}

impl SceneView {
    /// The document that persists this scene.
    pub open spec fn document(&self) -> DocumentView {
        DocumentView {
            name: self.name,
            objects: Seq::new(self.objects.len(), |i: int| self.objects[i].record()),
        }
    }
}

impl DocumentView {
    /// The scene that this document restores: the drawables of its records
    /// in the order of the records, under the default light and ambient
    /// colour.
    pub open spec fn scene(&self) -> SceneView {
        SceneView {
            name: self.name,
            global_light: spec_default_light(),
            ambient: Ambient::spec_default(),
            objects: Seq::new(self.objects.len(), |i: int| self.objects[i].drawable(i as usize)),
        }
    }
}

impl Drawable {
    /// The record that persists this drawable.
    pub fn to_record(&self) -> (record: ObjectRecord)
        ensures
            record@ == self@.record(),
    {
        ObjectRecord {
            kind: self.get_kind(),
            name: self.get_name().to_owned(),
            transform: self.get_transform(),
        }
    }

    /// The drawable that `record` describes, not yet in any scene.
    pub fn from_record(record: &ObjectRecord) -> (drawable: Drawable)
        ensures
            drawable@ == record@.drawable(0),
    {
        let mut drawable = Drawable::new(record.kind, record.name.as_str());
        drawable.set_transform(record.transform);
        drawable
    }
}

impl Scene {
    /// The document that persists this scene.
    pub fn save(&self) -> (document: WorldDocument)
        ensures
            document@ == self@.document(),
    {
        let objects = self.get_objects();
        let mut records: Vec<ObjectRecord> = Vec::new();
        let mut i: usize = 0;
        while i < objects.len()
            invariant
                i <= objects@.len(),
                objects@.len() == self@.objects.len(),
                forall|j: int|
                    0 <= j < objects@.len() ==> (#[trigger] objects@[j])@ == self@.objects[j],
                records@.len() == i,
                forall|j: int| 0 <= j < i ==> (#[trigger] records@[j])@ == self@.objects[j].record(),
            decreases objects@.len() - i,
        {
            records.push(objects[i].to_record());
            i += 1;
        }
        let document = WorldDocument { name: self.get_name().to_owned(), objects: records };
        assert(document@.objects =~= self@.document().objects);
        document
    }

    /// The scene that `document` restores.
    pub fn load(document: &WorldDocument) -> (scene: Scene)
        ensures
            scene.wf(),
            scene@ == document@.scene(),
    {
        let mut scene = Scene::new(document.name.as_str());
        let mut i: usize = 0;
        assert(document@.scene().objects.take(0) =~= Seq::empty());
        while i < document.objects.len()
            invariant
                i <= document.objects@.len(),
                scene.wf(),
                scene@ == (SceneView {
                    objects: document@.scene().objects.take(i as int),
                    ..document@.scene()
                }),
            decreases document.objects@.len() - i,
        {
            scene.add_object(Drawable::from_record(&document.objects[i]));
            assert(scene@.objects =~= document@.scene().objects.take(i + 1));
            i += 1;
        }
        assert(document@.scene().objects.take(i as int) =~= document@.scene().objects);
        scene
    }
}

/// A scene that is saved and loaded again has the same name, as many
/// drawables, and in each place a drawable with the same id, variant, name
/// and transform as before. Only the program handles are gone: the restored
/// drawables are not compiled.
pub proof fn lemma_load_after_save(scene: SceneView)
    requires
        scene.ids_in_order(),
    ensures
        scene.document().scene().name == scene.name,
        scene.document().scene().objects.len() == scene.objects.len(),
        scene.document().scene().ids_in_order(),
        forall|i: int|
            0 <= i < scene.objects.len() ==> {
                let restored = #[trigger] scene.document().scene().objects[i];
                &&& restored.id == scene.objects[i].id
                &&& restored.kind == scene.objects[i].kind
                &&& restored.name == scene.objects[i].name
                &&& restored.transform == scene.objects[i].transform
                &&& restored.program is None
            },
{
}

/// A document that is loaded and saved again is the same document.
pub proof fn lemma_save_after_load(document: DocumentView)
    ensures
        document.scene().document() == document,
{
    assert(document.scene().document().objects =~= document.objects);
}

} // verus!
