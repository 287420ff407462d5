use dengine::document::{ObjectRecord, WorldDocument};
use dengine::drawable::{Drawable, Kind, Transform};
use dengine::scene::{Ambient, Scene};
use dengine::vector::Vec3;

fn vec3(x: f32, y: f32, z: f32) -> Vec3 {
    Vec3::new(x.to_bits(), y.to_bits(), z.to_bits())
}

fn sample() -> Scene {
    let mut scene = Scene::new("Test World");
    let mut pot = Drawable::teapot("pot");
    pot.set_position(vec3(150.0, 0.0, 100.0));
    pot.set_rotation(vec3(0.0, 1.5, 0.0));
    let mut small = Drawable::cuboid("box");
    small.set_scale(vec3(0.5, 0.25, 0.125));
    let mut last = Drawable::teapot("pot");
    last.set_position(vec3(-1.0, -2.0, -3.0));
    scene.add_object(pot);
    scene.add_object(small);
    scene.add_object(last);
    scene
}

#[test]
fn save_writes_one_record_for_each_drawable() {
    let document = sample().save();
    assert_eq!(document.name, "Test World");
    assert_eq!(document.objects.len(), 3);
    assert_eq!(document.objects[0].kind, Kind::Teapot);
    assert_eq!(document.objects[0].name, "pot");
    assert_eq!(
        document.objects[0].transform,
        Transform {
            position: vec3(150.0, 0.0, 100.0),
            rotation: vec3(0.0, 1.5, 0.0),
            scale: vec3(1.0, 1.0, 1.0),
        }
    );
    assert_eq!(document.objects[1].kind, Kind::Cuboid);
    assert_eq!(document.objects[1].name, "box");
    assert_eq!(document.objects[1].transform.scale, vec3(0.5, 0.25, 0.125));
    assert_eq!(document.objects[2].transform.position, vec3(-1.0, -2.0, -3.0));
}

#[test]
fn load_after_save_restores_count_variants_and_transforms() {
    let mut scene = sample();
    scene.attach_program(1, 9).unwrap();
    let restored = Scene::load(&scene.save());
    assert_eq!(restored.get_name(), scene.get_name());
    assert_eq!(restored.len(), scene.len());
    for (before, after) in scene.get_objects().iter().zip(restored.get_objects().iter()) {
        assert_eq!(after.get_id(), before.get_id());
        assert_eq!(after.get_kind(), before.get_kind());
        assert_eq!(after.get_name(), before.get_name());
        assert_eq!(after.get_transform(), before.get_transform());
        assert_eq!(after.get_program(), None);
    }
}

#[test]
fn load_numbers_the_records_in_their_order() {
    let record = |kind: Kind, name: &str, x: f32| ObjectRecord {
        kind,
        name: name.to_string(),
        transform: Transform::new(vec3(x, 0.0, 0.0), vec3(0.0, 0.0, 0.0)),
    };
    let document = WorldDocument {
        name: "from disk".to_string(),
        objects: vec![
            record(Kind::Cuboid, "a", 1.0),
            record(Kind::Teapot, "b", 2.0),
            record(Kind::Cuboid, "c", 3.0),
        ],
    };
    let scene = Scene::load(&document);
    assert_eq!(scene.get_name(), "from disk");
    assert_eq!(scene.len(), 3);
    assert_eq!(scene.get_object(1).unwrap().get_kind(), Kind::Teapot);
    assert_eq!(scene.get_object(1).unwrap().get_name(), "b");
    assert_eq!(scene.get_object(2).unwrap().get_id(), 2);
    assert_eq!(scene.get_object(2).unwrap().get_position(), vec3(3.0, 0.0, 0.0));
    assert_eq!(scene.get_global_light(), vec3(-1.0, 0.4, 0.9));
    assert_eq!(scene.get_ambient(), Ambient::default());
    let again = scene.save();
    assert_eq!(again.name, document.name);
    assert_eq!(again.objects.len(), document.objects.len());
    for (before, after) in document.objects.iter().zip(again.objects.iter()) {
        assert_eq!(after.kind, before.kind);
        assert_eq!(after.name, before.name);
        assert_eq!(after.transform, before.transform);
    }
}

#[test]
fn an_empty_document_loads_an_empty_scene() {
    let document = WorldDocument { name: String::new(), objects: Vec::new() };
    let scene = Scene::load(&document);
    assert_eq!(scene.len(), 0);
    assert_eq!(scene.get_name(), "");
    assert!(scene.save().objects.is_empty());
}

#[test]
fn records_follow_their_drawables() {
    let mut pot = Drawable::teapot("pot");
    pot.set_position(vec3(1.0, 2.0, 3.0));
    pot.attach_program(4);
    let record = pot.to_record();
    assert_eq!(record.kind, Kind::Teapot);
    assert_eq!(record.name, "pot");
    assert_eq!(record.transform, pot.get_transform());
    let back = Drawable::from_record(&record);
    assert_eq!(back.get_id(), 0);
    assert_eq!(back.get_kind(), Kind::Teapot);
    assert_eq!(back.get_name(), "pot");
    assert_eq!(back.get_transform(), pot.get_transform());
    assert_eq!(back.get_program(), None);
}
