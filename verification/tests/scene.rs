use nightshade_worker_leptos::controls::{helmet_load_needed, record_helmet, set_helmet};
use nightshade_worker_leptos::ecs::{
    Entity, ShowcaseWorld, SubjectKind, active_subject_engine, marker_engine, subject_engine,
};
use nightshade_worker_leptos::setup::spawn;

fn entity(id: u32) -> Entity {
    Entity { id, generation: 0 }
}

#[test]
fn empty_world_finds_nothing() {
    let world = ShowcaseWorld::new();
    assert_eq!(subject_engine(&world, SubjectKind::Cube), None);
    assert_eq!(subject_engine(&world, SubjectKind::Helmet), None);
    assert_eq!(marker_engine(&world), None);
    assert_eq!(world.len(), 0);
}

#[test]
fn spawn_links_cube_and_marker() {
    let mut world = ShowcaseWorld::new();
    spawn(&mut world, entity(3), entity(4));
    assert_eq!(world.len(), 2);
    assert_eq!(subject_engine(&world, SubjectKind::Cube), Some(entity(3)));
    assert_eq!(subject_engine(&world, SubjectKind::Helmet), None);
    assert_eq!(marker_engine(&world), Some(entity(4)));
    assert_eq!(active_subject_engine(&world, false), Some(entity(3)));
    assert_eq!(active_subject_engine(&world, true), None);
}

#[test]
fn first_matching_subject_wins() {
    let mut world = ShowcaseWorld::new();
    world.spawn_pick_marker(entity(9));
    world.spawn_subject(SubjectKind::Helmet, entity(1));
    world.spawn_subject(SubjectKind::Cube, entity(2));
    world.spawn_subject(SubjectKind::Cube, entity(5));
    assert_eq!(subject_engine(&world, SubjectKind::Cube), Some(entity(2)));
    assert_eq!(subject_engine(&world, SubjectKind::Helmet), Some(entity(1)));
    assert_eq!(marker_engine(&world), Some(entity(9)));
}

#[test]
fn helmet_loads_lazily_once() {
    let mut world = ShowcaseWorld::new();
    spawn(&mut world, entity(3), entity(4));
    assert!(!helmet_load_needed(&world, false));
    assert!(helmet_load_needed(&world, true));
    record_helmet(&mut world, entity(20), vec![entity(21), entity(22)]);
    assert!(world.scene.helmet_loaded);
    assert_eq!(world.scene.helmet_meshes, vec![entity(21), entity(22), entity(20)]);
    assert_eq!(subject_engine(&world, SubjectKind::Helmet), Some(entity(20)));
    assert!(!helmet_load_needed(&world, true));
    let _ = set_helmet(&mut world, true);
    let _ = set_helmet(&mut world, false);
    assert!(!helmet_load_needed(&world, true));
}

#[test]
fn toggle_on_shows_helmet_and_moves_marker() {
    let mut world = ShowcaseWorld::new();
    spawn(&mut world, entity(3), entity(4));
    record_helmet(&mut world, entity(20), vec![entity(21)]);
    let toggle = set_helmet(&mut world, true);
    assert!(world.scene.show_helmet);
    assert_eq!(toggle.cube, Some(entity(3)));
    assert!(!toggle.cube_visible);
    assert_eq!(toggle.meshes, vec![entity(21), entity(20)]);
    assert!(toggle.meshes_visible);
    assert_eq!(toggle.marker_parent, Some((entity(4), entity(20))));
    assert_eq!(active_subject_engine(&world, world.scene.show_helmet), Some(entity(20)));
}

#[test]
fn toggle_off_shows_cube() {
    let mut world = ShowcaseWorld::new();
    spawn(&mut world, entity(3), entity(4));
    record_helmet(&mut world, entity(20), vec![]);
    let _ = set_helmet(&mut world, true);
    let toggle = set_helmet(&mut world, false);
    assert!(!world.scene.show_helmet);
    assert!(toggle.cube_visible);
    assert!(!toggle.meshes_visible);
    assert_eq!(toggle.meshes, vec![entity(20)]);
    assert_eq!(toggle.marker_parent, Some((entity(4), entity(3))));
}

#[test]
fn toggle_without_helmet_has_no_marker_parent() {
    let mut world = ShowcaseWorld::new();
    spawn(&mut world, entity(3), entity(4));
    let toggle = set_helmet(&mut world, true);
    assert_eq!(toggle.marker_parent, None);
    assert!(toggle.meshes.is_empty());
    assert_eq!(toggle.cube, Some(entity(3)));
}
