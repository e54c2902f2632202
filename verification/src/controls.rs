//! The cube/helmet toggle: when the helmet must be loaded, what loading it
//! records, and which visibility and parenting changes a toggle asks of the
//! engine.
use vstd::prelude::*;
use crate::ecs::{
    Entity, GameEntity, ShowcaseWorld, SubjectKind, first_marker_engine, first_subject_engine,
    kind_on_screen, marker_engine, subject_engine, subject_entity,
};

verus! {

/// What the engine must do after a toggle: show or hide the cube, show or hide
/// every helmet mesh, and re-parent the pick marker to the subject now on
/// screen (at its local origin).
pub struct HelmetToggle {
    /// The cube's engine entity, if the cube subject exists.
    pub cube: Option<Entity>,
    pub cube_visible: bool,
    /// Engine entities of the helmet meshes.
    pub meshes: Vec<Entity>,
    pub meshes_visible: bool,
    /// The marker's engine entity and its new parent, when both exist.
    pub marker_parent: Option<(Entity, Entity)>,
}

/// The marker and the root of the subject of `kind`, when both are found.
pub open spec fn marker_and_root(marker: Option<Entity>, root: Option<Entity>) -> Option<(Entity, Entity)> {
    match (marker, root) {
        (Some(m), Some(r)) => Some((m, r)),
        _ => None,
    }
}

/// The part of the world that the helmet toggle reads and changes: the entity
/// table and the scene switches.
#[verifier::ext_equal]
pub struct HelmetScene {
    pub table: Seq<GameEntity>,
    pub show_helmet: bool,
    pub helmet_loaded: bool,
    pub helmet_meshes: Seq<Entity>,
}

/// The helmet-related state of `world`.
pub open spec fn helmet_scene(world: ShowcaseWorld) -> HelmetScene {
    HelmetScene {
        table: world.table(),
        show_helmet: world.scene.show_helmet,
        helmet_loaded: world.scene.helmet_loaded,
        helmet_meshes: world.scene.helmet_meshes@,
    }
}

/// The state after recording a helmet imported with root `root` and the
/// given descendants.
pub open spec fn after_record(scene: HelmetScene, root: Entity, descendants: Seq<Entity>) -> HelmetScene {
    HelmetScene {
        table: scene.table.push(subject_entity(SubjectKind::Helmet, root)),
        show_helmet: scene.show_helmet,
        helmet_loaded: true,
        helmet_meshes: descendants.push(root),
    }
}

/// The state after a toggle to `enabled`.
pub open spec fn after_toggle(scene: HelmetScene, enabled: bool) -> HelmetScene {
    HelmetScene {
        table: scene.table,
        show_helmet: enabled,
        helmet_loaded: scene.helmet_loaded,
        helmet_meshes: scene.helmet_meshes,
    }
}

/// One turn of the helmet switch to `enabled`, the import (when one is due)
/// giving `root` and `descendants`: load first when due, then toggle.
pub open spec fn after_switch(
    scene: HelmetScene,
    enabled: bool,
    root: Entity,
    descendants: Seq<Entity>,
) -> HelmetScene {
    let loaded = if enabled && !scene.helmet_loaded {
        after_record(scene, root, descendants)
    } else {
        scene
    };
    after_toggle(loaded, enabled)
}

/// The state after turning the switch to each of `flags` in order.
pub open spec fn after_switches(
    scene: HelmetScene,
    flags: Seq<bool>,
    root: Entity,
    descendants: Seq<Entity>,
) -> HelmetScene
    decreases flags.len(),
{
    if flags.len() == 0 {
        scene
    } else {
        after_switch(after_switches(scene, flags.drop_last(), root, descendants), flags.last(), root, descendants)
    }
}

/// How many game entities carry a helmet subject.
pub open spec fn helmet_subject_count(table: Seq<GameEntity>) -> nat
    decreases table.len(),
{
    if table.len() == 0 {
        0
    } else {
        let here: nat = match table[0].subject {
            Some(subject) => if subject.kind == SubjectKind::Helmet { 1 } else { 0 },
            None => 0,
        };
        here + helmet_subject_count(table.drop_first())
    }
}

/// Whether turning the helmet switch to `enabled` must first load the helmet:
/// the helmet loads lazily, on the first enable only.
pub fn helmet_load_needed(showcase_world: &ShowcaseWorld, enabled: bool) -> (needed: bool)
    ensures
        needed == (enabled && !showcase_world.scene.helmet_loaded),
{
    enabled && !showcase_world.scene.helmet_loaded
}

/// Records an imported helmet: its meshes are the descendants of `root`
/// followed by `root`, the helmet counts as loaded, and a helmet subject
/// linked to `root` joins the table.
pub fn record_helmet(showcase_world: &mut ShowcaseWorld, root: Entity, descendants: Vec<Entity>)
    ensures
        final(showcase_world).scene.helmet_meshes@ == descendants@.push(root),
        final(showcase_world).scene.helmet_loaded,
        final(showcase_world).scene.show_helmet == old(showcase_world).scene.show_helmet,
        final(showcase_world).table() == old(showcase_world).table().push(
            subject_entity(SubjectKind::Helmet, root),
        ),
        helmet_scene(*final(showcase_world)) == after_record(
            helmet_scene(*old(showcase_world)),
            root,
            descendants@,
        ),
{
    let mut meshes = descendants;
    meshes.push(root);
    showcase_world.scene.helmet_meshes = meshes;
    showcase_world.scene.helmet_loaded = true;
    showcase_world.spawn_subject(SubjectKind::Helmet, root);
}

fn copy_entities(source: &Vec<Entity>) -> (copy: Vec<Entity>)
    ensures
        copy@ == source@,
{
    let mut copy: Vec<Entity> = Vec::new();
    let n = source.len();
    for i in 0..n
        invariant
            n == source@.len(),
            copy@ == source@.take(i as int),
    {
        copy.push(source[i]);
        assert(source@.take(i + 1) =~= source@.take(i as int).push(source@[i as int]));
    }
    assert(source@.take(n as int) =~= source@);
    copy
}

/// Puts the helmet (`enabled`) or the cube on screen and says what the engine
/// must change: the cube is visible exactly when the helmet is off, every
/// helmet mesh exactly when it is on, and the marker moves under the subject
/// now on screen.
pub fn set_helmet(showcase_world: &mut ShowcaseWorld, enabled: bool) -> (toggle: HelmetToggle)
    ensures
        final(showcase_world).scene.show_helmet == enabled,
        final(showcase_world).scene.helmet_loaded == old(showcase_world).scene.helmet_loaded,
        final(showcase_world).scene.helmet_meshes@ == old(showcase_world).scene.helmet_meshes@,
        final(showcase_world).table() == old(showcase_world).table(),
        helmet_scene(*final(showcase_world)) == after_toggle(helmet_scene(*old(showcase_world)), enabled),
        toggle.cube == first_subject_engine(old(showcase_world).table(), SubjectKind::Cube),
        toggle.cube_visible == !enabled,
        toggle.meshes@ == old(showcase_world).scene.helmet_meshes@,
        toggle.meshes_visible == enabled,
        toggle.marker_parent == marker_and_root(
            first_marker_engine(old(showcase_world).table()),
            first_subject_engine(old(showcase_world).table(), kind_on_screen(enabled)),
        ),
{
    showcase_world.scene.show_helmet = enabled;
    let cube = subject_engine(showcase_world, SubjectKind::Cube);
    let meshes = copy_entities(&showcase_world.scene.helmet_meshes);
    let root = if enabled {
        subject_engine(showcase_world, SubjectKind::Helmet)
    } else {
        subject_engine(showcase_world, SubjectKind::Cube)
    };
    let marker_parent = match (marker_engine(showcase_world), root) {
        (Some(marker), Some(root)) => Some((marker, root)),
        _ => None,
    };
    HelmetToggle { cube, cube_visible: !enabled, meshes, meshes_visible: enabled, marker_parent }
}

} // verus!

verus! {

/// Recording the helmet in a table with no helmet subject makes the helmet
/// query find `root` and leaves the cube and marker queries as they were.
pub proof fn lemma_record_helmet_links_root(table: Seq<crate::ecs::GameEntity>, root: Entity)
    requires
        first_subject_engine(table, SubjectKind::Helmet) is None,
    ensures
        ({
            let recorded = table.push(subject_entity(SubjectKind::Helmet, root));
            &&& first_subject_engine(recorded, SubjectKind::Helmet) == Some(root)
            &&& first_subject_engine(recorded, SubjectKind::Cube) == first_subject_engine(
                table,
                SubjectKind::Cube,
            )
            &&& first_marker_engine(recorded) == first_marker_engine(table)
        }),
{
    let helmet = subject_entity(SubjectKind::Helmet, root);
    crate::ecs::lemma_subject_search_push(table, helmet, SubjectKind::Helmet);
    crate::ecs::lemma_subject_search_push(table, helmet, SubjectKind::Cube);
    crate::ecs::lemma_marker_search_push(table, helmet);
    assert(seq![helmet].drop_first() =~= Seq::<crate::ecs::GameEntity>::empty());
    reveal_with_fuel(first_subject_engine, 2);
    reveal_with_fuel(first_marker_engine, 2);
    assert(first_subject_engine(seq![helmet], SubjectKind::Helmet) == Some(root));
    assert(first_subject_engine(seq![helmet], SubjectKind::Cube) is None);
    assert(first_marker_engine(seq![helmet]) is None);
}

} // verus!

verus! {

proof fn lemma_helmet_count_push(table: Seq<GameEntity>, entity: GameEntity)
    ensures
        helmet_subject_count(table.push(entity)) == helmet_subject_count(table)
            + helmet_subject_count(seq![entity]),
    decreases table.len(),
{
    if table.len() == 0 {
        assert(table.push(entity) =~= seq![entity]);
    } else {
        assert(table.push(entity).drop_first() =~= table.drop_first().push(entity));
        lemma_helmet_count_push(table.drop_first(), entity);
    }
}

proof fn lemma_no_helmet_subject_none_found(table: Seq<GameEntity>)
    requires
        helmet_subject_count(table) == 0,
    ensures
        first_subject_engine(table, SubjectKind::Helmet) is None,
    decreases table.len(),
{
    if table.len() > 0 {
        lemma_no_helmet_subject_none_found(table.drop_first());
    }
}

/// Turning the switch twice to the same position leaves the same state as
/// turning it once.
pub proof fn lemma_switch_twice_same_as_once(
    scene: HelmetScene,
    enabled: bool,
    root: Entity,
    descendants: Seq<Entity>,
)
    ensures
        after_switch(after_switch(scene, enabled, root, descendants), enabled, root, descendants)
            == after_switch(scene, enabled, root, descendants),
{
    assert(after_switch(after_switch(scene, enabled, root, descendants), enabled, root, descendants)
        =~= after_switch(scene, enabled, root, descendants));
}

/// Once loaded, the helmet is never loaded again: any further turns of the
/// switch keep the table, the helmet meshes and the loaded flag.
pub proof fn lemma_loaded_helmet_stays(
    scene: HelmetScene,
    flags: Seq<bool>,
    root: Entity,
    descendants: Seq<Entity>,
)
    requires
        scene.helmet_loaded,
    ensures
        after_switches(scene, flags, root, descendants).helmet_loaded,
        after_switches(scene, flags, root, descendants).table == scene.table,
        after_switches(scene, flags, root, descendants).helmet_meshes == scene.helmet_meshes,
    decreases flags.len(),
{
    if flags.len() > 0 {
        lemma_loaded_helmet_stays(scene, flags.drop_last(), root, descendants);
    }
}

/// From a world with no helmet subject and the helmet not loaded, over any
/// sequence of turns of the switch: the helmet is loaded exactly once, on the
/// first turn to `true`. Before that turn nothing but the switch changes;
/// from it on the helmet counts as loaded, the table holds exactly one helmet
/// subject, linked to `root`, which the helmet query finds, and the helmet
/// meshes are the imported ones. The switch ends where the last turn left it.
pub proof fn lemma_helmet_loads_once(
    scene: HelmetScene,
    flags: Seq<bool>,
    root: Entity,
    descendants: Seq<Entity>,
)
    requires
        !scene.helmet_loaded,
        helmet_subject_count(scene.table) == 0,
    ensures
        ({
            let end = after_switches(scene, flags, root, descendants);
            &&& flags.contains(true) ==> {
                &&& end.helmet_loaded
                &&& end.table == scene.table.push(subject_entity(SubjectKind::Helmet, root))
                &&& helmet_subject_count(end.table) == 1
                &&& first_subject_engine(end.table, SubjectKind::Helmet) == Some(root)
                &&& end.helmet_meshes == descendants.push(root)
            }
            &&& !flags.contains(true) ==> {
                &&& !end.helmet_loaded
                &&& end.table == scene.table
                &&& end.helmet_meshes == scene.helmet_meshes
            }
            &&& flags.len() > 0 ==> end.show_helmet == flags.last()
        }),
    decreases flags.len(),
{
    if flags.len() > 0 {
        let before = flags.drop_last();
        lemma_helmet_loads_once(scene, before, root, descendants);
        assert(flags =~= before.push(flags.last()));
        if before.contains(true) {
            let i = choose|i: int| 0 <= i < before.len() && before[i] == true;
            assert(flags[i] == true);
        }
        if flags.last() == true {
            assert(flags[flags.len() - 1] == true);
        }
        if flags.contains(true) && !before.contains(true) {
            let i = choose|i: int| 0 <= i < flags.len() && flags[i] == true;
            if i < flags.len() - 1 {
                assert(before[i] == true);
            }
        }
        if !flags.contains(true) {
            assert(!(flags[flags.len() - 1] == true));
        }
        let helmet = subject_entity(SubjectKind::Helmet, root);
        lemma_helmet_count_push(scene.table, helmet);
        reveal_with_fuel(helmet_subject_count, 2);
        assert(seq![helmet].drop_first() =~= Seq::<GameEntity>::empty());
        assert(helmet_subject_count(seq![helmet]) == 1);
        lemma_no_helmet_subject_none_found(scene.table);
        lemma_record_helmet_links_root(scene.table, root);
    }
}

} // verus!
