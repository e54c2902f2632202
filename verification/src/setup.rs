//! Links the scene's engine entities into the game-side entity table.
use vstd::prelude::*;
use crate::ecs::{
    Entity, GameEntity, ShowcaseWorld, SubjectKind, first_marker_engine, first_subject_engine,
    lemma_marker_search_push, lemma_subject_search_push, marker_entity, subject_entity,
};

verus! {

/// Records the scene built in the engine: a cube subject linked to the engine
/// entity `cube`, then a pick marker linked to the engine entity `marker`.
pub fn spawn(showcase_world: &mut ShowcaseWorld, cube: Entity, marker: Entity)
    ensures
        final(showcase_world).table() == old(showcase_world).table().push(
            subject_entity(SubjectKind::Cube, cube),
        ).push(marker_entity(marker)),
        final(showcase_world).scene == old(showcase_world).scene,
{
    showcase_world.spawn_subject(SubjectKind::Cube, cube);
    showcase_world.spawn_pick_marker(marker);
}

/// Once the scene is recorded in a table that had no cube subject and no
/// marker, the cube query finds `cube`, the marker query finds `marker`, and
/// the helmet query answers as before.
pub proof fn lemma_spawn_links_scene(table: Seq<GameEntity>, cube: Entity, marker: Entity)
    requires
        first_subject_engine(table, SubjectKind::Cube) is None,
        first_marker_engine(table) is None,
    ensures
        ({
            let linked = table.push(subject_entity(SubjectKind::Cube, cube)).push(
                marker_entity(marker),
            );
            &&& first_subject_engine(linked, SubjectKind::Cube) == Some(cube)
            &&& first_marker_engine(linked) == Some(marker)
            &&& first_subject_engine(linked, SubjectKind::Helmet) == first_subject_engine(
                table,
                SubjectKind::Helmet,
            )
        }),
{
    let cube_entity = subject_entity(SubjectKind::Cube, cube);
    let marker_link = marker_entity(marker);
    let with_cube = table.push(cube_entity);
    lemma_subject_search_push(table, cube_entity, SubjectKind::Cube);
    lemma_subject_search_push(table, cube_entity, SubjectKind::Helmet);
    lemma_subject_search_push(with_cube, marker_link, SubjectKind::Cube);
    lemma_subject_search_push(with_cube, marker_link, SubjectKind::Helmet);
    lemma_marker_search_push(table, cube_entity);
    lemma_marker_search_push(with_cube, marker_link);
    assert(seq![cube_entity].drop_first() =~= Seq::<GameEntity>::empty());
    assert(seq![marker_link].drop_first() =~= Seq::<GameEntity>::empty());
    reveal_with_fuel(first_subject_engine, 2);
    reveal_with_fuel(first_marker_engine, 2);
    assert(first_subject_engine(seq![cube_entity], SubjectKind::Cube) == Some(cube));
    assert(first_subject_engine(seq![cube_entity], SubjectKind::Helmet) is None);
    assert(first_subject_engine(seq![marker_link], SubjectKind::Cube) is None);
    assert(first_subject_engine(seq![marker_link], SubjectKind::Helmet) is None);
    assert(first_marker_engine(seq![cube_entity]) is None);
    assert(first_marker_engine(seq![marker_link]) == Some(marker));
}

} // verus!
