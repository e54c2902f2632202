//! The game-side entity table. Each game entity may carry a [`Subject`], a
//! [`PickMarker`] and an [`EngineEntity`] link to the engine entity that
//! renders it; the queries here find the engine entity behind a subject or the
//! pick marker.
use vstd::prelude::*;

verus! {

/// A handle to an entity of the engine's world: a slot index and the
/// generation that slot had when the entity was made.
#[derive(Clone, Copy, Debug, PartialEq, Eq, Structural)]
pub struct Entity {
    pub id: u32,
    pub generation: u32,
}

/// Links a game entity to the engine entity that renders it.
#[derive(Clone, Copy, Debug, PartialEq, Eq, Structural)]
pub struct EngineEntity(pub Entity);

/// Which subject the spin and pick systems are currently driving.
#[derive(Clone, Copy, Debug, PartialEq, Eq, Structural)]
pub enum SubjectKind {
    Cube,
    Helmet,
}

impl Default for SubjectKind {
    fn default() -> (kind: Self)
        ensures
            kind == SubjectKind::Cube,
    {
        SubjectKind::Cube
    }
}

/// A spinnable subject; its game entity links to an engine render entity
/// through [`EngineEntity`].
#[derive(Clone, Copy, Debug, PartialEq, Eq, Structural)]
pub struct Subject {
    pub kind: SubjectKind,
}

impl Default for Subject {
    fn default() -> (subject: Self)
        ensures
            subject.kind == SubjectKind::Cube,
    {
        Subject { kind: SubjectKind::Cube }
    }
}

/// Tags the game entity whose engine entity marks the last pick.
#[derive(Clone, Copy, Debug, PartialEq, Eq, Structural)]
pub struct PickMarker;

impl Default for PickMarker {
    fn default() -> (marker: Self)
        ensures
            marker == PickMarker,
    {
        PickMarker
    }
}

/// One game entity and the components it carries.
#[derive(Clone, Copy, Debug)]
pub struct GameEntity {
    pub subject: Option<Subject>,
    pub pick_marker: Option<PickMarker>,
    pub engine_entity: Option<EngineEntity>,
}

/// Scene playback state that the toggle and pick systems read.
pub struct SceneState {
    /// Whether the helmet, rather than the cube, is on screen.
    pub show_helmet: bool,
    /// Whether the helmet model has been imported and spawned.
    pub helmet_loaded: bool,
    /// Engine entities of the helmet's meshes, its root last.
    pub helmet_meshes: Vec<Entity>,
}

/// The game-side world: the entity table, in spawn order, and the scene state.
pub struct ShowcaseWorld {
    pub entities: Vec<GameEntity>,
    pub scene: SceneState,
}

/// The engine entity of the first game entity, in table order, that carries a
/// subject of `kind` and an engine link.
pub open spec fn first_subject_engine(table: Seq<GameEntity>, kind: SubjectKind) -> Option<Entity>
    decreases table.len(),
{
    if table.len() == 0 {
        None
    } else {
        let head = table[0];
        match (head.subject, head.engine_entity) {
            (Some(subject), Some(link)) if subject.kind == kind => Some(link.0),
            _ => first_subject_engine(table.drop_first(), kind),
        }
    }
}

/// The engine entity of the first game entity, in table order, that carries
/// the pick marker and an engine link.
pub open spec fn first_marker_engine(table: Seq<GameEntity>) -> Option<Entity>
    decreases table.len(),
{
    if table.len() == 0 {
        None
    } else {
        let head = table[0];
        match (head.pick_marker, head.engine_entity) {
            (Some(_), Some(link)) => Some(link.0),
            _ => first_marker_engine(table.drop_first()),
        }
    }
}

/// The kind of subject on screen for a given helmet switch.
pub open spec fn kind_on_screen(show_helmet: bool) -> SubjectKind {
    if show_helmet {
        SubjectKind::Helmet
    } else {
        SubjectKind::Cube
    }
}

/// A game entity that carries only a subject of `kind` linked to `engine`.
pub open spec fn subject_entity(kind: SubjectKind, engine: Entity) -> GameEntity {
    GameEntity {
        subject: Some(Subject { kind }),
        pick_marker: None,
        engine_entity: Some(EngineEntity(engine)),
    }
}

/// A game entity that carries only the pick marker linked to `engine`.
pub open spec fn marker_entity(engine: Entity) -> GameEntity {
    GameEntity { subject: None, pick_marker: Some(PickMarker), engine_entity: Some(EngineEntity(engine)) }
}

proof fn lemma_skip_step<A>(s: Seq<A>, i: int)
    requires
        0 <= i < s.len(),
    ensures
        s.skip(i).len() > 0,
        s.skip(i)[0] == s[i],
        s.skip(i).drop_first() == s.skip(i + 1),
{
    assert(s.skip(i).drop_first() =~= s.skip(i + 1));
}

impl ShowcaseWorld {
    /// The entity table, in spawn order.
    pub open spec fn table(&self) -> Seq<GameEntity> {
        self.entities@
    }

    /// An empty world: no entities, the cube on screen, the helmet not loaded.
    pub fn new() -> (world: Self)
        ensures
            world.table() == Seq::<GameEntity>::empty(),
            !world.scene.show_helmet,
            !world.scene.helmet_loaded,
            world.scene.helmet_meshes@ == Seq::<Entity>::empty(),
    {
        ShowcaseWorld {
            entities: Vec::new(),
            scene: SceneState { show_helmet: false, helmet_loaded: false, helmet_meshes: Vec::new() },
        }
    }

    /// Number of game entities.
    pub fn len(&self) -> (n: usize)
        ensures
            n == self.table().len(),
    {
        self.entities.len()
    }

    /// Spawns a game entity that carries a subject of `kind` linked to the
    /// engine entity `engine`.
    pub fn spawn_subject(&mut self, kind: SubjectKind, engine: Entity)
        ensures
            final(self).table() == old(self).table().push(subject_entity(kind, engine)),
            final(self).scene == old(self).scene,
    {
        self.entities.push(
            GameEntity {
                subject: Some(Subject { kind }),
                pick_marker: None,
                engine_entity: Some(EngineEntity(engine)),
            },
        );
    }

    /// Spawns a game entity that carries the pick marker linked to the engine
    /// entity `engine`.
    pub fn spawn_pick_marker(&mut self, engine: Entity)
        ensures
            final(self).table() == old(self).table().push(marker_entity(engine)),
            final(self).scene == old(self).scene,
    {
        self.entities.push(
            GameEntity { subject: None, pick_marker: Some(PickMarker), engine_entity: Some(EngineEntity(engine)) },
        );
    }
}

/// Engine entity of the subject of the given kind, if it exists.
pub fn subject_engine(showcase_world: &ShowcaseWorld, kind: SubjectKind) -> (found: Option<Entity>)
    ensures
        found == first_subject_engine(showcase_world.table(), kind),
{
    let n = showcase_world.entities.len();
    let mut i: usize = 0;
    assert(showcase_world.table().skip(0) =~= showcase_world.table());
    while i < n
        invariant
            n == showcase_world.table().len(),
            0 <= i <= n,
            first_subject_engine(showcase_world.table(), kind) == first_subject_engine(
                showcase_world.table().skip(i as int),
                kind,
            ),
        decreases n - i,
    {
        let entity = showcase_world.entities[i];
        proof {
            lemma_skip_step(showcase_world.table(), i as int);
        }
        if let Some(subject) = entity.subject {
            if subject.kind == kind {
                if let Some(link) = entity.engine_entity {
                    return Some(link.0);
                }
            }
        }
        i = i + 1;
    }
    assert(showcase_world.table().skip(i as int).len() == 0);
    None
}

/// Engine entity of the subject currently on screen.
pub fn active_subject_engine(showcase_world: &ShowcaseWorld, show_helmet: bool) -> (found: Option<Entity>)
    ensures
        found == first_subject_engine(showcase_world.table(), kind_on_screen(show_helmet)),
{
    let kind = if show_helmet {
        SubjectKind::Helmet
    } else {
        SubjectKind::Cube
    };
    subject_engine(showcase_world, kind)
}

/// Engine entity of the pick marker.
pub fn marker_engine(showcase_world: &ShowcaseWorld) -> (found: Option<Entity>)
    ensures
        found == first_marker_engine(showcase_world.table()),
{
    let n = showcase_world.entities.len();
    let mut i: usize = 0;
    assert(showcase_world.table().skip(0) =~= showcase_world.table());
    while i < n
        invariant
            n == showcase_world.table().len(),
            0 <= i <= n,
            first_marker_engine(showcase_world.table()) == first_marker_engine(
                showcase_world.table().skip(i as int),
            ),
        decreases n - i,
    {
        let entity = showcase_world.entities[i];
        proof {
            lemma_skip_step(showcase_world.table(), i as int);
        }
        if entity.pick_marker.is_some() {
            if let Some(link) = entity.engine_entity {
                return Some(link.0);
            }
        }
        i = i + 1;
    }
    assert(showcase_world.table().skip(i as int).len() == 0);
    None
}

} // verus!

verus! {

/// Appending a game entity never changes an answer the table already gave;
/// where the table had none, the new entity answers if it qualifies.
pub proof fn lemma_subject_search_push(table: Seq<GameEntity>, entity: GameEntity, kind: SubjectKind)
    ensures
        first_subject_engine(table.push(entity), kind) == (match first_subject_engine(table, kind) {
            Some(found) => Some(found),
            None => first_subject_engine(seq![entity], kind),
        }),
    decreases table.len(),
{
    if table.len() == 0 {
        assert(table.push(entity) =~= seq![entity]);
    } else {
        assert(table.push(entity).drop_first() =~= table.drop_first().push(entity));
        lemma_subject_search_push(table.drop_first(), entity, kind);
    }
}

/// The marker search behaves like the subject search under appends.
pub proof fn lemma_marker_search_push(table: Seq<GameEntity>, entity: GameEntity)
    ensures
        first_marker_engine(table.push(entity)) == (match first_marker_engine(table) {
            Some(found) => Some(found),
            None => first_marker_engine(seq![entity]),
        }),
    decreases table.len(),
{
    if table.len() == 0 {
        assert(table.push(entity) =~= seq![entity]);
    } else {
        assert(table.push(entity).drop_first() =~= table.drop_first().push(entity));
        lemma_marker_search_push(table.drop_first(), entity);
    }
}

} // verus!
