use monster_ai::systems::{
    draw_jumps, monster_change_direction_on_contact, monster_jumps, monster_jumps_with,
    monster_wall_contact_detection, monster_walking_system,
};
use monster_ai::{
    Bug, CollisionEvent, Entity, GameDirection, Jumper, MonsterWalkedIntoWallEvent, Row, Scalar,
    Velocity, World,
};

fn scalar(value: f32) -> Scalar {
    Scalar::from_bits(value.to_bits())
}

fn entity(id: u64) -> Entity {
    Entity::from_bits(id)
}

fn monster(id: u64, facing_direction: GameDirection, speed: f32) -> Row {
    Row {
        entity: entity(id),
        bug: Some(Bug { facing_direction, speed: scalar(speed) }),
        jumper: None,
        velocity: Some(Velocity { x: scalar(0.0), y: scalar(-9.5) }),
    }
}

fn jumping_monster(id: u64, jump_impulse: f32) -> Row {
    Row {
        jumper: Some(Jumper { jump_impulse: scalar(jump_impulse) }),
        ..monster(id, GameDirection::Right, 50.0)
    }
}

fn player(id: u64) -> Row {
    Row {
        entity: entity(id),
        bug: None,
        jumper: Some(Jumper { jump_impulse: scalar(200.0) }),
        velocity: Some(Velocity { x: scalar(3.0), y: scalar(4.0) }),
    }
}

fn wall(id: u64) -> Row {
    Row { entity: entity(id), bug: None, jumper: None, velocity: None }
}

fn world_of(rows: &[Row]) -> World {
    let mut world = World::new();
    for row in rows {
        assert!(world.spawn(*row));
    }
    world
}

fn rows(world: &World) -> Vec<Row> {
    let mut rows = Vec::new();
    let mut index: usize = 0;
    while let Some(row) = world.row_at(index) {
        rows.push(row);
        index += 1;
    }
    rows
}

fn contact(id: u64) -> MonsterWalkedIntoWallEvent {
    MonsterWalkedIntoWallEvent { entity: entity(id) }
}

fn facing(world: &World, id: u64) -> GameDirection {
    world.get(entity(id)).unwrap().bug.unwrap().facing_direction
}

fn velocity(world: &World, id: u64) -> (f32, f32) {
    let velocity = world.get(entity(id)).unwrap().velocity.unwrap();
    (f32::from_bits(velocity.x.to_bits()), f32::from_bits(velocity.y.to_bits()))
}

#[test]
fn walking_right_sets_the_speed() {
    let mut world = world_of(&[monster(1, GameDirection::Right, 50.0)]);
    monster_walking_system(&mut world);
    assert_eq!(velocity(&world, 1), (50.0, -9.5));
}

#[test]
fn walking_left_sets_the_negated_speed() {
    let mut world = world_of(&[monster(1, GameDirection::Left, 50.0)]);
    monster_walking_system(&mut world);
    assert_eq!(velocity(&world, 1), (-50.0, -9.5));
}

#[test]
fn walking_moves_every_monster_and_nothing_else() {
    let before = [
        monster(1, GameDirection::Right, 50.0),
        player(2),
        monster(3, GameDirection::Left, 20.0),
        wall(4),
        Row { velocity: None, ..monster(5, GameDirection::Left, 20.0) },
    ];
    let mut world = world_of(&before);
    monster_walking_system(&mut world);
    assert_eq!(
        rows(&world),
        vec![
            Row {
                velocity: Some(Velocity { x: scalar(50.0), y: scalar(-9.5) }),
                ..before[0]
            },
            before[1],
            Row {
                velocity: Some(Velocity { x: scalar(-20.0), y: scalar(-9.5) }),
                ..before[2]
            },
            before[3],
            before[4],
        ]
    );
}

#[test]
fn walking_twice_is_walking_once() {
    let mut world = world_of(&[
        monster(1, GameDirection::Right, 50.0),
        monster(3, GameDirection::Left, 20.0),
    ]);
    monster_walking_system(&mut world);
    let once = rows(&world);
    monster_walking_system(&mut world);
    assert_eq!(rows(&world), once);
}

#[test]
fn walking_on_an_empty_world() {
    let mut world = World::new();
    monster_walking_system(&mut world);
    assert_eq!(world.len(), 0);
}

#[test]
fn detection_notifies_the_monster_of_a_started_collision() {
    let world = world_of(&[monster(1, GameDirection::Right, 50.0), wall(2)]);
    let mut sent = Vec::new();
    monster_wall_contact_detection(
        &world,
        &vec![CollisionEvent::Started(entity(1), entity(2))],
        &mut sent,
    );
    assert_eq!(sent, vec![contact(1)]);
}

#[test]
fn detection_looks_at_both_participants() {
    let world = world_of(&[monster(1, GameDirection::Right, 50.0), wall(2)]);
    let mut sent = Vec::new();
    monster_wall_contact_detection(
        &world,
        &vec![CollisionEvent::Started(entity(2), entity(1))],
        &mut sent,
    );
    assert_eq!(sent, vec![contact(1)]);
}

#[test]
fn detection_notifies_two_monsters_in_table_order() {
    let world = world_of(&[
        monster(7, GameDirection::Right, 50.0),
        wall(2),
        monster(1, GameDirection::Left, 50.0),
    ]);
    let mut sent = Vec::new();
    monster_wall_contact_detection(
        &world,
        &vec![CollisionEvent::Started(entity(1), entity(7))],
        &mut sent,
    );
    assert_eq!(sent, vec![contact(7), contact(1)]);
}

#[test]
fn detection_notifies_once_for_a_collision_with_itself() {
    let world = world_of(&[monster(1, GameDirection::Right, 50.0)]);
    let mut sent = Vec::new();
    monster_wall_contact_detection(
        &world,
        &vec![CollisionEvent::Started(entity(1), entity(1))],
        &mut sent,
    );
    assert_eq!(sent, vec![contact(1)]);
}

#[test]
fn detection_ignores_stopped_collisions() {
    let world = world_of(&[monster(1, GameDirection::Right, 50.0), wall(2)]);
    let mut sent = Vec::new();
    monster_wall_contact_detection(
        &world,
        &vec![CollisionEvent::Stopped(entity(1), entity(2))],
        &mut sent,
    );
    assert_eq!(sent, vec![]);
}

#[test]
fn detection_ignores_collisions_without_a_monster() {
    let world = world_of(&[monster(1, GameDirection::Right, 50.0), player(2), wall(3)]);
    let mut sent = Vec::new();
    monster_wall_contact_detection(
        &world,
        &vec![
            CollisionEvent::Started(entity(2), entity(3)),
            CollisionEvent::Started(entity(8), entity(9)),
        ],
        &mut sent,
    );
    assert_eq!(sent, vec![]);
}

#[test]
fn detection_does_not_merge_collisions_of_one_monster() {
    let world = world_of(&[monster(1, GameDirection::Right, 50.0), wall(2), wall(3)]);
    let mut sent = Vec::new();
    monster_wall_contact_detection(
        &world,
        &vec![
            CollisionEvent::Started(entity(1), entity(2)),
            CollisionEvent::Started(entity(3), entity(1)),
            CollisionEvent::Started(entity(1), entity(2)),
        ],
        &mut sent,
    );
    assert_eq!(sent, vec![contact(1), contact(1), contact(1)]);
}

#[test]
fn detection_follows_the_order_of_the_collisions() {
    let world = world_of(&[
        monster(1, GameDirection::Right, 50.0),
        monster(2, GameDirection::Right, 50.0),
        monster(3, GameDirection::Right, 50.0),
        wall(4),
    ]);
    let mut sent = Vec::new();
    monster_wall_contact_detection(
        &world,
        &vec![
            CollisionEvent::Started(entity(3), entity(4)),
            CollisionEvent::Stopped(entity(2), entity(4)),
            CollisionEvent::Started(entity(2), entity(1)),
            CollisionEvent::Started(entity(4), entity(4)),
        ],
        &mut sent,
    );
    assert_eq!(sent, vec![contact(3), contact(1), contact(2)]);
}

#[test]
fn detection_appends_to_what_was_sent_before() {
    let world = world_of(&[monster(1, GameDirection::Right, 50.0)]);
    let mut sent = vec![contact(42)];
    monster_wall_contact_detection(
        &world,
        &vec![CollisionEvent::Started(entity(1), entity(2))],
        &mut sent,
    );
    assert_eq!(sent, vec![contact(42), contact(1)]);
}

#[test]
fn detection_without_collisions_sends_nothing() {
    let world = world_of(&[monster(1, GameDirection::Right, 50.0)]);
    let mut sent = Vec::new();
    monster_wall_contact_detection(&world, &Vec::new(), &mut sent);
    assert_eq!(sent, vec![]);
}

#[test]
fn contact_turns_the_monster_around() {
    let before = [monster(1, GameDirection::Right, 50.0), monster(2, GameDirection::Right, 50.0)];
    let mut world = world_of(&before);
    monster_change_direction_on_contact(&vec![contact(2)], &mut world);
    assert_eq!(rows(&world), vec![before[0], monster(2, GameDirection::Left, 50.0)]);
    monster_change_direction_on_contact(&vec![contact(2)], &mut world);
    assert_eq!(rows(&world), before.to_vec());
}

#[test]
fn two_contacts_in_one_batch_cancel() {
    let mut world = world_of(&[monster(1, GameDirection::Left, 50.0)]);
    monster_change_direction_on_contact(&vec![contact(1), contact(1)], &mut world);
    assert_eq!(facing(&world, 1), GameDirection::Left);
    monster_change_direction_on_contact(&vec![contact(1), contact(1), contact(1)], &mut world);
    assert_eq!(facing(&world, 1), GameDirection::Right);
}

#[test]
fn contact_of_a_removed_monster_is_passed_over() {
    let mut world = world_of(&[
        monster(1, GameDirection::Right, 50.0),
        monster(2, GameDirection::Right, 50.0),
        monster(3, GameDirection::Left, 50.0),
    ]);
    world.despawn(entity(2));
    monster_change_direction_on_contact(&vec![contact(1), contact(2), contact(3)], &mut world);
    assert_eq!(
        rows(&world),
        vec![monster(1, GameDirection::Left, 50.0), monster(3, GameDirection::Right, 50.0)]
    );
}

#[test]
fn contact_of_an_unknown_entity_changes_nothing() {
    let before = [monster(1, GameDirection::Right, 50.0), player(2)];
    let mut world = world_of(&before);
    monster_change_direction_on_contact(&vec![contact(77)], &mut world);
    assert_eq!(rows(&world), before.to_vec());
}

#[test]
fn contact_of_an_entity_that_is_no_monster_changes_nothing() {
    let before = [monster(1, GameDirection::Right, 50.0), player(2), wall(3)];
    let mut world = world_of(&before);
    monster_change_direction_on_contact(&vec![contact(2), contact(3)], &mut world);
    assert_eq!(rows(&world), before.to_vec());
}

#[test]
fn contact_leaves_speed_and_velocity_alone() {
    let mut world = world_of(&[jumping_monster(1, 120.0)]);
    monster_change_direction_on_contact(&vec![contact(1)], &mut world);
    let mut expected = jumping_monster(1, 120.0);
    expected.bug = Some(Bug { facing_direction: GameDirection::Left, speed: scalar(50.0) });
    assert_eq!(rows(&world), vec![expected]);
}

#[test]
fn no_contacts_change_nothing() {
    let before = [monster(1, GameDirection::Right, 50.0)];
    let mut world = world_of(&before);
    monster_change_direction_on_contact(&Vec::new(), &mut world);
    assert_eq!(rows(&world), before.to_vec());
}

#[test]
fn lucky_jumper_gets_its_impulse() {
    let mut world = world_of(&[jumping_monster(1, 120.0)]);
    monster_jumps_with(&mut world, &vec![true]);
    assert_eq!(velocity(&world, 1), (0.0, 120.0));
    let mut expected = jumping_monster(1, 120.0);
    expected.velocity = Some(Velocity { x: scalar(0.0), y: scalar(120.0) });
    assert_eq!(rows(&world), vec![expected]);
}

#[test]
fn jump_keeps_the_horizontal_velocity() {
    let mut world = world_of(&[jumping_monster(1, 120.0)]);
    monster_walking_system(&mut world);
    monster_jumps_with(&mut world, &vec![true]);
    assert_eq!(velocity(&world, 1), (50.0, 120.0));
}

#[test]
fn unlucky_jumper_stays() {
    let before = [jumping_monster(1, 120.0)];
    let mut world = world_of(&before);
    monster_jumps_with(&mut world, &vec![false]);
    assert_eq!(rows(&world), before.to_vec());
}

#[test]
fn only_monsters_that_can_jump_do() {
    let before = [
        monster(1, GameDirection::Right, 50.0),
        player(2),
        wall(3),
        Row { velocity: None, ..jumping_monster(4, 120.0) },
        jumping_monster(5, 80.0),
    ];
    let mut world = world_of(&before);
    monster_jumps_with(&mut world, &vec![true, true, true, true, true]);
    let mut jumped = before[4];
    jumped.velocity = Some(Velocity { x: scalar(0.0), y: scalar(80.0) });
    assert_eq!(rows(&world), vec![before[0], before[1], before[2], before[3], jumped]);
}

#[test]
fn draws_belong_to_rows_by_position() {
    let before = [jumping_monster(1, 10.0), jumping_monster(2, 20.0), jumping_monster(3, 30.0)];
    let mut world = world_of(&before);
    monster_jumps_with(&mut world, &vec![false, true, false]);
    assert_eq!(velocity(&world, 1), (0.0, -9.5));
    assert_eq!(velocity(&world, 2), (0.0, 20.0));
    assert_eq!(velocity(&world, 3), (0.0, -9.5));
}

#[test]
fn rows_without_a_draw_stay() {
    let before = [jumping_monster(1, 10.0), jumping_monster(2, 20.0)];
    let mut world = world_of(&before);
    monster_jumps_with(&mut world, &vec![true]);
    assert_eq!(velocity(&world, 1), (0.0, 10.0));
    assert_eq!(velocity(&world, 2), (0.0, -9.5));
    let mut world = world_of(&before);
    monster_jumps_with(&mut world, &Vec::new());
    assert_eq!(rows(&world), before.to_vec());
    let mut world = world_of(&before);
    monster_jumps_with(&mut world, &vec![false, true, true, true]);
    assert_eq!(velocity(&world, 1), (0.0, -9.5));
    assert_eq!(velocity(&world, 2), (0.0, 20.0));
}

#[test]
fn draw_jumps_draws_only_for_jumpers() {
    let world = world_of(&[
        monster(1, GameDirection::Right, 50.0),
        player(2),
        jumping_monster(3, 120.0),
        wall(4),
    ]);
    for _ in 0..200 {
        let draws = draw_jumps(&world);
        assert_eq!(draws.len(), 4);
        assert!(!draws[0]);
        assert!(!draws[1]);
        assert!(!draws[3]);
    }
}

#[test]
fn draw_jumps_is_lucky_about_one_time_in_ten() {
    let world = world_of(&[jumping_monster(3, 120.0)]);
    let mut lucky: u32 = 0;
    for _ in 0..10000 {
        if draw_jumps(&world)[0] {
            lucky += 1;
        }
    }
    assert!(500 < lucky && lucky < 1500, "{} lucky draws in 10000", lucky);
}

#[test]
fn random_jumps_change_only_jumpers() {
    let before = [
        monster(1, GameDirection::Right, 50.0),
        player(2),
        jumping_monster(3, 120.0),
        wall(4),
        jumping_monster(5, 80.0),
    ];
    let mut stayed: u32 = 0;
    let mut jumped: u32 = 0;
    for _ in 0..2000 {
        let mut world = world_of(&before);
        monster_jumps(&mut world);
        let after = rows(&world);
        assert_eq!(after.len(), 5);
        assert_eq!(after[0], before[0]);
        assert_eq!(after[1], before[1]);
        assert_eq!(after[3], before[3]);
        for index in [2, 4] {
            let mut in_the_air = before[index];
            in_the_air.velocity = Some(Velocity {
                x: scalar(0.0),
                y: before[index].jumper.unwrap().jump_impulse,
            });
            if after[index] == before[index] {
                stayed += 1;
            } else {
                assert_eq!(after[index], in_the_air);
                jumped += 1;
            }
        }
    }
    assert!(jumped > 0);
    assert!(stayed > jumped);
}
