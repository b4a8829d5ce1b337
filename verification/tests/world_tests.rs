use dungeon_crawler_server::catalog::default_catalog;
use dungeon_crawler_server::catalog::MonsterCatalog;
use dungeon_crawler_server::dungeon::Dungeon;
use dungeon_crawler_server::handler::handle_request;
use dungeon_crawler_server::handler::new_world;
use dungeon_crawler_server::handler::run_tick;
use dungeon_crawler_server::handler::tick_monsters;
use dungeon_crawler_server::handler::WorldState;
use dungeon_crawler_server::monsters::Monster;
use dungeon_crawler_server::stats::Attributes;
use dungeon_crawler_server::stats::Stats;
use dungeon_crawler_server::transforms::transform::Direction;
use dungeon_crawler_server::transforms::transform::Transform;
use dungeon_crawler_server::transforms::vec2::Vec2;
use dungeon_crawler_server::types::RequestType;
use dungeon_crawler_server::types::ResponseType;

fn line_dungeon(len: i32) -> Dungeon {
    let mut paths = Vec::new();
    for x in 0..len {
        paths.push(Vec2(x, 0));
    }
    Dungeon::new(Vec2(0, 0), paths)
}

fn line_world(len: i32) -> WorldState {
    new_world(line_dungeon(len), default_catalog())
}

fn ghost() -> Monster {
    Monster {
        stats: Stats {
            cur_health: 10,
            max_health: 10,
            cur_stamina: 5,
            max_stamina: 5,
            cur_magicka: 10,
            max_magicka: 10,
        },
        attrs: Attributes {
            might: 1,
            fines: 3,
            intel: 5,
        },
        sight_range: 4,
        id: 1,
        name: "Ghost",
        spawn_chance: 3,
    }
}

#[test]
fn test_first_player_snapshot_is_alone_at_entrance() {
    let mut world = line_world(4);
    let resp = handle_request(
        &mut world,
        RequestType::NewPlayer("client-1".to_string(), 1),
    );
    match resp {
        Some(ResponseType::StateSnapshot(s)) => {
            assert_eq!(s.addr_for, "client-1");
            assert_eq!(s.new_player.0, 1);
            assert_eq!(s.new_player.1, "");
            assert_eq!(s.new_player.2, Vec2(0, 0));
            assert!(s.other_players.is_empty());
            assert!(s.monsters.is_empty());
            assert_eq!(s.dungeon.entrance, Vec2(0, 0));
            assert_eq!(s.dungeon.paths.len(), 4);
            assert_eq!(s.all_player_ts.len(), 1);
            assert_eq!(s.all_player_ts[0].0, 1);
            assert_eq!(s.all_player_ts[0].1.position, Vec2(0, 0));
        }
        _ => panic!("expected a snapshot"),
    }
}

#[test]
fn test_second_player_sees_first_and_first_is_not_resent() {
    let mut world = line_world(4);
    let r1 = handle_request(
        &mut world,
        RequestType::NewPlayer("client-1".to_string(), 1),
    );
    // Exactly one response per join: player 1's snapshot exists and is the
    // only response produced; nothing is resent when player 2 joins.
    assert!(matches!(r1, Some(ResponseType::StateSnapshot(_))));
    let r2 = handle_request(
        &mut world,
        RequestType::NewPlayer("client-2".to_string(), 2),
    );
    match r2 {
        Some(ResponseType::StateSnapshot(s)) => {
            assert_eq!(s.addr_for, "client-2");
            assert_eq!(s.new_player.0, 2);
            assert_eq!(s.other_players.len(), 1);
            assert_eq!(s.other_players[0].0, 1);
            assert_eq!(s.other_players[0].1, "");
            assert_eq!(s.other_players[0].2, Vec2(0, 0));
            assert_eq!(s.all_player_ts.len(), 2);
        }
        _ => panic!("expected a snapshot"),
    }
}

#[test]
fn test_duplicate_player_id_is_dropped() {
    let mut world = line_world(4);
    let r1 = handle_request(&mut world, RequestType::NewPlayer("a".to_string(), 1));
    assert!(r1.is_some());
    let r2 = handle_request(&mut world, RequestType::NewPlayer("b".to_string(), 1));
    assert!(r2.is_none());
    assert_eq!(world.players.len(), 1);
}

#[test]
fn test_spawns_give_distinct_positions_and_registrations() {
    let mut world = line_world(6);
    let mut positions = Vec::new();
    for id in [10, 11, 12] {
        match handle_request(&mut world, RequestType::SpawnMonster(id)) {
            Some(ResponseType::NewMonster(template_id, instance_id, pos, dir)) => {
                assert_eq!(template_id, 0);
                assert_eq!(instance_id, id);
                assert_eq!(dir, Direction::Right);
                positions.push(pos);
            }
            _ => panic!("expected a spawn response"),
        }
    }
    assert_eq!(world.monsters.len(), 3);
    for i in 0..positions.len() {
        for j in 0..i {
            assert_ne!(positions[i], positions[j]);
        }
    }
    // One transform registration per monster, at the announced position.
    for (i, id) in [10u32, 11, 12].iter().enumerate() {
        let t = world.transformer.transform(*id).unwrap();
        assert_eq!(t.position, positions[i]);
    }
}

#[test]
fn test_duplicate_monster_id_is_dropped() {
    let mut world = line_world(6);
    assert!(handle_request(&mut world, RequestType::SpawnMonster(10)).is_some());
    assert!(handle_request(&mut world, RequestType::SpawnMonster(10)).is_none());
    assert_eq!(world.monsters.len(), 1);
}

#[test]
fn test_spawn_with_no_free_tile_is_dropped() {
    let mut world = line_world(1);
    // The lone tile is the entrance; the player takes it.
    assert!(handle_request(&mut world, RequestType::NewPlayer("a".to_string(), 1)).is_some());
    assert!(handle_request(&mut world, RequestType::SpawnMonster(10)).is_none());
    assert_eq!(world.monsters.len(), 0);
}

#[test]
fn test_player_moved_is_idempotent() {
    let mut world = line_world(4);
    handle_request(&mut world, RequestType::NewPlayer("a".to_string(), 1));
    let t = Transform::with_values(Vec2(2, 0), Direction::Up);
    assert!(handle_request(&mut world, RequestType::PlayerMoved(1, t)).is_none());
    let first = world.transformer.clone_transforms();
    assert!(handle_request(&mut world, RequestType::PlayerMoved(1, t)).is_none());
    let second = world.transformer.clone_transforms();
    assert_eq!(first.len(), 1);
    assert_eq!(first, second);
    assert_eq!(world.transformer.transform(1).unwrap(), t);
}

#[test]
fn test_player_moved_unknown_id_changes_nothing() {
    let mut world = line_world(4);
    handle_request(&mut world, RequestType::NewPlayer("a".to_string(), 1));
    let before = world.transformer.clone_transforms();
    let t = Transform::with_values(Vec2(3, 0), Direction::Down);
    assert!(handle_request(&mut world, RequestType::PlayerMoved(7, t)).is_none());
    assert_eq!(before, world.transformer.clone_transforms());
}

#[test]
fn test_astar_updates_every_path_with_a_valid_route() {
    let mut world = line_world(4);
    handle_request(&mut world, RequestType::SpawnMonster(10));
    // The monster takes the first free tile, the entrance end of the line.
    let start = world.transformer.transform(10).unwrap().position;
    assert_eq!(start, Vec2(0, 0));
    assert!(handle_request(&mut world, RequestType::AStar(Vec2(3, 0))).is_none());
    assert_eq!(world.monsters.len(), 1);
    let path = world.monsters[0].path.clone();
    // Stored in reverse order of travel: goal first, next step last.
    assert_eq!(path, vec![Vec2(3, 0), Vec2(2, 0), Vec2(1, 0)]);
    // Walking it step by step respects adjacency from the start.
    let mut at = start;
    let mut m = world.monsters.remove(0);
    while let Some(step) = m.next_step() {
        let dx = (at.0 - step.0).abs();
        let dy = (at.1 - step.1).abs();
        assert_eq!(dx + dy, 1, "step from {:?} to {:?} not adjacent", at, step);
        at = step;
    }
    assert_eq!(at, Vec2(3, 0));
}

#[test]
fn test_astar_to_unreachable_target_leaves_empty_path() {
    let mut world = line_world(4);
    handle_request(&mut world, RequestType::SpawnMonster(10));
    assert!(handle_request(&mut world, RequestType::AStar(Vec2(9, 9))).is_none());
    assert!(world.monsters[0].path.is_empty());
}

#[test]
fn test_one_tick_advances_every_monster_once() {
    let mut world = line_world(8);
    for id in [10, 11, 12] {
        handle_request(&mut world, RequestType::SpawnMonster(id));
    }
    // Without a request.
    assert_eq!(tick_monsters(&mut world, 1), 3);
    // With a request handled in the same tick.
    let t = Transform::with_values(Vec2(4, 0), Direction::Up);
    handle_request(&mut world, RequestType::NewPlayer("a".to_string(), 1));
    let (resp, advanced) = run_tick(&mut world, Some(RequestType::PlayerMoved(1, t)), 2);
    assert!(resp.is_none());
    assert_eq!(advanced, 3);
}

#[test]
fn test_mixed_catalog_spawns_both_kinds() {
    let catalog = MonsterCatalog::new(vec![
        dungeon_crawler_server::catalog::default_catalog().templates[0],
        ghost(),
    ])
    .unwrap();
    let mut world = new_world(line_dungeon(200), catalog);
    let mut goblins = 0u32;
    let mut ghosts = 0u32;
    for id in 0..150u32 {
        match handle_request(&mut world, RequestType::SpawnMonster(id)) {
            Some(ResponseType::NewMonster(template_id, _, _, _)) => {
                if template_id == 0 {
                    goblins += 1;
                } else {
                    ghosts += 1;
                }
            }
            _ => panic!("expected a spawn response"),
        }
    }
    assert_eq!(goblins + ghosts, 150);
    // With weights 10:3 over 150 spawns, both kinds all but surely appear.
    assert!(goblins > 0);
    assert!(ghosts > 0);
}

#[test]
fn test_astar_to_adjacent_tile_yields_one_step() {
    let mut world = line_world(4);
    handle_request(&mut world, RequestType::SpawnMonster(10));
    assert_eq!(
        world.transformer.transform(10).unwrap().position,
        Vec2(0, 0)
    );
    // A walkable goal one step away is owed a route outright.
    assert!(handle_request(&mut world, RequestType::AStar(Vec2(1, 0))).is_none());
    assert_eq!(world.monsters[0].path, vec![Vec2(1, 0)]);
}

#[test]
fn test_astar_to_own_tile_leaves_empty_path() {
    let mut world = line_world(4);
    handle_request(&mut world, RequestType::SpawnMonster(10));
    let own = world.transformer.transform(10).unwrap().position;
    assert!(handle_request(&mut world, RequestType::AStar(own)).is_none());
    assert!(world.monsters[0].path.is_empty());
}
