use root_board::{initialize_map, setup_board, Faction, MapError, MapType, Structure, Suit, Token};

fn sorted(mut v: Vec<usize>) -> Vec<usize> {
    v.sort();
    v
}

#[test]
fn simple_layout_shape() {
    let map = initialize_map(MapType::Simple);
    assert_eq!(map.get_clearings(), vec![0, 1]);
    let left = map.get_clearing(0).unwrap();
    let right = map.get_clearing(1).unwrap();
    assert_eq!(left.suit, Suit::Bird);
    assert_eq!(left.build_spots, 2);
    assert_eq!(right.build_spots, 1);
    assert!(left.corner && right.corner);
    assert_eq!(map.get_connected(0).unwrap(), vec![1]);
    assert_eq!(map.get_connected(1).unwrap(), vec![0]);
    assert_eq!(map.get_corners().get(&0), Some(&1));
    assert_eq!(map.get_corners().get(&1), Some(&0));
}

#[test]
fn v_layout_shape() {
    let map = initialize_map(MapType::V);
    assert_eq!(map.get_clearings(), vec![0, 1, 2]);
    let middle = map.get_clearing(2).unwrap();
    assert_eq!(middle.suit, Suit::Mouse);
    assert_eq!(middle.build_spots, 1);
    assert!(!middle.corner);
    assert_eq!(sorted(map.get_connected(2).unwrap()), vec![0, 1]);
    assert_eq!(map.get_connected(0).unwrap(), vec![2]);
    assert_eq!(map.get_corners().len(), 2);
    assert_eq!(map.get_corners().get(&0), Some(&1));
}

#[test]
fn fall_layout_shape() {
    let map = initialize_map(MapType::Fall);
    let ids = map.get_clearings();
    assert_eq!(ids, (0..12).collect::<Vec<usize>>());
    let ends: usize = ids.iter().map(|&i| map.get_connected(i).unwrap().len()).sum();
    assert_eq!(ends, 36);
    let corners = map.get_corners();
    assert_eq!(corners.len(), 4);
    assert_eq!(corners.get(&0), Some(&11));
    assert_eq!(corners.get(&11), Some(&0));
    assert_eq!(corners.get(&8), Some(&2));
    assert_eq!(corners.get(&2), Some(&8));
    let corner_flags: Vec<usize> =
        ids.iter().copied().filter(|&i| map.get_clearing(i).unwrap().corner).collect();
    assert_eq!(corner_flags, vec![0, 2, 8, 11]);
    assert_eq!(sorted(map.get_connected(5).unwrap()), vec![3, 4, 6, 8, 10]);
    assert_eq!(map.get_clearing(6).unwrap().build_spots, 3);
    assert_eq!(map.get_clearing(6).unwrap().suit, Suit::Mouse);
}

#[test]
fn setup_board_is_fall() {
    let map = setup_board();
    assert_eq!(map.get_clearings().len(), 12);
    assert_eq!(map.get_corners().len(), 4);
}

#[test]
fn corners_symmetric_in_every_layout() {
    for kind in [MapType::Simple, MapType::V, MapType::Fall] {
        let map = initialize_map(kind);
        for (a, b) in map.get_corners() {
            assert_ne!(a, b);
            assert_eq!(map.get_corners().get(b), Some(a));
            assert!(map.get_clearing(*a).unwrap().corner);
        }
    }
}

#[test]
fn fresh_clearings_are_empty() {
    let map = initialize_map(MapType::Fall);
    for i in map.get_clearings() {
        let c = map.get_clearing(i).unwrap();
        assert!(c.structures.is_empty());
        assert_eq!(c.warriors(Faction::Marquise), 0);
        assert_eq!(c.warriors(Faction::Eyrie), 0);
        assert_eq!(c.tokens(Token::Keep), 0);
        assert_eq!(c.tokens(Token::Wood), 0);
        assert_eq!(c.rule, Faction::NoFaction);
        assert!(c.buildable());
    }
}

#[test]
fn keep_on_simple_left_seeds_all_but_opposite() {
    let mut map = initialize_map(MapType::Simple);
    assert_eq!(map.place_keep(0), Ok(()));
    let left = map.get_clearing(0).unwrap();
    let right = map.get_clearing(1).unwrap();
    assert_eq!(right.warriors(Faction::Marquise), 0);
    assert_eq!(left.tokens(Token::Keep), 1);
    assert_eq!(left.warriors(Faction::Marquise), 1);
}

#[test]
fn keep_on_fall_seeds_all_but_opposite() {
    let mut map = initialize_map(MapType::Fall);
    assert_eq!(map.place_keep(8), Ok(()));
    for i in map.get_clearings() {
        let expected = if i == 2 { 0 } else { 1 };
        assert_eq!(map.get_clearing(i).unwrap().warriors(Faction::Marquise), expected);
        let keep = if i == 8 { 1 } else { 0 };
        assert_eq!(map.get_clearing(i).unwrap().tokens(Token::Keep), keep);
    }
}

#[test]
fn keep_placed_twice_is_refused() {
    let mut map = initialize_map(MapType::Fall);
    assert_eq!(map.place_keep(0), Ok(()));
    assert_eq!(map.place_keep(0), Err(MapError::AlreadyPlaced));
    assert_eq!(map.place_keep(2), Err(MapError::AlreadyPlaced));
    let keeps: usize = map
        .get_clearings()
        .iter()
        .map(|&i| map.get_clearing(i).unwrap().tokens(Token::Keep) as usize)
        .sum();
    assert_eq!(keeps, 1);
    let marquise: usize = map
        .get_clearings()
        .iter()
        .map(|&i| map.get_clearing(i).unwrap().warriors(Faction::Marquise) as usize)
        .sum();
    assert_eq!(marquise, 11);
}

#[test]
fn keep_off_corner_is_illegal() {
    let mut map = initialize_map(MapType::Fall);
    assert_eq!(map.place_keep(5), Err(MapError::IllegalPlacement));
    assert_eq!(map.place_keep(99), Err(MapError::IllegalPlacement));
    assert_eq!(map.get_clearing(5).unwrap().tokens(Token::Keep), 0);
    assert_eq!(map.get_clearing(5).unwrap().warriors(Faction::Marquise), 0);
}

#[test]
fn keep_refused_when_a_tally_would_overflow() {
    let mut map = initialize_map(MapType::V);
    assert_eq!(map.place_warrior(2, Faction::Marquise, 255), Ok(()));
    assert_eq!(map.place_keep(0), Err(MapError::InvalidArgument));
    assert_eq!(map.get_clearing(0).unwrap().tokens(Token::Keep), 0);
    assert_eq!(map.get_clearing(0).unwrap().warriors(Faction::Marquise), 0);
    let mut other = initialize_map(MapType::V);
    assert_eq!(other.place_warrior(1, Faction::Marquise, 255), Ok(()));
    assert_eq!(other.place_keep(0), Ok(()));
    assert_eq!(other.get_clearing(1).unwrap().warriors(Faction::Marquise), 255);
}

#[test]
fn second_structure_on_single_spot_exceeds_capacity() {
    let mut map = initialize_map(MapType::Fall);
    assert_eq!(map.get_clearing(0).unwrap().build_spots, 1);
    assert_eq!(map.place_structure(0, Structure::Sawmill), Ok(()));
    assert_eq!(map.place_structure(0, Structure::Workshop), Err(MapError::CapacityExceeded));
    assert_eq!(map.get_clearing(0).unwrap().structures, vec![Structure::Sawmill]);
}

#[test]
fn structures_never_exceed_build_spots() {
    let mut map = initialize_map(MapType::Fall);
    let kinds = [Structure::Sawmill, Structure::Workshop, Structure::Recruiter];
    for round in 0..4 {
        for i in map.get_clearings() {
            let _ = map.place_structure(i, kinds[round % 3]);
        }
    }
    for i in map.get_clearings() {
        let c = map.get_clearing(i).unwrap();
        assert_eq!(c.structures.len(), c.build_spots as usize);
        assert!(!c.buildable());
    }
    assert_eq!(map.get_clearing(6).unwrap().structures,
        vec![Structure::Sawmill, Structure::Workshop, Structure::Recruiter]);
}

#[test]
fn unknown_clearing_not_found() {
    let mut map = initialize_map(MapType::Simple);
    assert!(matches!(map.get_clearing(2), Err(MapError::NotFound)));
    assert_eq!(map.get_connected(2), Err(MapError::NotFound));
    assert_eq!(map.place_structure(2, Structure::Sawmill), Err(MapError::NotFound));
    assert_eq!(map.place_warrior(2, Faction::Eyrie, 1), Err(MapError::NotFound));
}

#[test]
fn warriors_accumulate() {
    let mut map = initialize_map(MapType::Simple);
    assert_eq!(map.place_warrior(1, Faction::Eyrie, 3), Ok(()));
    assert_eq!(map.place_warrior(1, Faction::Eyrie, 4), Ok(()));
    assert_eq!(map.place_warrior(1, Faction::NoFaction, 2), Ok(()));
    let c = map.get_clearing(1).unwrap();
    assert_eq!(c.warriors(Faction::Eyrie), 7);
    assert_eq!(c.warriors(Faction::NoFaction), 2);
    assert_eq!(c.warriors(Faction::Marquise), 0);
}

#[test]
fn warrior_tally_overflow_is_invalid() {
    let mut map = initialize_map(MapType::Simple);
    assert_eq!(map.place_warrior(0, Faction::Marquise, 200), Ok(()));
    assert_eq!(map.place_warrior(0, Faction::Marquise, 56), Err(MapError::InvalidArgument));
    assert_eq!(map.get_clearing(0).unwrap().warriors(Faction::Marquise), 200);
    assert_eq!(map.place_warrior(0, Faction::Marquise, 55), Ok(()));
    assert_eq!(map.get_clearing(0).unwrap().warriors(Faction::Marquise), 255);
}

#[test]
fn marquise_options_before_keep() {
    let map = initialize_map(MapType::Fall);
    assert_eq!(map.get_marquise_start_building_options(), Err(MapError::PreconditionViolation));
}

#[test]
fn marquise_options_are_keep_and_neighbours_with_room() {
    let mut map = initialize_map(MapType::Fall);
    assert_eq!(map.place_keep(0), Ok(()));
    assert_eq!(sorted(map.get_marquise_start_building_options().unwrap()), vec![0, 1, 3, 4]);
    assert_eq!(map.place_structure(0, Structure::Sawmill), Ok(()));
    assert_eq!(map.place_structure(3, Structure::Workshop), Ok(()));
    assert_eq!(map.place_structure(3, Structure::Recruiter), Ok(()));
    let options = map.get_marquise_start_building_options().unwrap();
    assert_eq!(sorted(options.clone()), vec![1, 4]);
    for x in options {
        assert!(map.get_clearing(x).unwrap().buildable());
    }
}

#[test]
fn eyrie_options_skip_the_keep() {
    let mut map = initialize_map(MapType::Fall);
    assert_eq!(map.get_eyrie_start_options(), vec![0, 2, 8, 11]);
    assert_eq!(map.place_keep(2), Ok(()));
    assert_eq!(map.get_eyrie_start_options(), vec![0, 8, 11]);
}

#[test]
fn eyrie_on_keep_corner_is_refused() {
    let mut map = initialize_map(MapType::Simple);
    assert_eq!(map.place_keep(0), Ok(()));
    assert_eq!(map.setup_eyrie(0), Err(MapError::AlreadyPlaced));
    assert!(map.get_clearing(0).unwrap().structures.is_empty());
    assert_eq!(map.get_clearing(0).unwrap().warriors(Faction::Eyrie), 0);
}

#[test]
fn eyrie_before_keep_is_out_of_order() {
    let mut map = initialize_map(MapType::Fall);
    assert_eq!(map.setup_eyrie(0), Err(MapError::PreconditionViolation));
    assert_eq!(map.setup_eyrie(5), Err(MapError::IllegalPlacement));
}

#[test]
fn eyrie_setup_places_roost_and_warriors() {
    let mut map = initialize_map(MapType::Fall);
    assert_eq!(map.place_keep(0), Ok(()));
    assert_eq!(map.setup_eyrie(11), Ok(()));
    let c = map.get_clearing(11).unwrap();
    assert_eq!(c.structures, vec![Structure::Roost]);
    assert_eq!(c.warriors(Faction::Eyrie), 6);
    assert_eq!(c.warriors(Faction::Marquise), 0);
}

#[test]
fn eyrie_on_full_corner_exceeds_capacity() {
    let mut map = initialize_map(MapType::Fall);
    assert_eq!(map.place_keep(0), Ok(()));
    assert_eq!(map.place_structure(11, Structure::Sawmill), Ok(()));
    assert_eq!(map.setup_eyrie(11), Err(MapError::CapacityExceeded));
    assert_eq!(map.get_clearing(11).unwrap().warriors(Faction::Eyrie), 0);
}

#[test]
fn eyrie_refused_when_tally_would_overflow() {
    let mut map = initialize_map(MapType::Fall);
    assert_eq!(map.place_keep(0), Ok(()));
    assert_eq!(map.place_warrior(8, Faction::Eyrie, 250), Ok(()));
    assert_eq!(map.setup_eyrie(8), Err(MapError::InvalidArgument));
    assert!(map.get_clearing(8).unwrap().structures.is_empty());
}
