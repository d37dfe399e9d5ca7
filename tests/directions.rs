use genesismobo::directions::Direction;

#[test]
fn parses_the_four_names() {
    assert_eq!(Direction::from_str("down"), Some(Direction::Down));
    assert_eq!(Direction::from_str("left"), Some(Direction::Left));
    assert_eq!(Direction::from_str("right"), Some(Direction::Right));
    assert_eq!(Direction::from_str("up"), Some(Direction::Up));
}

#[test]
fn rejects_other_names() {
    assert_eq!(Direction::from_str("Up"), None);
    assert_eq!(Direction::from_str(""), None);
    assert_eq!(Direction::from_str("upp"), None);
    assert_eq!(Direction::from_str("north"), None);
}

#[test]
fn opposite_is_an_involution() {
    assert_eq!(Direction::Up.opposite(), Direction::Down);
    assert_eq!(Direction::Left.opposite(), Direction::Right);
    for d in [Direction::Up, Direction::Down, Direction::Left, Direction::Right] {
        assert_eq!(d.opposite().opposite(), d);
        assert_ne!(d.opposite(), d);
    }
}

#[test]
fn reject_opposite_keeps_order() {
    let kept = Direction::reject_opposite(
        vec![Direction::Left, Direction::Up, Direction::Left, Direction::Down],
        Direction::Left,
    );
    assert_eq!(kept, vec![Direction::Up, Direction::Down]);
    assert_eq!(Direction::reject_opposite(vec![Direction::Left], Direction::Left), vec![]);
    assert_eq!(Direction::reject_opposite(vec![], Direction::Up), vec![]);
}

#[test]
fn random_pick_comes_from_the_candidates() {
    for _ in 0..50 {
        let d = Direction::rand_from_collection(vec![Direction::Up, Direction::Left]);
        assert!(d == Direction::Up || d == Direction::Left);
        assert_eq!(Direction::rand_from_collection(vec![Direction::Down]), Direction::Down);
        let _ = Direction::rand();
    }
}

#[test]
fn each_draw_names_one_heading() {
    assert_eq!(Direction::from_draw(0), Direction::Up);
    assert_eq!(Direction::from_draw(1), Direction::Right);
    assert_eq!(Direction::from_draw(2), Direction::Down);
    assert_eq!(Direction::from_draw(3), Direction::Left);
}

#[test]
fn pick_takes_the_indexed_heading() {
    let ds = vec![Direction::Down, Direction::Left, Direction::Up];
    assert_eq!(Direction::pick(&ds, 0), Direction::Down);
    assert_eq!(Direction::pick(&ds, 1), Direction::Left);
    assert_eq!(Direction::pick(&ds, 2), Direction::Up);
}
