use asteroids::polygon::{polygon_edges, ray_cast_verdict};

#[test]
fn edges_close_the_polygon() {
    assert_eq!(polygon_edges(3), vec![(0, 1), (1, 2), (2, 0)]);
    assert_eq!(polygon_edges(4), vec![(0, 1), (1, 2), (2, 3), (3, 0)]);
    assert_eq!(polygon_edges(1), vec![(0, 0)]);
    assert_eq!(polygon_edges(0), Vec::<(usize, usize)>::new());
}

#[test]
fn a_polygon_needs_three_corners() {
    assert!(ray_cast_verdict(&vec![]).is_err());
    assert!(ray_cast_verdict(&vec![true]).is_err());
    assert_eq!(
        ray_cast_verdict(&vec![true, false]),
        Err("Polygon must have at least 3 points")
    );
}

#[test]
fn odd_crossings_are_inside() {
    assert_eq!(ray_cast_verdict(&vec![true, false, false, false]), Ok(true));
    assert_eq!(ray_cast_verdict(&vec![true, true, false, false]), Ok(false));
    assert_eq!(ray_cast_verdict(&vec![false, false, false]), Ok(false));
    assert_eq!(ray_cast_verdict(&vec![true, true, true]), Ok(true));
}

#[test]
fn verdict_ignores_the_starting_corner() {
    let flags = vec![true, false, true, true, false];
    let expected = ray_cast_verdict(&flags);
    assert_eq!(expected, Ok(true));
    for k in 0..flags.len() {
        let rotated: Vec<bool> = flags[k..].iter().chain(flags[..k].iter()).copied().collect();
        assert_eq!(ray_cast_verdict(&rotated), expected);
    }
}
