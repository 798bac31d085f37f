use asteroids::asteroid::{score_from_size, Size};
use asteroids::collisions::{first_hit, live_targets, resolve_ship, resolve_shot, shot_points, ShotHit};
use asteroids::polygon::polygon_edges;

fn count(sizes: &[Size], sz: Size) -> i32 {
    sizes.iter().filter(|&&s| s == sz).count() as i32
}

/// The score a change of the field is worth, counting the pieces that each
/// destroyed asteroid leaves behind.
fn earned(before: &[Size], after: &[Size]) -> i32 {
    let large = count(before, Size::Large) - count(after, Size::Large);
    let medium = count(before, Size::Medium) - count(after, Size::Medium) + large * 2;
    let small = count(before, Size::Small) - count(after, Size::Small) + medium * 2;
    large * score_from_size(&Size::Large)
        + medium * score_from_size(&Size::Medium)
        + small * score_from_size(&Size::Small)
}

#[test]
fn targets_skip_remnants() {
    let sizes = vec![Size::Destroyed, Size::Large, Size::Destroyed, Size::Small, Size::Medium];
    assert_eq!(live_targets(&sizes), vec![1, 3, 4]);
    assert_eq!(live_targets(&vec![]), Vec::<usize>::new());
    assert_eq!(live_targets(&vec![Size::Destroyed]), Vec::<usize>::new());
}

#[test]
fn first_hit_finds_the_earliest() {
    assert_eq!(first_hit(&vec![false, true, true]), Some(1));
    assert_eq!(first_hit(&vec![true]), Some(0));
    assert_eq!(first_hit(&vec![false, false]), None);
    assert_eq!(first_hit(&vec![]), None);
}

#[test]
fn shot_on_a_large_asteroid_splits_it() {
    let mut sizes = vec![Size::Large];
    let mut score = 0;
    let mut alive = true;
    let r = resolve_shot(&mut sizes, &mut score, &mut alive, &vec![true, false]);
    assert_eq!(r, ShotHit::Asteroid(0));
    assert_eq!(sizes.len(), 3);
    assert_eq!(sizes, vec![Size::Destroyed, Size::Medium, Size::Medium]);
    assert_eq!(score, 10);
    assert!(!alive);
}

#[test]
fn shot_cannot_hit_a_remnant() {
    let mut sizes = vec![Size::Destroyed];
    let mut score = 0;
    assert_eq!(live_targets(&sizes).len(), 0);
    let mut alive = true;
    let r = resolve_shot(&mut sizes, &mut score, &mut alive, &vec![false]);
    assert_eq!(r, ShotHit::Miss);
    assert_eq!(sizes, vec![Size::Destroyed]);
    assert_eq!(score, 0);
    assert!(alive);
}

#[test]
fn missing_shot_changes_nothing() {
    let mut sizes = vec![Size::Large, Size::Small];
    let mut score = 7;
    let mut alive = true;
    let r = resolve_shot(&mut sizes, &mut score, &mut alive, &vec![false, false, false]);
    assert_eq!(r, ShotHit::Miss);
    assert_eq!(sizes, vec![Size::Large, Size::Small]);
    assert_eq!(score, 7);
    assert!(alive);
}

#[test]
fn shot_hits_the_first_live_target_it_touches() {
    // Targets are asteroids 1, 2 and 4, then the saucer.
    let before = vec![Size::Destroyed, Size::Small, Size::Medium, Size::Destroyed, Size::Large];
    let mut sizes = before.clone();
    let mut score = 100;
    let hits = vec![false, true, true, false];
    assert_eq!(shot_points(&sizes, &hits), 20);
    let mut alive = true;
    let r = resolve_shot(&mut sizes, &mut score, &mut alive, &hits);
    assert_eq!(r, ShotHit::Asteroid(2));
    assert_eq!(
        sizes,
        vec![
            Size::Destroyed,
            Size::Small,
            Size::Destroyed,
            Size::Destroyed,
            Size::Large,
            Size::Small,
            Size::Small
        ]
    );
    assert_eq!(score, 120);
    assert_eq!(score - 100, earned(&before, &sizes));
}

#[test]
fn small_asteroid_leaves_remnants() {
    let mut sizes = vec![Size::Small];
    let mut score = 0;
    let mut alive = true;
    let r = resolve_shot(&mut sizes, &mut score, &mut alive, &vec![true, true]);
    assert_eq!(r, ShotHit::Asteroid(0));
    assert_eq!(sizes, vec![Size::Destroyed, Size::Destroyed, Size::Destroyed]);
    assert_eq!(score, 50);
    assert!(live_targets(&sizes).is_empty());
}

#[test]
fn saucer_is_struck_after_every_asteroid_is_missed() {
    let mut sizes = vec![Size::Medium, Size::Destroyed];
    let mut score = 30;
    let hits = vec![false, true];
    assert_eq!(shot_points(&sizes, &hits), 0);
    let mut alive = true;
    let r = resolve_shot(&mut sizes, &mut score, &mut alive, &hits);
    assert_eq!(r, ShotHit::Ufo);
    assert_eq!(sizes, vec![Size::Medium, Size::Destroyed]);
    assert_eq!(score, 30);
    assert!(!alive);
}

#[test]
fn score_matches_destroyed_asteroids_over_a_volley() {
    let start = vec![Size::Large, Size::Medium, Size::Small, Size::Large];
    let mut sizes = start.clone();
    let mut score = 0;
    // Each volley strikes the last live target it can.
    for _ in 0..12 {
        let targets = live_targets(&sizes);
        let mut hits = vec![false; targets.len() + 1];
        if !targets.is_empty() {
            let n = targets.len();
            hits[n - 1] = true;
        }
        let before = sizes.clone();
        let old_score = score;
        let mut alive = true;
        let r = resolve_shot(&mut sizes, &mut score, &mut alive, &hits);
        assert_eq!(score - old_score, earned(&before, &sizes));
        if score > old_score {
            assert!(matches!(r, ShotHit::Asteroid(_)));
            assert!(!alive);
        }
    }
    assert_eq!(score, earned(&start, &sizes));
    // Clearing the remnants away scores nothing more.
    let survivors: Vec<Size> = live_targets(&sizes).iter().map(|&i| sizes[i]).collect();
    assert_eq!(earned(&sizes, &survivors), 0);
}

#[test]
fn ship_is_wrecked_by_a_large_asteroid() {
    let sizes = vec![Size::Large];
    assert_eq!(resolve_ship(true, &sizes, &vec![true]), Some(0));
}

#[test]
fn ship_survives_a_remnant() {
    let sizes = vec![Size::Destroyed];
    assert_eq!(resolve_ship(true, &sizes, &vec![]), None);
}

#[test]
fn ship_survives_a_distant_asteroid() {
    let sizes = vec![Size::Large];
    assert_eq!(resolve_ship(true, &sizes, &vec![false]), None);
}

#[test]
fn wrecked_ship_is_not_wrecked_again() {
    let sizes = vec![Size::Large, Size::Small];
    assert_eq!(resolve_ship(false, &sizes, &vec![true, true]), None);
}

#[test]
fn ship_is_wrecked_by_the_first_live_asteroid_it_touches() {
    let sizes = vec![Size::Destroyed, Size::Small, Size::Destroyed, Size::Medium];
    assert_eq!(resolve_ship(true, &sizes, &vec![false, true]), Some(3));
    assert_eq!(resolve_ship(true, &sizes, &vec![true, true]), Some(1));
}

#[test]
fn spent_shot_strikes_nothing() {
    let mut sizes = vec![Size::Large];
    let mut score = 5;
    let mut alive = false;
    let r = resolve_shot(&mut sizes, &mut score, &mut alive, &vec![true, true]);
    assert_eq!(r, ShotHit::Miss);
    assert_eq!(sizes, vec![Size::Large]);
    assert_eq!(score, 5);
    assert!(!alive);
}

#[test]
fn wreckage_follows_the_ship() {
    let corners = 3;
    let sizes = vec![Size::Large, Size::Small];
    let mut alive = true;
    let mut wreckage = 0;
    for hits in [vec![false, false], vec![false, true], vec![true, true]] {
        let flags = if alive { hits } else { vec![] };
        if resolve_ship(alive, &sizes, &flags).is_some() {
            alive = false;
            wreckage += polygon_edges(corners).len();
        }
        assert_eq!(wreckage, if alive { 0 } else { corners });
    }
    assert!(!alive);
}
