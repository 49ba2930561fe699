use parry3d::math::{Isometry, Point, Vector};
use parry3d::query::{Ray, RayCast};
use parry3d::shape::Cuboid;
use ray_pick::nearest_hit;

fn bits(v: f32) -> Option<u32> {
    Some(v.to_bits())
}

fn cast_boxes(ray: &Ray, boxes: &[([f32; 3], [f32; 3])]) -> Vec<Option<u32>> {
    boxes
        .iter()
        .map(|(half, at)| {
            let shape = Cuboid::new(Vector::new(half[0], half[1], half[2]));
            let iso = Isometry::translation(at[0], at[1], at[2]);
            shape.cast_ray(&iso, ray, f32::INFINITY, true).map(|t| t.to_bits())
        })
        .collect()
}

#[test]
fn no_candidates_is_no_hit() {
    assert_eq!(nearest_hit(&vec![]), None);
}

#[test]
fn all_misses_is_no_hit() {
    assert_eq!(nearest_hit(&vec![None, None, None]), None);
}

#[test]
fn nearest_of_several() {
    assert_eq!(nearest_hit(&vec![bits(3.5), None, bits(1.25), bits(2.0)]), Some(2));
}

#[test]
fn overlapping_candidates_in_either_order() {
    assert_eq!(nearest_hit(&vec![bits(4.0), bits(3.0)]), Some(1));
    assert_eq!(nearest_hit(&vec![bits(3.0), bits(4.0)]), Some(0));
}

#[test]
fn equal_distances_pick_the_first() {
    assert_eq!(nearest_hit(&vec![None, bits(2.0), bits(2.0)]), Some(1));
}

#[test]
fn zero_and_negative_zero_are_equal() {
    assert_eq!(nearest_hit(&vec![bits(-0.0), bits(0.0)]), Some(0));
    assert_eq!(nearest_hit(&vec![bits(0.0), bits(-0.0)]), Some(0));
}

#[test]
fn nan_distance_is_no_hit() {
    assert_eq!(nearest_hit(&vec![bits(f32::NAN)]), None);
    assert_eq!(nearest_hit(&vec![bits(f32::NAN), bits(7.0), bits(f32::NAN)]), Some(1));
}

#[test]
fn infinite_distance_still_counts() {
    assert_eq!(nearest_hit(&vec![None, bits(f32::INFINITY)]), Some(1));
    assert_eq!(nearest_hit(&vec![bits(f32::INFINITY), bits(1.0e30)]), Some(1));
}

#[test]
fn ray_through_one_box_picks_it() {
    // Three unit boxes side by side; the ray runs down -z through the middle one.
    let boxes = [
        ([0.5, 0.5, 0.5], [-3.0, 0.0, 0.0]),
        ([0.5, 0.5, 0.5], [0.0, 0.0, 0.0]),
        ([0.5, 0.5, 0.5], [3.0, 0.0, 0.0]),
    ];
    let ray = Ray::new(Point::new(0.0, 0.0, 10.0), Vector::new(0.0, 0.0, -1.0));
    let tois = cast_boxes(&ray, &boxes);
    let index = nearest_hit(&tois).unwrap();
    assert_eq!(index, 1);
    let hit = ray.point_at(f32::from_bits(tois[index].unwrap()));
    assert!((hit - Point::new(0.0, 0.0, 0.5)).norm() < 1.0e-4);
}

#[test]
fn ray_through_two_boxes_picks_the_nearer() {
    let near = ([0.1, 0.1, 0.1], [0.0, 0.0, 2.0]);
    let far = ([1.0, 1.0, 1.0], [0.0, 0.0, -4.0]);
    let ray = Ray::new(Point::new(0.0, 0.0, 10.0), Vector::new(0.0, 0.0, -1.0));
    let tois = cast_boxes(&ray, &[far, near]);
    assert_eq!(nearest_hit(&tois), Some(1));
    let tois = cast_boxes(&ray, &[near, far]);
    assert_eq!(nearest_hit(&tois), Some(0));
    let hit = ray.point_at(f32::from_bits(tois[0].unwrap()));
    assert!((hit - Point::new(0.0, 0.0, 2.1)).norm() < 1.0e-4);
}

#[test]
fn ray_starting_inside_a_box_hits_at_zero() {
    let ray = Ray::new(Point::new(0.0, 0.0, 0.0), Vector::new(1.0, 0.0, 0.0));
    let tois = cast_boxes(&ray, &[([1.0, 1.0, 1.0], [5.0, 0.0, 0.0]), ([1.0, 1.0, 1.0], [0.0, 0.0, 0.0])]);
    assert_eq!(nearest_hit(&tois), Some(1));
    assert_eq!(f32::from_bits(tois[1].unwrap()), 0.0);
}

#[test]
fn ray_missing_every_box_is_no_hit() {
    let ray = Ray::new(Point::new(0.0, 5.0, 10.0), Vector::new(0.0, 0.0, -1.0));
    let tois = cast_boxes(&ray, &[([0.5, 0.5, 0.5], [0.0, 0.0, 0.0]), ([0.5, 0.5, 0.5], [2.0, 0.0, 0.0])]);
    assert_eq!(nearest_hit(&tois), None);
}

#[test]
fn negative_distance_is_no_hit() {
    assert_eq!(nearest_hit(&vec![bits(-1.0)]), None);
    assert_eq!(nearest_hit(&vec![bits(-1.0), bits(2.0)]), Some(1));
    assert_eq!(nearest_hit(&vec![bits(f32::NEG_INFINITY), None]), None);
}
