use math3d::container::Area;
use std::collections::HashSet;

const X: i64 = 4;
const Y: i64 = 4;
const WIDTH: i64 = 6;
const HEIGHT: i64 = 3;

#[test]
fn area_does_not_contain_outside_points() {
    let area = Area::new(X, Y, WIDTH, HEIGHT);

    assert!(!area.contains(X - 1, Y));
    assert!(!area.contains(X, Y - 1));

    assert!(!area.contains(X + WIDTH, Y));
    assert!(!area.contains(X, Y + HEIGHT));
}

#[test]
fn area_does_contain_inside_points() {
    let area = Area::new(X, Y, WIDTH, HEIGHT);

    assert!(area.contains(X, Y));
}

#[test]
fn area_iterator_every_item_is_unique() {
    let mut set = HashSet::new();
    let area = Area::new(X, Y, WIDTH, HEIGHT);

    let mut iter = area.into_iter();
    while let Some((x, y)) = iter.next() {
        assert!(!set.contains(&(x, y)));
        set.insert((x, y));
    }
}

#[test]
fn iterator_every_item_is_in_area() {
    let area = Area::new(X, Y, WIDTH, HEIGHT);
    let mut iter = area.into_iter();
    let mut all = true;
    while let Some((x, y)) = iter.next() {
        all = all && area.contains(x, y);
    }
    assert!(all)
}

#[test]
fn area_iterator_return_enough_items() {
    let area = Area::new(X, Y, WIDTH, HEIGHT);
    let expected = (WIDTH * HEIGHT) as usize;
    let mut iter = area.into_iter();
    let mut count: usize = 0;
    while iter.next().is_some() {
        count += 1;
    }
    assert_eq!(count, expected);
}

#[test]
fn area_new_keeps_its_arguments() {
    let area = Area::new(1, -2, 3, 4);
    assert_eq!(area, Area { x: 1, y: -2, width: 3, height: 4 });
    assert_eq!(Area::default(), Area { x: 0, y: 0, width: 0, height: 0 });
}

#[test]
fn area_enumerates_columns_first() {
    let cells = Area::new(10, 20, 3, 2).into_iter().collect();
    assert_eq!(
        cells,
        vec![(10, 20), (11, 20), (12, 20), (10, 21), (11, 21), (12, 21)]
    );
}

#[test]
fn area_collect_gathers_what_is_left() {
    let mut iter = Area::new(0, 0, 2, 2).into_iter();
    assert_eq!(iter.next(), Some((0, 0)));
    assert_eq!(iter.next(), Some((1, 0)));
    assert_eq!(iter.collect(), vec![(0, 1), (1, 1)]);
}

#[test]
fn area_iterator_stays_finished() {
    let mut iter = Area::new(7, 8, 1, 1).into_iter();
    assert_eq!(iter.next(), Some((7, 8)));
    assert_eq!(iter.next(), None);
    assert_eq!(iter.next(), None);
}

#[test]
fn area_enumeration_restarts() {
    let area = Area::new(X, Y, WIDTH, HEIGHT);
    let first = area.into_iter().collect();
    let second = area.into_iter().collect();
    assert_eq!(first.len(), 18);
    assert_eq!(first, second);
}

#[test]
fn area_without_extent_is_empty() {
    for area in [
        Area::new(X, Y, 0, HEIGHT),
        Area::new(X, Y, WIDTH, 0),
        Area::new(X, Y, -2, HEIGHT),
        Area::new(X, Y, WIDTH, -1),
        Area::new(X, Y, -2, -3),
        Area::default(),
    ] {
        assert!(area.is_enumerable());
        assert!(!area.contains(area.x, area.y));
        assert_eq!(area.into_iter().next(), None);
        assert!(area.into_iter().collect().is_empty());
    }
}

#[test]
fn area_origin_is_inside_and_far_corner_is_not() {
    let area = Area::new(-3, 9, 5, 2);
    assert!(area.contains(-3, 9));
    assert!(area.contains(1, 10));
    assert!(!area.contains(2, 11));
    assert!(!area.contains(2, 10));
    assert!(!area.contains(1, 11));
}

#[test]
fn area_contains_does_not_overflow() {
    let area = Area::new(i64::MAX - 1, i64::MIN, 5, i64::MAX);
    assert!(area.contains(i64::MAX, i64::MIN));
    assert!(area.contains(i64::MAX - 1, -2));
    assert!(!area.contains(i64::MAX - 2, 0));
    assert!(!area.contains(i64::MAX, -1));
}

#[test]
fn area_at_the_edge_of_the_coordinates() {
    let area = Area::new(i64::MAX - 1, i64::MAX, 2, 1);
    assert!(area.is_enumerable());
    assert_eq!(
        area.into_iter().collect(),
        vec![(i64::MAX - 1, i64::MAX), (i64::MAX, i64::MAX)]
    );
    assert!(!Area::new(i64::MAX - 1, 0, 3, 1).is_enumerable());
    assert!(!Area::new(0, i64::MAX, 1, 2).is_enumerable());
}
