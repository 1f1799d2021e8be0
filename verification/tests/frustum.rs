use math3d::container::FrustumPlaneType;

#[test]
fn planes_keep_their_order() {
    assert_eq!(FrustumPlaneType::Near.index(), 0);
    assert_eq!(FrustumPlaneType::Far.index(), 1);
    assert_eq!(FrustumPlaneType::Left.index(), 2);
    assert_eq!(FrustumPlaneType::Right.index(), 3);
    assert_eq!(FrustumPlaneType::Top.index(), 4);
    assert_eq!(FrustumPlaneType::Bottom.index(), 5);
    assert_eq!(
        FrustumPlaneType::all(),
        [
            FrustumPlaneType::Near,
            FrustumPlaneType::Far,
            FrustumPlaneType::Left,
            FrustumPlaneType::Right,
            FrustumPlaneType::Top,
            FrustumPlaneType::Bottom
        ]
    );
}

#[test]
fn planes_and_indices_stand_one_for_one() {
    for index in 0..6 {
        let plane = FrustumPlaneType::from_index(index);
        assert_eq!(plane.map(|p| p.index()), Some(index));
        assert_eq!(plane, Some(FrustumPlaneType::all()[index]));
    }
    assert_eq!(FrustumPlaneType::from_index(6), None);
    assert_eq!(FrustumPlaneType::from_index(usize::MAX), None);
}

#[test]
fn planes_take_their_rows_and_signs() {
    let table = [
        (FrustumPlaneType::Near, 2, true),
        (FrustumPlaneType::Far, 2, false),
        (FrustumPlaneType::Left, 0, true),
        (FrustumPlaneType::Right, 0, false),
        (FrustumPlaneType::Top, 1, false),
        (FrustumPlaneType::Bottom, 1, true),
    ];
    for (plane, row, adds) in table {
        assert_eq!(plane.row(), row);
        assert_eq!(plane.adds(), adds);
    }
}

#[test]
fn each_row_gives_one_plane_per_sign() {
    for row in 0..3 {
        for adds in [true, false] {
            let found = FrustumPlaneType::all()
                .iter()
                .filter(|p| p.row() == row && p.adds() == adds)
                .count();
            assert_eq!(found, 1);
        }
    }
}
