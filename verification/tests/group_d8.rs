use pixi::math::GD8;

/// Recomputes the composition table of the dihedral group from signed
/// rotation matrices and holds the library's composition to it.
#[test]
fn init() {
    const UX: [i8; 16] = [1, 1, 0, -1, -1, -1, 0, 1, 1, 1, 0, -1, -1, -1, 0, 1];
    const UY: [i8; 16] = [0, 1, 1, 1, 0, -1, -1, -1, 0, 1, 1, 1, 0, -1, -1, -1];
    const VX: [i8; 16] = [0, -1, -1, -1, 0, 1, 1, 1, 0, 1, 1, 1, 0, -1, -1, -1];
    const VY: [i8; 16] = [1, 1, 0, -1, -1, -1, 0, 1, -1, -1, 0, 1, 1, 1, 0, -1];

    let mut cayley: Vec<Vec<usize>> = Vec::new();

    for i in 0..16 {
        let mut row: Vec<usize> = Vec::new();

        for j in 0..16 {
            // Multiplies rotation matrices i and j.
            let ux = (UX[i] * UX[j] + VX[i] * UY[j]).signum();
            let uy = (UY[i] * UX[j] + VY[i] * UY[j]).signum();
            let vx = (UX[i] * VX[j] + VX[i] * VY[j]).signum();
            let vy = (UY[i] * VX[j] + VY[i] * VY[j]).signum();

            // Finds the rotation matrix matching the product and pushes it.
            for k in 0..16 {
                if UX[k] == ux && UY[k] == uy && VX[k] == vx && VY[k] == vy {
                    row.push(k);
                    break;
                }
            }
        }
        cayley.push(row);
    }

    for row in &cayley {
        assert_eq!(row.len(), 16);
        let mut line = String::new();
        for v in row.iter() {
            line.push_str(&format!("0x{:X}, ", v));
        }
        println!("{}", line);
    }

    for i in 0..16u8 {
        for j in 0..16u8 {
            let composed = GD8::new(i).compose(GD8::new(j));
            assert_eq!(composed, GD8::new(cayley[i as usize][j as usize] as u8));
        }
    }
}

#[test]
fn axis_components() {
    const UX: [i8; 16] = [1, 1, 0, -1, -1, -1, 0, 1, 1, 1, 0, -1, -1, -1, 0, 1];
    const UY: [i8; 16] = [0, 1, 1, 1, 0, -1, -1, -1, 0, 1, 1, 1, 0, -1, -1, -1];
    const VX: [i8; 16] = [0, -1, -1, -1, 0, 1, 1, 1, 0, 1, 1, 1, 0, -1, -1, -1];
    const VY: [i8; 16] = [1, 1, 0, -1, -1, -1, 0, 1, -1, -1, 0, 1, 1, 1, 0, -1];
    for v in 0..16u8 {
        let g = GD8::new(v);
        assert_eq!(g.ux(), UX[v as usize]);
        assert_eq!(g.uy(), UY[v as usize]);
        assert_eq!(g.vx(), VX[v as usize]);
        assert_eq!(g.vy(), VY[v as usize]);
    }
}

#[test]
fn inverse_and_rotation() {
    assert_eq!(GD8::e().inv(), GD8::e());
    assert_eq!(GD8::s().inv(), GD8::n());
    assert_eq!(GD8::se().inv(), GD8::ne());
    assert_eq!(GD8::main_diagonal().inv(), GD8::main_diagonal());
    assert_eq!(GD8::e().rotate180(), GD8::w());
    assert_eq!(GD8::n().rotate180(), GD8::s());
    assert_eq!(GD8::mirror_vertical().rotate180(), GD8::mirror_horizontal());
    assert!(GD8::s().is_vertical());
    assert!(GD8::n().is_vertical());
    assert!(!GD8::e().is_vertical());
    assert!(!GD8::se().is_vertical());
}

#[test]
fn inverse_is_the_group_inverse() {
    for v in 0..16u8 {
        let g = GD8::new(v);
        assert_eq!(g.compose(g.inv()), GD8::e());
        assert_eq!(g.inv().compose(g), GD8::e());
        assert_eq!(g.inv().inv(), g);
    }
}

#[test]
fn compose_inv_undoes_compose() {
    for a in 0..16u8 {
        for b in 0..16u8 {
            let ga = GD8::new(a);
            let gb = GD8::new(b);
            assert_eq!(ga.compose(gb).compose_inv(gb), ga);
        }
    }
}

#[test]
fn direction_snapping() {
    assert_eq!(GD8::by_direction(1, 0), GD8::e());
    assert_eq!(GD8::by_direction(-1, 0), GD8::w());
    assert_eq!(GD8::by_direction(0, 1), GD8::s());
    assert_eq!(GD8::by_direction(0, -1), GD8::n());
    assert_eq!(GD8::by_direction(5, 5), GD8::se());
    assert_eq!(GD8::by_direction(-5, 5), GD8::sw());
    assert_eq!(GD8::by_direction(5, -5), GD8::ne());
    assert_eq!(GD8::by_direction(-5, -5), GD8::nw());
    assert_eq!(GD8::by_direction(-3, -1), GD8::w());
}
