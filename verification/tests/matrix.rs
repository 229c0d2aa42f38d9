use suzy::matrix::{Mat4, Vec4};

const MAT_A: [i64; 16] = [2, 7, 7, 2, 6, 5, 9, 5, 8, 6, 2, 4, 6, 9, 7, 6];
const MAT_B: [i64; 16] = [3, 3, 5, 8, 8, 3, 5, 3, 8, 6, 5, 1, 9, 2, 7, 9];
const MAT_ANS: [i64; 16] = [
    112, 138, 114, 89, 92, 128, 114, 69, 98, 125, 127, 72, 140, 196, 158, 110,
];

#[test]
fn check_mat_mul() {
    assert_eq!(Mat4::from(MAT_ANS), Mat4::from(MAT_A) * Mat4::from(MAT_B))
}

#[test]
fn check_identity() {
    let some_vec: Vec4 = (4590, 708, 1243, 4226);
    let some_mat = Mat4::from([31, 64, 28, 69, 29, 26, 80, 80, 33, 27, 50, 59, 74, 68, 27, 4]);
    assert_eq!(some_vec, Mat4::identity() * some_vec);
    assert_eq!(some_mat, Mat4::identity() * some_mat);
    assert_eq!(some_mat, some_mat * Mat4::identity());
}

#[test]
fn default_is_identity() {
    assert_eq!(Mat4::default(), Mat4::identity());
    assert_eq!(
        Mat4::identity().as_array(),
        &[1, 0, 0, 0, 0, 1, 0, 0, 0, 0, 1, 0, 0, 0, 0, 1]
    );
}

#[test]
fn translations_compose() {
    let t = Mat4::translate(3, -4) * Mat4::translate(10, 20);
    assert_eq!(t, Mat4::translate(13, 16));
    assert_eq!(t * (1, 1, 0, 1), (14, 17, 0, 1));
}

#[test]
fn scales_compose() {
    assert_eq!(Mat4::scale(2, 3) * Mat4::scale(5, 7), Mat4::scale(10, 21));
    assert_eq!(Mat4::scale(2, 3) * (4, 5, 6, 1), (8, 15, 6, 1));
}

#[test]
fn scale_then_translate() {
    let m = Mat4::translate(1, 2) * Mat4::scale(3, 4);
    assert_eq!(m.at(0, 0), 3);
    assert_eq!(m.at(1, 1), 4);
    assert_eq!(m.at(0, 3), 1);
    assert_eq!(m.at(1, 3), 2);
    assert_eq!(m * (10, 10, 0, 1), (31, 42, 0, 1));
}

#[test]
fn entries_are_column_major() {
    let m = Mat4::from(MAT_A);
    assert_eq!(m.at(1, 0), 7);
    assert_eq!(m.at(0, 1), 6);
    assert_eq!(m.at(3, 3), 6);
    assert_eq!(m.as_array(), &MAT_A);
}

#[test]
fn mul_assign_multiplies_in_place() {
    let mut m = Mat4::from(MAT_A);
    m.mul_assign(&Mat4::from(MAT_B));
    assert_eq!(m, Mat4::from(MAT_ANS));
    assert_eq!(Mat4::from(MAT_A).product(&Mat4::from(MAT_B)), Mat4::from(MAT_ANS));
}

#[test]
fn products_associate() {
    let a = Mat4::from(MAT_A);
    let b = Mat4::from(MAT_B);
    let c = Mat4::translate(2, -3) * Mat4::scale(4, 5);
    assert_eq!((a * b) * c, a * (b * c));
}
