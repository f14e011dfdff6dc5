use qrender::matrix2d::Matrix2d;
use qrender::matrix3d::Matrix3d;
use qrender::matrix4d::Matrix4d;
use qrender::matrix_errors::{MatrixError, MatrixErrorType};
use qrender::utils::Major;
use qrender::vector2d::Vector2d;
use qrender::vector3d::Vector3d;
use qrender::vector4d::Vector4d;
use qrender::vector_errors::VectorErrorType;

#[test]
fn dot_symmetric_all_sizes() {
    let a2 = Vector2d::new(2, -7);
    let b2 = Vector2d::new(5, 3);
    assert_eq!(a2.dot(b2), b2.dot(a2));

    let a3 = Vector3d::new(2, -7, 4);
    let b3 = Vector3d::new(5, 3, -1);
    assert_eq!(a3.dot(b3), b3.dot(a3));

    let a4 = Vector4d::new(2, -7, 4, 9);
    let b4 = Vector4d::new(5, 3, -1, -2);
    assert_eq!(a4.dot(b4), b4.dot(a4));
}

#[test]
fn dot_additive_and_homogeneous() {
    let a = Vector3d::new(2, -7, 4);
    let b = Vector3d::new(5, 3, -1);
    let c = Vector3d::new(-4, 6, 8);
    let s = a.add(b);
    assert_eq!(s.dot(c), a.dot(c) + b.dot(c));
    let t = Vector3d::mul_item(a, 3);
    assert_eq!(t.dot(c), 3 * a.dot(c));

    let a2 = Vector2d::new(1, 2);
    let b2 = Vector2d::new(3, 4);
    let c2 = Vector2d::new(5, 6);
    assert_eq!(a2.add(b2).dot(c2), a2.dot(c2) + b2.dot(c2));
    assert_eq!(Vector2d::mul_item(a2, -2).dot(c2), -2 * a2.dot(c2));

    let a4 = Vector4d::new(1, 2, 3, 4);
    let b4 = Vector4d::new(5, 6, 7, 8);
    let c4 = Vector4d::new(9, 10, 11, 12);
    assert_eq!(a4.add(b4).dot(c4), a4.dot(c4) + b4.dot(c4));
    assert_eq!(Vector4d::mul_item(a4, 5).dot(c4), 5 * a4.dot(c4));
}

#[test]
fn transpose_twice_restores_all_sizes() {
    let mut m2 = Matrix2d::new(Vector2d::new(2, 1), Vector2d::new(3, 4));
    let orig2 = m2.clone();
    m2.transpose();
    m2.transpose();
    assert_eq!(m2, orig2);

    let mut m3 = Matrix3d::new(Vector3d::new(2, 1, 0), Vector3d::new(3, 4, 5), Vector3d::new(6, 7, 8));
    let orig3 = m3.clone();
    m3.transpose();
    m3.transpose();
    assert_eq!(m3, orig3);

    let mut m4 = Matrix4d::new(
        Vector4d::new(2, 1, 0, 3),
        Vector4d::new(3, 4, 5, 2),
        Vector4d::new(6, 7, 8, 9),
        Vector4d::new(4, 3, 2, 1),
    );
    let orig4 = m4.clone();
    m4.transpose();
    m4.transpose();
    assert_eq!(m4, orig4);
}

#[test]
fn product_then_vector_agrees_all_sizes() {
    let a2 = Matrix2d::new(Vector2d::new(2, 1), Vector2d::new(3, 4));
    let b2 = Matrix2d::new(Vector2d::new(5, 7), Vector2d::new(2, 1));
    let v2 = Vector2d::new(-3, 6);
    let lhs2 = a2.product(b2).product_with_vector2d(v2);
    let rhs2 = a2.product_with_vector2d(b2.product_with_vector2d(v2));
    assert_eq!(lhs2, rhs2);

    let a3 = Matrix3d::new(Vector3d::new(2, 1, 0), Vector3d::new(3, 4, 5), Vector3d::new(6, 7, 8));
    let b3 = Matrix3d::new(Vector3d::new(3, 0, 4), Vector3d::new(7, 1, 3), Vector3d::new(9, 2, 5));
    let v3 = Vector3d::new(-3, 6, 2);
    let lhs3 = a3.product(b3).product_with_vector3d(v3);
    let rhs3 = a3.product_with_vector3d(b3.product_with_vector3d(v3));
    assert_eq!(lhs3, rhs3);

    let a4 = Matrix4d::new(
        Vector4d::new(2, 1, 0, 3),
        Vector4d::new(3, 4, 5, 2),
        Vector4d::new(6, 7, 8, 9),
        Vector4d::new(4, 3, 2, 1),
    );
    let b4 = Matrix4d::new(
        Vector4d::new(3, 0, 4, 9),
        Vector4d::new(7, 1, 3, 8),
        Vector4d::new(9, 2, 5, 4),
        Vector4d::new(4, 7, 6, 0),
    );
    let v4 = Vector4d::new(-3, 6, 2, 1);
    let lhs4 = a4.product(b4).product_with_vector4d(v4);
    let rhs4 = a4.product_with_vector4d(b4.product_with_vector4d(v4));
    assert_eq!(lhs4, rhs4);
}

#[test]
fn from_vector_accepts_exact_length() {
    let v2 = Vector2d::from_vector(vec![1, 2]).unwrap();
    assert_eq!(v2, Vector2d::new(1, 2));
    let v3 = Vector3d::from_vector(vec![1, 2, 3]).unwrap();
    assert_eq!(v3, Vector3d::new(1, 2, 3));
    let v4 = Vector4d::from_vector(vec![1, 2, 3, 4]).unwrap();
    assert_eq!(v4, Vector4d::new(1, 2, 3, 4));
}

#[test]
fn from_vector_rejects_wrong_length() {
    let e2 = Vector2d::from_vector(vec![1, 2, 3]).unwrap_err();
    assert!(matches!(e2.err_type, VectorErrorType::InvalidInitSizeError));
    assert_eq!(e2.err_msg, "The dimension of the vector must be 2 dimensions");

    let e3 = Vector3d::from_vector(vec![]).unwrap_err();
    assert!(matches!(e3.err_type, VectorErrorType::InvalidInitSizeError));
    assert_eq!(e3.err_msg, "The dimension of the vector must be 3 dimensions");

    let e4 = Vector4d::from_vector(vec![1, 2, 3, 4, 5]).unwrap_err();
    assert!(matches!(e4.err_type, VectorErrorType::InvalidInitSizeError));
    assert_eq!(e4.err_msg, "The dimension of the vector must be 4 dimensions");
}

#[test]
fn fill_and_zero() {
    let f = Vector4d::fill(7);
    assert_eq!(f, Vector4d::new(7, 7, 7, 7));
    let z = Vector3d::zero(9);
    assert_eq!(z, Vector3d::new(0, 0, 0));
    assert_eq!(Vector2d::zero(-5), Vector2d::new(0, 0));
}

#[test]
fn transpose_flips_only_the_tag() {
    let mut v = Vector3d::new(1, 2, 3);
    assert_eq!(v.major, Major::Row);
    v.transpose();
    assert_eq!(v.major, Major::Col);
    assert_eq!((v.x, v.y, v.z), (1, 2, 3));
    v.transpose();
    assert_eq!(v.major, Major::Row);

    let w = Vector2d::from_transpose(Vector2d::new(4, 5));
    assert_eq!(w.major, Major::Col);
    assert_eq!((w.x, w.y), (4, 5));
}

#[test]
fn division_truncates_toward_zero() {
    let v = Vector2d::div_item(Vector2d::new(-7, 7), 2);
    assert_eq!(v, Vector2d::new(-3, 3));
    let w = Vector2d::new(-9, 9).div(Vector2d::new(4, -4));
    assert_eq!((w.x, w.y), (-2, -2));
}

#[test]
fn norm_is_squared_length() {
    assert_eq!(Vector2d::new(3, 4).norm(), 25);
    assert_eq!(Vector3d::new(1, 2, 2).norm(), 9);
    assert_eq!(Vector4d::new(1, 1, 1, 1).norm(), 4);
}

#[test]
fn normalized_divides_by_norm() {
    let mut v = Vector2d::new(1, 2);
    v.normalized();
    assert_eq!(v, Vector2d::new(0, 0));
    let mut u = Vector3d::new(1, 0, 0);
    u.normalized();
    assert_eq!(u, Vector3d::new(1, 0, 0));
}

#[test]
fn dimension_conversions() {
    let v2 = Vector2d::new(1, 2);
    assert_eq!(v2.to_vector3d(3), Vector3d::new(1, 2, 3));
    assert_eq!(v2.to_vector4d(3, 4), Vector4d::new(1, 2, 3, 4));
    let v4 = Vector4d::new(1, 2, 3, 4);
    assert_eq!(v4.head2(), Vector2d::new(1, 2));
    assert_eq!(v4.head3(), Vector3d::new(1, 2, 3));
    assert_eq!(Vector3d::new(1, 2, 3).head2(), Vector2d::new(1, 2));
}

#[test]
fn matrix_from_vector_accepts_exact_length() {
    let m2 = Matrix2d::from_vector(vec![1, 2, 3, 4]).unwrap();
    assert_eq!(m2, Matrix2d::new(Vector2d::new(1, 2), Vector2d::new(3, 4)));
    let m3 = Matrix3d::from_vector(vec![1, 2, 3, 4, 5, 6, 7, 8, 9]).unwrap();
    assert_eq!(
        m3,
        Matrix3d::new(Vector3d::new(1, 2, 3), Vector3d::new(4, 5, 6), Vector3d::new(7, 8, 9))
    );
    let m4 = Matrix4d::from_vector((1..=16).collect()).unwrap();
    assert_eq!(
        m4,
        Matrix4d::new(
            Vector4d::new(1, 2, 3, 4),
            Vector4d::new(5, 6, 7, 8),
            Vector4d::new(9, 10, 11, 12),
            Vector4d::new(13, 14, 15, 16),
        )
    );
}

#[test]
fn matrix_from_vector_rejects_wrong_length() {
    let e2 = Matrix2d::from_vector(vec![1, 2, 3]).unwrap_err();
    assert!(matches!(e2.err_type, MatrixErrorType::InvalidInitSizeError));
    assert_eq!(e2.err_msg, "The length of matrix2d is illegal. The legal length is: 'n' == 4");

    let e3 = Matrix3d::from_vector(vec![]).unwrap_err();
    assert!(matches!(e3.err_type, MatrixErrorType::InvalidInitSizeError));
    assert_eq!(e3.err_msg, "The length of matrix3d is illegal. The legal length is: 'n' == 9");

    let e4 = Matrix4d::from_vector(vec![0; 17]).unwrap_err();
    assert!(matches!(e4.err_type, MatrixErrorType::InvalidInitSizeError));
    assert_eq!(e4.err_msg, "The length of matrix4d is illegal. The legal length is: 'n' == 16");
}

#[test]
fn matrix_error_fields() {
    let e = MatrixError {
        err_msg: String::from("The length of the matrix is illegal"),
        err_type: MatrixErrorType::InvalidCalcError,
    };
    assert!(matches!(e.err_type, MatrixErrorType::InvalidCalcError));
    assert_eq!(e.err_msg, "The length of the matrix is illegal");
}
