use simp_linalg::{Matrix, Vector};

#[test]
fn macro_example() {
    let v1 = Vector::new(vec![1, 2, 3]);
    let v2 = Vector::from(vec![1, 2, 3]);

    let m1 = Matrix::from_rows(vec![vec![1, 2, 3], vec![4, 5, 6], vec![7, 8, 9]]).unwrap();
    let m2 = Matrix::from_rows(vec![vec![1, 2, 3], vec![4, 5, 6], vec![7, 8, 9]]).unwrap();

    assert_eq!(v1, v2);
    assert_eq!(m1, m2);
}

#[test]
#[allow(unused_variables)]
fn mul_val_drop() {
    let vector1 = Vector::new(vec![1, 2, 3]);

    let vector2 = Vector::new(vec![4, 5, 6]);

    let dot_prod: i32 = vector1.dot(&vector2).unwrap();
}

#[test]
fn lambda_example() {
    let vector: Vector<i32> = Vector::new(vec![1, 2, 3]);

    let matrix: Matrix<i32> = Matrix::from_rows(vec![vec![1, 2], vec![3, 4]]).unwrap();

    let new_vector = vector.lambda(|val: &i32| val * val);
    let new_matrix = matrix.lambda(|val: &i32| val * val);

    assert_eq!(new_vector, Vector::from(vec![1, 4, 9]));
    assert_eq!(new_matrix, Matrix::from_rows(vec![vec![1, 4], vec![9, 16]]).unwrap());
}

#[test]
fn map_example() {
    let lhs_vector: Vector<f64> = Vector::new(vec![1.5, 2.0]);
    let rhs_vector: Vector<f64> = Vector::new(vec![3.0, 4.0]);

    let lhs_matrix: Matrix<i32> =
        Matrix::from_rows(vec![vec![1, 2, 3], vec![4, 5, 6], vec![8, 9, 10]]).unwrap();

    let rhs_matrix: Matrix<i32> =
        Matrix::from_rows(vec![vec![2, 2, 2], vec![1, 2, 1], vec![0, 3, 0]]).unwrap();

    let meshed_vector =
        lhs_vector.map(&rhs_vector, |lhs_val: &f64, rhs_val: &f64| lhs_val * rhs_val).unwrap();
    let meshed_matrix =
        lhs_matrix.map(&rhs_matrix, |lhs_val: &i32, rhs_val: &i32| lhs_val * rhs_val).unwrap();

    assert_eq!(meshed_vector, Vector::new(vec![4.5, 8.0]));
    assert_eq!(
        meshed_matrix,
        Matrix::from_rows(vec![vec![2, 4, 6], vec![4, 10, 6], vec![0, 27, 0]]).unwrap()
    );
}
