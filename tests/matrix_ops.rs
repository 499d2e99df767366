use simp_linalg::{LinalgError, Matrix, Vector};

fn grid(rows: Vec<Vec<i32>>) -> Matrix<i32> {
    Matrix::from_rows(rows).unwrap()
}

#[test]
fn from_rows_records_shape() {
    let m = grid(vec![vec![1, 2, 3], vec![4, 5, 6]]);
    assert_eq!((m.rows(), m.cols()), (2, 3));
    assert_eq!(m.into_inner(), vec![vec![1, 2, 3], vec![4, 5, 6]]);
}

#[test]
fn from_rows_of_unequal_lengths_is_refused() {
    let r = Matrix::from_rows(vec![vec![1, 0], vec![1, 2, 3]]);
    assert_eq!(r, Err(LinalgError::NonRectangularInput));
}

#[test]
fn from_no_rows_is_the_empty_matrix() {
    let m: Matrix<i32> = Matrix::from_rows(vec![]).unwrap();
    assert_eq!((m.rows(), m.cols()), (0, 0));
}

#[test]
fn identity_lambda_gives_an_equal_matrix() {
    let m = grid(vec![vec![1, 2], vec![3, 4], vec![5, 6]]);
    assert_eq!(m.lambda(|x: &i32| *x), m);
}

#[test]
fn matrix_times_vector() {
    let m = grid(vec![vec![1, 2], vec![3, 4], vec![5, 6]]);
    let v = Vector::new(vec![1, 2]);
    assert_eq!(m.mul_vector(&v), Ok(Vector::new(vec![5, 11, 17])));
}

#[test]
fn matrix_times_vector_of_wrong_length_is_refused() {
    let m = grid(vec![vec![1, 2], vec![3, 4], vec![5, 6]]);
    let v = Vector::new(vec![1, 2, 3]);
    assert_eq!(m.mul_vector(&v), Err(LinalgError::ShapeMismatch));
}

#[test]
fn matrix_times_matrix() {
    let a = grid(vec![vec![1, 2], vec![3, 4], vec![5, 6]]);
    let b = grid(vec![vec![8, 9, 10, 11], vec![12, 13, 14, 15]]);
    let expected = grid(vec![vec![32, 35, 38, 41], vec![72, 79, 86, 93], vec![112, 123, 134, 145]]);
    assert_eq!(a.mul_matrix(&b), Ok(expected));
}

#[test]
fn matrix_times_matrix_of_wrong_shape_is_refused() {
    let a = grid(vec![vec![1, 2], vec![3, 4], vec![5, 6]]);
    assert_eq!(a.mul_matrix(&a), Err(LinalgError::ShapeMismatch));
}

#[test]
fn matrix_times_matrix_in_place_takes_the_new_column_count() {
    let mut a = grid(vec![vec![1, 2], vec![3, 4], vec![5, 6]]);
    let b = grid(vec![vec![8, 9, 10, 11], vec![12, 13, 14, 15]]);
    a.mul_matrix_mut(&b).unwrap();
    assert_eq!((a.rows(), a.cols()), (3, 4));
    assert_eq!(
        a,
        grid(vec![vec![32, 35, 38, 41], vec![72, 79, 86, 93], vec![112, 123, 134, 145]])
    );
    let mut c = grid(vec![vec![1, 2], vec![3, 4]]);
    assert!(matches!(c.mul_matrix_mut(&b), Ok(_)));
    assert!(matches!(c.mul_matrix_mut(&grid(vec![vec![1]])), Err(LinalgError::ShapeMismatch)));
    assert_eq!(c, grid(vec![vec![32, 35, 38, 41], vec![72, 79, 86, 93]]));
}

#[test]
fn add_of_different_shapes_is_refused() {
    let a = grid(vec![vec![1, 2], vec![3, 4], vec![5, 6]]);
    let b = grid(vec![vec![1, 2, 3], vec![4, 5, 6]]);
    assert_eq!(a.add(&b), Err(LinalgError::ShapeMismatch));
}

#[test]
fn add_is_elementwise() {
    let a = grid(vec![vec![1, 2], vec![3, 4]]);
    let b = grid(vec![vec![10, 20], vec![30, 40]]);
    assert_eq!(a.add(&b), Ok(grid(vec![vec![11, 22], vec![33, 44]])));
}

#[test]
fn add_mut_overwrites_in_place_or_leaves_alone() {
    let mut a = grid(vec![vec![1, 2], vec![3, 4]]);
    let b = grid(vec![vec![10, 20], vec![30, 40]]);
    a.add_mut(&b).unwrap();
    assert_eq!(a, grid(vec![vec![11, 22], vec![33, 44]]));
    assert!(matches!(a.add_mut(&grid(vec![vec![1, 2]])), Err(LinalgError::ShapeMismatch)));
    assert_eq!(a, grid(vec![vec![11, 22], vec![33, 44]]));
}

#[test]
fn scalar_multiplication_of_a_matrix() {
    let a = grid(vec![vec![1, 2, 3], vec![4, 5, 6]]);
    let expected = grid(vec![vec![3, 6, 9], vec![12, 15, 18]]);
    assert_eq!(a.mul(3), expected);
    assert_eq!(Matrix::left_mul(3, &a), expected);
    let mut b = a.clone();
    b.mul_mut(3);
    assert_eq!(b, expected);
}

#[test]
fn scalar_multiplication_of_a_matrix_wraps() {
    let a = Matrix::from_rows(vec![vec![u16::MAX]]).unwrap();
    assert_eq!(a.mul(2), Matrix::from_rows(vec![vec![u16::MAX - 1]]).unwrap());
}

#[test]
fn map_family_on_matrices() {
    let a = grid(vec![vec![1, 2], vec![3, 4]]);
    let b = grid(vec![vec![5, 6], vec![7, 8]]);
    assert_eq!(
        a.map(&b, |x: &i32, y: &i32| x * y),
        Ok(grid(vec![vec![5, 12], vec![21, 32]]))
    );
    assert_eq!(
        a.map_enumerate(&b, |i: usize, j: usize, x: &i32, y: &i32| (i * 10 + j) as i32 + x + y),
        Ok(grid(vec![vec![6, 9], vec![20, 23]]))
    );
    let c = grid(vec![vec![1, 2, 3]]);
    assert_eq!(a.map(&c, |x: &i32, y: &i32| x * y), Err(LinalgError::ShapeMismatch));
    assert_eq!(
        a.map_enumerate(&c, |_: usize, _: usize, x: &i32, y: &i32| x * y),
        Err(LinalgError::ShapeMismatch)
    );
}

#[test]
fn mutating_maps_on_matrices() {
    let mut a = grid(vec![vec![1, 2], vec![3, 4]]);
    let b = grid(vec![vec![5, 6], vec![7, 8]]);
    a.map_mut(&b, |x: &i32, y: &i32| x * y).unwrap();
    assert_eq!(a, grid(vec![vec![5, 12], vec![21, 32]]));
    a.map_enumerate_mut(&b, |i: usize, j: usize, x: &i32, y: &i32| x - y + (i * 10 + j) as i32)
        .unwrap();
    assert_eq!(a, grid(vec![vec![0, 7], vec![24, 35]]));
    let c = grid(vec![vec![1]]);
    assert!(matches!(a.map_mut(&c, |x: &i32, y: &i32| x * y), Err(LinalgError::ShapeMismatch)));
    assert_eq!(a, grid(vec![vec![0, 7], vec![24, 35]]));
}

#[test]
fn lambda_family_on_matrices() {
    let a = grid(vec![vec![1, 2], vec![3, 4]]);
    assert_eq!(a.lambda(|x: &i32| x * x), grid(vec![vec![1, 4], vec![9, 16]]));
    assert_eq!(
        a.lambda_index(|i: usize, j: usize| (i * 10 + j) as i32),
        grid(vec![vec![0, 1], vec![10, 11]])
    );
    assert_eq!(
        a.lambda_enumerate(|i: usize, j: usize, x: &i32| (i * 10 + j) as i32 * x),
        grid(vec![vec![0, 2], vec![30, 44]])
    );
}

#[test]
fn mutating_lambda_squares_the_same_matrix() {
    let mut m = grid(vec![vec![1, 2], vec![3, 4]]);
    let handle = m.lambda_mut(|x: &i32| x * x);
    assert_eq!(*handle, grid(vec![vec![1, 4], vec![9, 16]]));
    handle.lambda_mut(|x: &i32| x + 1);
    assert_eq!(m, grid(vec![vec![2, 5], vec![10, 17]]));
}

#[test]
fn mutating_index_lambdas_on_matrices() {
    let mut m = grid(vec![vec![1, 2], vec![3, 4]]);
    m.lambda_enumerate_mut(|i: usize, j: usize, x: &i32| x * 10 + (i * 2 + j) as i32)
        .lambda_index_mut(|i: usize, j: usize| (i + j) as i32);
    assert_eq!(m, grid(vec![vec![0, 1], vec![1, 2]]));
    let mut n = grid(vec![vec![1, 2], vec![3, 4]]);
    n.lambda_enumerate_mut(|i: usize, j: usize, x: &i32| x * 10 + (i * 2 + j) as i32);
    assert_eq!(n, grid(vec![vec![10, 21], vec![32, 43]]));
}

#[test]
fn row_or_column_matrix_into_vector() {
    let row = grid(vec![vec![1, 2, 4]]);
    assert_eq!(row.into_vector(), Ok(Vector::new(vec![1, 2, 4])));
    let col = grid(vec![vec![1], vec![2], vec![3]]);
    assert_eq!(col.into_vector(), Ok(Vector::new(vec![1, 2, 3])));
    let square = grid(vec![vec![1, 2], vec![3, 4]]);
    assert_eq!(square.into_vector(), Err(LinalgError::InvalidConversion));
}
