use simp_linalg::{LinalgError, Vector};

#[test]
fn add_is_elementwise_and_keeps_length() {
    let a = Vector::new(vec![1, -2, 3, 40]);
    let b = Vector::new(vec![10, 20, -30, 2]);
    let sum = a.add(&b).unwrap();
    assert_eq!(sum.len(), 4);
    assert_eq!(sum.into_inner(), vec![11, 18, -27, 42]);
}

#[test]
fn add_of_empty_vectors_is_empty() {
    let a: Vector<u8> = Vector::new(vec![]);
    let b: Vector<u8> = Vector::new(vec![]);
    assert_eq!(a.add(&b).unwrap().len(), 0);
}

#[test]
fn add_of_unequal_lengths_is_refused() {
    let a = Vector::new(vec![1, 2, 3]);
    let b = Vector::new(vec![1, 2]);
    assert_eq!(a.add(&b), Err(LinalgError::ShapeMismatch));
}

#[test]
fn add_wraps_on_overflow() {
    let a = Vector::new(vec![127i8, -128]);
    let b = Vector::new(vec![1i8, -1]);
    assert_eq!(a.add(&b).unwrap(), Vector::new(vec![-128i8, 127]));
}

#[test]
fn add_mut_overwrites_in_place() {
    let mut a = Vector::new(vec![1, 2, 3]);
    let b = Vector::new(vec![4, 5, 6]);
    a.add_mut(&b).unwrap().mul_mut(2);
    assert_eq!(a, Vector::new(vec![10, 14, 18]));
}

#[test]
fn add_mut_refused_leaves_vector_unchanged() {
    let mut a = Vector::new(vec![1, 2, 3]);
    let b = Vector::new(vec![4]);
    assert!(matches!(a.add_mut(&b), Err(LinalgError::ShapeMismatch)));
    assert_eq!(a, Vector::new(vec![1, 2, 3]));
}

#[test]
fn scalar_multiplication_chains_like_one_product() {
    let a = Vector::new(vec![1, -2, 7]);
    let twice = a.mul(3).mul(5);
    let once = a.mul(3 * 5);
    assert_eq!(twice, once);
    assert_eq!(once, Vector::new(vec![15, -30, 105]));
}

#[test]
fn scalar_multiplication_wraps_on_overflow() {
    let a = Vector::new(vec![200u8, 3]);
    assert_eq!(a.mul(2), Vector::new(vec![144u8, 6]));
}

#[test]
fn scalar_on_the_left() {
    let a = Vector::new(vec![1u64, 2, 3]);
    assert_eq!(Vector::left_mul(4, &a), Vector::new(vec![4u64, 8, 12]));
}

#[test]
fn dot_product_of_three_elements() {
    let a = Vector::new(vec![1, 2, 3]);
    let b = Vector::new(vec![4, 5, 6]);
    assert_eq!(a.dot(&b), Ok(32));
}

#[test]
fn dot_product_of_empty_vectors_is_zero() {
    let a: Vector<i64> = Vector::new(vec![]);
    assert_eq!(a.dot(&a), Ok(0));
}

#[test]
fn dot_product_of_unequal_lengths_is_refused() {
    let a = Vector::new(vec![1, 2, 3]);
    let b = Vector::new(vec![4, 5]);
    assert_eq!(a.dot(&b), Err(LinalgError::ShapeMismatch));
}

#[test]
fn map_multiplies_elementwise() {
    let a = Vector::new(vec![1, 2, 3]);
    let b = Vector::new(vec![4, 5, 6]);
    let r = a.map(&b, |x: &i32, y: &i32| x * y).unwrap();
    assert_eq!(r, Vector::new(vec![4, 10, 18]));
}

#[test]
fn map_of_unequal_lengths_is_refused() {
    let a = Vector::new(vec![1, 2, 3]);
    let b = Vector::new(vec![4, 5, 6, 7]);
    assert_eq!(a.map(&b, |x: &i32, y: &i32| x * y), Err(LinalgError::ShapeMismatch));
    assert_eq!(
        a.map_enumerate(&b, |_: usize, x: &i32, y: &i32| x * y),
        Err(LinalgError::ShapeMismatch)
    );
}

#[test]
fn map_enumerate_sees_positions() {
    let a = Vector::new(vec![1, 2, 3]);
    let b = Vector::new(vec![10, 20, 30]);
    let r = a.map_enumerate(&b, |i: usize, x: &i32, y: &i32| i as i32 * 100 + x + y).unwrap();
    assert_eq!(r, Vector::new(vec![11, 122, 233]));
}

#[test]
fn map_mut_and_map_enumerate_mut_overwrite_in_place() {
    let mut a = Vector::new(vec![1, 2, 3]);
    let b = Vector::new(vec![4, 5, 6]);
    a.map_mut(&b, |x: &i32, y: &i32| x * y).unwrap();
    assert_eq!(a, Vector::new(vec![4, 10, 18]));
    a.map_enumerate_mut(&b, |i: usize, x: &i32, y: &i32| x - y + i as i32).unwrap();
    assert_eq!(a, Vector::new(vec![0, 6, 14]));
}

#[test]
fn lambda_family_on_vectors() {
    let a = Vector::new(vec![1, 2, 3]);
    assert_eq!(a.lambda(|x: &i32| x * x), Vector::new(vec![1, 4, 9]));
    assert_eq!(a.lambda_index(|i: usize| i as i32 + 1), Vector::new(vec![1, 2, 3]));
    assert_eq!(a.lambda_enumerate(|i: usize, x: &i32| i as i32 * x), Vector::new(vec![0, 2, 6]));
}

#[test]
fn lambda_on_non_numeric_elements() {
    let a = Vector::new(vec![String::from("ab"), String::from("c")]);
    let r = a.lambda(|s: &String| s.repeat(2));
    assert_eq!(r.into_inner(), vec![String::from("abab"), String::from("cc")]);
}

#[test]
fn mutating_lambdas_chain_on_the_same_vector() {
    let mut a = Vector::new(vec![1, 2, 3]);
    a.lambda_mut(|x: &i32| x * x)
        .lambda_enumerate_mut(|i: usize, x: &i32| x + i as i32)
        .lambda_index_mut(|i: usize| i as i32 * 7);
    assert_eq!(a, Vector::new(vec![0, 7, 14]));
    let mut b = Vector::new(vec![1, 2, 3]);
    b.lambda_mut(|x: &i32| x * x).lambda_enumerate_mut(|i: usize, x: &i32| x + i as i32);
    assert_eq!(b, Vector::new(vec![1, 5, 11]));
}

#[test]
fn vector_accessors() {
    let a = Vector::new(vec![5, 6]);
    assert_eq!(a.len(), 2);
    assert_eq!(a.list(), &vec![5, 6]);
    assert_eq!(a.into_inner(), vec![5, 6]);
}

#[test]
fn vector_into_row_and_column_matrices() {
    let row = Vector::new(vec![1, 2, 3]).into_row_matrix();
    assert_eq!((row.rows(), row.cols()), (1, 3));
    assert_eq!(row.into_inner(), vec![vec![1, 2, 3]]);
    let col = Vector::new(vec![1, 2, 3]).into_col_matrix();
    assert_eq!((col.rows(), col.cols()), (3, 1));
    assert_eq!(col.into_inner(), vec![vec![1], vec![2], vec![3]]);
}
