use raypy::execute;
use raypy::CallError;

#[test]
fn squares_in_order() {
    let inputs = vec![1, 2, 3, 4, 5];
    let outputs = execute(|x: i32| Ok(x * x), &inputs);
    assert_eq!(outputs, vec![1, 4, 9, 16, 25]);
}

#[test]
fn empty_input_returns_empty() {
    let inputs: Vec<i32> = vec![];
    let outputs = execute(|x: i32| Ok(x), &inputs);
    assert_eq!(outputs, Vec::<i32>::new());
}

#[test]
fn length_matches_input_length() {
    for n in [0usize, 1, 2, 7, 100, 1000] {
        let inputs: Vec<i32> = (0..n as i32).collect();
        let outputs = execute(|x: i32| Ok(x), &inputs);
        assert_eq!(outputs.len(), inputs.len());
    }
}

#[test]
fn invocation_fault_masked_with_zero() {
    let inputs = vec![2, -1, 4];
    let outputs = execute(
        |x: i32| {
            if x < 0 {
                Err(CallError::Invocation(String::from("negative input")))
            } else {
                Ok(x + 10)
            }
        },
        &inputs,
    );
    assert_eq!(outputs, vec![12, 0, 14]);
}

#[test]
fn extraction_fault_masked_with_zero() {
    let inputs = vec![3, 6, 9, 12];
    let outputs = execute(
        |x: i32| {
            if x % 2 == 0 {
                Err(CallError::Extraction)
            } else {
                Ok(x * 2)
            }
        },
        &inputs,
    );
    assert_eq!(outputs, vec![6, 0, 18, 0]);
}

#[test]
fn faults_do_not_abort_the_batch() {
    let inputs = vec![-5, -6, -7];
    let outputs = execute(
        |_x: i32| Err(CallError::Invocation(String::from("always fails"))),
        &inputs,
    );
    assert_eq!(outputs, vec![0, 0, 0]);
}

#[test]
fn repeated_calls_agree() {
    let inputs = vec![10, -3, 0, 25, 7];
    let f = |x: i32| {
        if x < 0 {
            Err(CallError::Extraction)
        } else {
            Ok(x - 1)
        }
    };
    let first = execute(f, &inputs);
    let second = execute(f, &inputs);
    let third = execute(f, &inputs);
    assert_eq!(first, second);
    assert_eq!(second, third);
    assert_eq!(first, vec![9, 0, -1, 24, 6]);
}

#[test]
fn results_differ_from_inputs() {
    let inputs = vec![0, 0, 0, 0];
    let outputs = execute(|x: i32| Ok(x + 1), &inputs);
    assert_eq!(outputs, vec![1, 1, 1, 1]);
}

#[test]
fn extreme_values_pass_through() {
    let inputs = vec![i32::MAX, i32::MIN, 0];
    let outputs = execute(|x: i32| Ok(x), &inputs);
    assert_eq!(outputs, vec![i32::MAX, i32::MIN, 0]);
}

#[test]
fn large_batch_is_ordered_under_concurrency() {
    let inputs: Vec<i32> = (0..20_000).collect();
    let expected: Vec<i32> = inputs.iter().map(|&x| x.wrapping_mul(3)).collect();
    for _ in 0..3 {
        let outputs = execute(|x: i32| Ok(x.wrapping_mul(3)), &inputs);
        assert_eq!(outputs, expected);
    }
}
