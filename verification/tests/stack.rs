use miniforth::stack::{Error, Stack, CAPACITY};

fn filled(values: &[i64]) -> Stack<i64> {
    let mut stack = Stack::new(0);
    for v in values {
        stack.push(*v).unwrap();
    }
    stack
}

fn values(stack: &Stack<i64>) -> Vec<i64> {
    (0..stack.len()).map(|i| stack.get(i).unwrap()).collect()
}

#[test]
fn new_stack_is_empty() {
    let stack: Stack<i64> = Stack::new(7);
    assert_eq!(stack.len(), 0);
    assert_eq!(stack.get(0), None);
    assert_eq!(stack.peek(), Err(Error::Underflow));
}

#[test]
fn capacity_is_one_hundred() {
    assert_eq!(CAPACITY, 100);
    let stack: Stack<i64> = Stack::new(0);
    assert_eq!(stack.capacity(), 100);
}

#[test]
fn clone_holds_the_same_values() {
    let mut stack = filled(&[1, 2, 3]);
    let copy = stack.clone();
    stack.pop().unwrap();
    assert_eq!(values(&copy), vec![1, 2, 3]);
    assert_eq!(values(&stack), vec![1, 2]);
}

#[test]
fn pops_return_pushes_latest_first() {
    let mut stack = Stack::new(0);
    for v in 1..=100 {
        assert_eq!(stack.push(v), Ok(()));
    }
    assert_eq!(stack.len(), 100);
    for v in (1..=100).rev() {
        assert_eq!(stack.pop(), Ok(v));
    }
    assert_eq!(stack.len(), 0);
}

#[test]
fn push_on_full_stack_overflows() {
    let mut stack = Stack::new(0);
    for v in 0..100 {
        stack.push(v).unwrap();
    }
    assert_eq!(stack.push(100), Err(Error::Overflow));
    assert_eq!(stack.len(), 100);
    assert_eq!(stack.peek(), Ok(99));
}

#[test]
fn pop_on_empty_stack_underflows() {
    let mut stack: Stack<i64> = Stack::new(0);
    assert_eq!(stack.pop(), Err(Error::Underflow));
    assert_eq!(stack.len(), 0);
}

#[test]
fn peek_leaves_the_value() {
    let stack = filled(&[4, 9]);
    assert_eq!(stack.peek(), Ok(9));
    assert_eq!(values(&stack), vec![4, 9]);
}

#[test]
fn get_counts_from_the_bottom() {
    let stack = filled(&[4, 9]);
    assert_eq!(stack.get(0), Some(4));
    assert_eq!(stack.get(1), Some(9));
    assert_eq!(stack.get(2), None);
}

#[test]
fn filler_is_never_a_value() {
    let mut stack: Stack<i64> = Stack::new(42);
    assert_eq!(stack.pop(), Err(Error::Underflow));
    stack.push(1).unwrap();
    assert_eq!(values(&stack), vec![1]);
}

#[test]
fn stack_of_another_type() {
    let mut stack: Stack<char> = Stack::new(' ');
    stack.push('a').unwrap();
    stack.push('b').unwrap();
    assert_eq!(stack.swap(), Ok(()));
    assert_eq!(stack.pop(), Ok('a'));
    assert_eq!(stack.pop(), Ok('b'));
}

#[test]
fn dup_copies_the_top() {
    let mut stack = filled(&[1, 2]);
    assert_eq!(stack.dup(), Ok(()));
    assert_eq!(values(&stack), vec![1, 2, 2]);
}

#[test]
fn dup_on_empty_stack_underflows() {
    let mut stack: Stack<i64> = Stack::new(0);
    assert_eq!(stack.dup(), Err(Error::Underflow));
    assert_eq!(stack.len(), 0);
}

#[test]
fn dup_on_full_stack_overflows() {
    let mut stack = filled(&[5; 100]);
    assert_eq!(stack.dup(), Err(Error::Overflow));
    assert_eq!(stack.len(), 100);
}

#[test]
fn swap_exchanges_the_top_two() {
    let mut stack = filled(&[1, 2, 3]);
    assert_eq!(stack.swap(), Ok(()));
    assert_eq!(values(&stack), vec![1, 3, 2]);
}

#[test]
fn swap_with_one_value_underflows_and_keeps_nothing() {
    let mut stack = filled(&[1]);
    assert_eq!(stack.swap(), Err(Error::Underflow));
    assert_eq!(values(&stack), Vec::<i64>::new());
}

#[test]
fn over_copies_the_second() {
    let mut stack = filled(&[1, 2, 3]);
    assert_eq!(stack.over(), Ok(()));
    assert_eq!(values(&stack), vec![1, 2, 3, 2]);
}

#[test]
fn over_on_full_stack_overflows_and_changes_nothing() {
    let all: Vec<i64> = (0..100).collect();
    let mut stack = filled(&all);
    assert_eq!(stack.over(), Err(Error::Overflow));
    assert_eq!(values(&stack), all);
}

#[test]
fn over_with_one_value_underflows() {
    let mut stack = filled(&[1]);
    assert_eq!(stack.over(), Err(Error::Underflow));
    assert_eq!(stack.len(), 0);
}

#[test]
fn rot_moves_the_top_below_two() {
    let mut stack = filled(&[9, 1, 2, 3]);
    assert_eq!(stack.rot(), Ok(()));
    assert_eq!(values(&stack), vec![9, 3, 1, 2]);
}

#[test]
fn rot_with_two_values_underflows_and_keeps_nothing() {
    let mut stack = filled(&[1, 2]);
    assert_eq!(stack.rot(), Err(Error::Underflow));
    assert_eq!(stack.len(), 0);
}

#[test]
fn add_sums() {
    let mut stack = filled(&[2, 3]);
    assert_eq!(stack.add(), Ok(()));
    assert_eq!(values(&stack), vec![5]);
}

#[test]
fn add_wraps() {
    let mut stack = filled(&[i64::MAX, 1]);
    assert_eq!(stack.add(), Ok(()));
    assert_eq!(values(&stack), vec![i64::MIN]);
}

#[test]
fn sub_takes_the_top_from_the_second() {
    let mut stack = filled(&[5, 2]);
    assert_eq!(stack.sub(), Ok(()));
    assert_eq!(values(&stack), vec![3]);
}

#[test]
fn sub_wraps() {
    let mut stack = filled(&[i64::MIN, 1]);
    assert_eq!(stack.sub(), Ok(()));
    assert_eq!(values(&stack), vec![i64::MAX]);
}

#[test]
fn mul_multiplies() {
    let mut stack = filled(&[2, 3]);
    assert_eq!(stack.mul(), Ok(()));
    assert_eq!(values(&stack), vec![6]);
}

#[test]
fn mul_wraps() {
    let mut stack = filled(&[i64::MAX, 2]);
    assert_eq!(stack.mul(), Ok(()));
    assert_eq!(values(&stack), vec![-2]);
}

#[test]
fn div_divides_the_second_by_the_top() {
    let mut stack = filled(&[6, 3]);
    assert_eq!(stack.div(), Ok(()));
    assert_eq!(values(&stack), vec![2]);
    let mut stack = filled(&[6, 2]);
    assert_eq!(stack.div(), Ok(()));
    assert_eq!(values(&stack), vec![3]);
}

#[test]
fn div_truncates_towards_zero() {
    for (lower, upper, expected) in
        [(7, 2, 3), (-7, 2, -3), (7, -2, -3), (-7, -2, 3), (0, -5, 0), (1, 3, 0), (-1, 3, 0)]
    {
        let mut stack = filled(&[lower, upper]);
        assert_eq!(stack.div(), Ok(()));
        assert_eq!(values(&stack), vec![expected]);
    }
}

#[test]
fn div_by_zero_is_an_error_after_both_pops() {
    let mut stack = filled(&[8, 1, 0]);
    assert_eq!(stack.div(), Err(Error::DivisionByZero));
    assert_eq!(values(&stack), vec![8]);
}

#[test]
fn div_of_least_by_minus_one_wraps() {
    let mut stack = filled(&[i64::MIN, -1]);
    assert_eq!(stack.div(), Ok(()));
    assert_eq!(values(&stack), vec![i64::MIN]);
}

#[test]
fn arithmetic_with_one_value_underflows_and_keeps_nothing() {
    let mut stack = filled(&[1]);
    assert_eq!(stack.add(), Err(Error::Underflow));
    assert_eq!(stack.len(), 0);
    let mut stack = filled(&[1]);
    assert_eq!(stack.sub(), Err(Error::Underflow));
    let mut stack = filled(&[1]);
    assert_eq!(stack.mul(), Err(Error::Underflow));
    let mut stack = filled(&[1]);
    assert_eq!(stack.div(), Err(Error::Underflow));
    let mut stack = filled(&[1]);
    assert_eq!(stack.equals(), Err(Error::Underflow));
    let mut stack = filled(&[1]);
    assert_eq!(stack.gt(), Err(Error::Underflow));
    let mut stack = filled(&[1]);
    assert_eq!(stack.lt(), Err(Error::Underflow));
    assert_eq!(stack.len(), 0);
}

#[test]
fn equals_pushes_a_flag() {
    let mut stack = filled(&[3, 3]);
    assert_eq!(stack.equals(), Ok(()));
    assert_eq!(values(&stack), vec![-1]);
    let mut stack = filled(&[3, 4]);
    assert_eq!(stack.equals(), Ok(()));
    assert_eq!(values(&stack), vec![0]);
}

#[test]
fn lt_compares_the_second_with_the_top() {
    let mut stack = filled(&[2, 3]);
    assert_eq!(stack.lt(), Ok(()));
    assert_eq!(values(&stack), vec![-1]);
    let mut stack = filled(&[3, 2]);
    assert_eq!(stack.lt(), Ok(()));
    assert_eq!(values(&stack), vec![0]);
    let mut stack = filled(&[3, 3]);
    assert_eq!(stack.lt(), Ok(()));
    assert_eq!(values(&stack), vec![0]);
}

#[test]
fn gt_compares_the_second_with_the_top() {
    let mut stack = filled(&[3, 2]);
    assert_eq!(stack.gt(), Ok(()));
    assert_eq!(values(&stack), vec![-1]);
    let mut stack = filled(&[2, 3]);
    assert_eq!(stack.gt(), Ok(()));
    assert_eq!(values(&stack), vec![0]);
    let mut stack = filled(&[3, 3]);
    assert_eq!(stack.gt(), Ok(()));
    assert_eq!(values(&stack), vec![0]);
}
