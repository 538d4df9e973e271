use atomik::{Atomic, Ordering};

#[test]
fn should_check_methods_work_on_u8() {
    let num = Atomic::<u8>::new(0);

    assert_eq!(num.load(Ordering::Relaxed), 0);
    num.store(1, Ordering::Relaxed);
    assert_eq!(num.load(Ordering::Relaxed), 1);
    assert_eq!(num.swap(5, Ordering::Relaxed), 1);
    assert_eq!(num.load(Ordering::Relaxed), 5);

    assert_eq!(num.compare_exchange(5, 10, Ordering::Acquire, Ordering::Relaxed), Ok(5));
    assert_eq!(num.load(Ordering::Relaxed), 10);
    assert_eq!(num.compare_exchange(9, 20, Ordering::Acquire, Ordering::Relaxed), Err(10));
    assert_eq!(num.compare_exchange(10, 20, Ordering::Acquire, Ordering::Relaxed), Ok(10));
    assert_eq!(num.load(Ordering::Relaxed), 20);
    assert_eq!(num.compare_exchange(5, 10, Ordering::Acquire, Ordering::Relaxed), Err(20));

    assert_eq!(num.fetch_sub(17, Ordering::Relaxed), 20);
    assert_eq!(num.fetch_add(7, Ordering::Relaxed), 3);
    assert_eq!(num.fetch_sub(10, Ordering::Relaxed), 10);
    assert_eq!(num.fetch_sub(1, Ordering::Relaxed), 0);
    assert_eq!(num.fetch_and(0, Ordering::Relaxed), u8::max_value());

    assert_eq!(num.fetch_add(0b101101, Ordering::Relaxed), 0);
    assert_eq!(num.fetch_or(0b110011, Ordering::Relaxed), 0b101101);

    num.store(0b101101, Ordering::Relaxed);
    assert_eq!(num.fetch_xor(0b110011, Ordering::Relaxed), 0b101101);
    assert_eq!(num.load(Ordering::Relaxed), 0b011110);

    num.store(0x13, Ordering::Relaxed);
    assert_eq!(num.fetch_nand(0x31, Ordering::Relaxed), 0x13);
    assert_eq!(num.load(Ordering::Relaxed), !(0x13 & 0x31));

    num.store(0b101101, Ordering::Relaxed);
    assert_eq!(num.fetch_and(0b110011, Ordering::Relaxed), 0b101101);
    assert_eq!(num.load(Ordering::Relaxed), 0b100001);

    num.store(7, Ordering::Relaxed);
    assert_eq!(num.fetch_update(Ordering::SeqCst, Ordering::SeqCst, |_| None), Err(7));
    assert_eq!(num.fetch_update(Ordering::SeqCst, Ordering::SeqCst, |x| Some(x + 1)), Ok(7));
    assert_eq!(num.fetch_update(Ordering::SeqCst, Ordering::SeqCst, |x| Some(x + 1)), Ok(8));
    assert_eq!(num.load(Ordering::SeqCst), 9);
}

#[test]
fn should_check_methods_work_on_u16() {
    let num = Atomic::<u16>::new(0);

    assert_eq!(num.load(Ordering::Relaxed), 0);
    num.store(1, Ordering::Relaxed);
    assert_eq!(num.load(Ordering::Relaxed), 1);
    assert_eq!(num.swap(5, Ordering::Relaxed), 1);
    assert_eq!(num.load(Ordering::Relaxed), 5);

    assert_eq!(num.compare_exchange(5, 10, Ordering::Acquire, Ordering::Relaxed), Ok(5));
    assert_eq!(num.load(Ordering::Relaxed), 10);
    assert_eq!(num.compare_exchange(9, 20, Ordering::Acquire, Ordering::Relaxed), Err(10));
    assert_eq!(num.compare_exchange(10, 20, Ordering::Acquire, Ordering::Relaxed), Ok(10));
    assert_eq!(num.load(Ordering::Relaxed), 20);
    assert_eq!(num.compare_exchange(5, 10, Ordering::Acquire, Ordering::Relaxed), Err(20));

    assert_eq!(num.fetch_sub(17, Ordering::Relaxed), 20);
    assert_eq!(num.fetch_add(7, Ordering::Relaxed), 3);
    assert_eq!(num.fetch_sub(10, Ordering::Relaxed), 10);
    assert_eq!(num.fetch_sub(1, Ordering::Relaxed), 0);
    assert_eq!(num.fetch_and(0, Ordering::Relaxed), u16::max_value());

    assert_eq!(num.fetch_add(0b101101, Ordering::Relaxed), 0);
    assert_eq!(num.fetch_or(0b110011, Ordering::Relaxed), 0b101101);

    num.store(0b101101, Ordering::Relaxed);
    assert_eq!(num.fetch_xor(0b110011, Ordering::Relaxed), 0b101101);
    assert_eq!(num.load(Ordering::Relaxed), 0b011110);

    num.store(0x13, Ordering::Relaxed);
    assert_eq!(num.fetch_nand(0x31, Ordering::Relaxed), 0x13);
    assert_eq!(num.load(Ordering::Relaxed), !(0x13 & 0x31));

    num.store(0b101101, Ordering::Relaxed);
    assert_eq!(num.fetch_and(0b110011, Ordering::Relaxed), 0b101101);
    assert_eq!(num.load(Ordering::Relaxed), 0b100001);

    num.store(7, Ordering::Relaxed);
    assert_eq!(num.fetch_update(Ordering::SeqCst, Ordering::SeqCst, |_| None), Err(7));
    assert_eq!(num.fetch_update(Ordering::SeqCst, Ordering::SeqCst, |x| Some(x + 1)), Ok(7));
    assert_eq!(num.fetch_update(Ordering::SeqCst, Ordering::SeqCst, |x| Some(x + 1)), Ok(8));
    assert_eq!(num.load(Ordering::SeqCst), 9);
}

#[test]
fn should_check_methods_work_on_u32() {
    let num = Atomic::<u32>::new(0);

    assert_eq!(num.load(Ordering::Relaxed), 0);
    num.store(1, Ordering::Relaxed);
    assert_eq!(num.load(Ordering::Relaxed), 1);
    assert_eq!(num.swap(5, Ordering::Relaxed), 1);
    assert_eq!(num.load(Ordering::Relaxed), 5);

    assert_eq!(num.compare_exchange(5, 10, Ordering::Acquire, Ordering::Relaxed), Ok(5));
    assert_eq!(num.load(Ordering::Relaxed), 10);
    assert_eq!(num.compare_exchange(9, 20, Ordering::Acquire, Ordering::Relaxed), Err(10));
    assert_eq!(num.compare_exchange(10, 20, Ordering::Acquire, Ordering::Relaxed), Ok(10));
    assert_eq!(num.load(Ordering::Relaxed), 20);
    assert_eq!(num.compare_exchange(5, 10, Ordering::Acquire, Ordering::Relaxed), Err(20));

    assert_eq!(num.fetch_sub(17, Ordering::Relaxed), 20);
    assert_eq!(num.fetch_add(7, Ordering::Relaxed), 3);
    assert_eq!(num.fetch_sub(10, Ordering::Relaxed), 10);
    assert_eq!(num.fetch_sub(1, Ordering::Relaxed), 0);
    assert_eq!(num.fetch_and(0, Ordering::Relaxed), u32::max_value());

    assert_eq!(num.fetch_add(0b101101, Ordering::Relaxed), 0);
    assert_eq!(num.fetch_or(0b110011, Ordering::Relaxed), 0b101101);

    num.store(0b101101, Ordering::Relaxed);
    assert_eq!(num.fetch_xor(0b110011, Ordering::Relaxed), 0b101101);
    assert_eq!(num.load(Ordering::Relaxed), 0b011110);

    num.store(0x13, Ordering::Relaxed);
    assert_eq!(num.fetch_nand(0x31, Ordering::Relaxed), 0x13);
    assert_eq!(num.load(Ordering::Relaxed), !(0x13 & 0x31));

    num.store(0b101101, Ordering::Relaxed);
    assert_eq!(num.fetch_and(0b110011, Ordering::Relaxed), 0b101101);
    assert_eq!(num.load(Ordering::Relaxed), 0b100001);

    num.store(7, Ordering::Relaxed);
    assert_eq!(num.fetch_update(Ordering::SeqCst, Ordering::SeqCst, |_| None), Err(7));
    assert_eq!(num.fetch_update(Ordering::SeqCst, Ordering::SeqCst, |x| Some(x + 1)), Ok(7));
    assert_eq!(num.fetch_update(Ordering::SeqCst, Ordering::SeqCst, |x| Some(x + 1)), Ok(8));
    assert_eq!(num.load(Ordering::SeqCst), 9);
}

#[test]
fn should_check_methods_work_on_u64() {
    let num = Atomic::<u64>::new(0);

    assert_eq!(num.load(Ordering::Relaxed), 0);
    num.store(1, Ordering::Relaxed);
    assert_eq!(num.load(Ordering::Relaxed), 1);
    assert_eq!(num.swap(5, Ordering::Relaxed), 1);
    assert_eq!(num.load(Ordering::Relaxed), 5);

    assert_eq!(num.compare_exchange(5, 10, Ordering::Acquire, Ordering::Relaxed), Ok(5));
    assert_eq!(num.load(Ordering::Relaxed), 10);
    assert_eq!(num.compare_exchange(9, 20, Ordering::Acquire, Ordering::Relaxed), Err(10));
    assert_eq!(num.compare_exchange(10, 20, Ordering::Acquire, Ordering::Relaxed), Ok(10));
    assert_eq!(num.load(Ordering::Relaxed), 20);
    assert_eq!(num.compare_exchange(5, 10, Ordering::Acquire, Ordering::Relaxed), Err(20));

    assert_eq!(num.fetch_sub(17, Ordering::Relaxed), 20);
    assert_eq!(num.fetch_add(7, Ordering::Relaxed), 3);
    assert_eq!(num.fetch_sub(10, Ordering::Relaxed), 10);
    assert_eq!(num.fetch_sub(1, Ordering::Relaxed), 0);
    assert_eq!(num.fetch_and(0, Ordering::Relaxed), u64::max_value());

    assert_eq!(num.fetch_add(0b101101, Ordering::Relaxed), 0);
    assert_eq!(num.fetch_or(0b110011, Ordering::Relaxed), 0b101101);

    num.store(0b101101, Ordering::Relaxed);
    assert_eq!(num.fetch_xor(0b110011, Ordering::Relaxed), 0b101101);
    assert_eq!(num.load(Ordering::Relaxed), 0b011110);

    num.store(0x13, Ordering::Relaxed);
    assert_eq!(num.fetch_nand(0x31, Ordering::Relaxed), 0x13);
    assert_eq!(num.load(Ordering::Relaxed), !(0x13 & 0x31));

    num.store(0b101101, Ordering::Relaxed);
    assert_eq!(num.fetch_and(0b110011, Ordering::Relaxed), 0b101101);
    assert_eq!(num.load(Ordering::Relaxed), 0b100001);

    num.store(7, Ordering::Relaxed);
    assert_eq!(num.fetch_update(Ordering::SeqCst, Ordering::SeqCst, |_| None), Err(7));
    assert_eq!(num.fetch_update(Ordering::SeqCst, Ordering::SeqCst, |x| Some(x + 1)), Ok(7));
    assert_eq!(num.fetch_update(Ordering::SeqCst, Ordering::SeqCst, |x| Some(x + 1)), Ok(8));
    assert_eq!(num.load(Ordering::SeqCst), 9);
}

#[test]
fn should_check_methods_work_on_usize() {
    let num = Atomic::<usize>::new(0);

    assert_eq!(num.load(Ordering::Relaxed), 0);
    num.store(1, Ordering::Relaxed);
    assert_eq!(num.load(Ordering::Relaxed), 1);
    assert_eq!(num.swap(5, Ordering::Relaxed), 1);
    assert_eq!(num.load(Ordering::Relaxed), 5);

    assert_eq!(num.compare_exchange(5, 10, Ordering::Acquire, Ordering::Relaxed), Ok(5));
    assert_eq!(num.load(Ordering::Relaxed), 10);
    assert_eq!(num.compare_exchange(9, 20, Ordering::Acquire, Ordering::Relaxed), Err(10));
    assert_eq!(num.compare_exchange(10, 20, Ordering::Acquire, Ordering::Relaxed), Ok(10));
    assert_eq!(num.load(Ordering::Relaxed), 20);
    assert_eq!(num.compare_exchange(5, 10, Ordering::Acquire, Ordering::Relaxed), Err(20));

    assert_eq!(num.fetch_sub(17, Ordering::Relaxed), 20);
    assert_eq!(num.fetch_add(7, Ordering::Relaxed), 3);
    assert_eq!(num.fetch_sub(10, Ordering::Relaxed), 10);
    assert_eq!(num.fetch_sub(1, Ordering::Relaxed), 0);
    assert_eq!(num.fetch_and(0, Ordering::Relaxed), usize::max_value());

    assert_eq!(num.fetch_add(0b101101, Ordering::Relaxed), 0);
    assert_eq!(num.fetch_or(0b110011, Ordering::Relaxed), 0b101101);

    num.store(0b101101, Ordering::Relaxed);
    assert_eq!(num.fetch_xor(0b110011, Ordering::Relaxed), 0b101101);
    assert_eq!(num.load(Ordering::Relaxed), 0b011110);

    num.store(0x13, Ordering::Relaxed);
    assert_eq!(num.fetch_nand(0x31, Ordering::Relaxed), 0x13);
    assert_eq!(num.load(Ordering::Relaxed), !(0x13 & 0x31));

    num.store(0b101101, Ordering::Relaxed);
    assert_eq!(num.fetch_and(0b110011, Ordering::Relaxed), 0b101101);
    assert_eq!(num.load(Ordering::Relaxed), 0b100001);

    num.store(7, Ordering::Relaxed);
    assert_eq!(num.fetch_update(Ordering::SeqCst, Ordering::SeqCst, |_| None), Err(7));
    assert_eq!(num.fetch_update(Ordering::SeqCst, Ordering::SeqCst, |x| Some(x + 1)), Ok(7));
    assert_eq!(num.fetch_update(Ordering::SeqCst, Ordering::SeqCst, |x| Some(x + 1)), Ok(8));
    assert_eq!(num.load(Ordering::SeqCst), 9);
}

#[test]
fn should_check_methods_work_on_i8() {
    let num = Atomic::<i8>::new(0);

    assert_eq!(num.load(Ordering::Relaxed), 0);
    num.store(1, Ordering::Relaxed);
    assert_eq!(num.load(Ordering::Relaxed), 1);
    assert_eq!(num.swap(5, Ordering::Relaxed), 1);
    assert_eq!(num.load(Ordering::Relaxed), 5);

    assert_eq!(num.compare_exchange(5, 10, Ordering::Acquire, Ordering::Relaxed), Ok(5));
    assert_eq!(num.load(Ordering::Relaxed), 10);
    assert_eq!(num.compare_exchange(9, 20, Ordering::Acquire, Ordering::Relaxed), Err(10));
    assert_eq!(num.compare_exchange(10, 20, Ordering::Acquire, Ordering::Relaxed), Ok(10));
    assert_eq!(num.load(Ordering::Relaxed), 20);
    assert_eq!(num.compare_exchange(5, 10, Ordering::Acquire, Ordering::Relaxed), Err(20));

    assert_eq!(num.fetch_sub(17, Ordering::Relaxed), 20);
    assert_eq!(num.fetch_add(7, Ordering::Relaxed), 3);
    assert_eq!(num.fetch_sub(10, Ordering::Relaxed), 10);

    assert_eq!(num.fetch_add(i8::max_value(), Ordering::Relaxed), 0);
    assert_eq!(num.fetch_add(1, Ordering::Relaxed), i8::max_value());
    assert_eq!(num.fetch_sub(i8::min_value(), Ordering::Relaxed), i8::min_value());

    num.store(0b101101, Ordering::Relaxed);
    assert_eq!(num.fetch_or(0b110011, Ordering::Relaxed), 0b101101);

    num.store(0b101101, Ordering::Relaxed);
    assert_eq!(num.fetch_xor(0b110011, Ordering::Relaxed), 0b101101);
    assert_eq!(num.load(Ordering::Relaxed), 0b011110);

    num.store(0x13, Ordering::Relaxed);
    assert_eq!(num.fetch_nand(0x31, Ordering::Relaxed), 0x13);
    assert_eq!(num.load(Ordering::Relaxed), !(0x13 & 0x31));

    num.store(0b101101, Ordering::Relaxed);
    assert_eq!(num.fetch_and(0b110011, Ordering::Relaxed), 0b101101);
    assert_eq!(num.load(Ordering::Relaxed), 0b100001);

    num.store(7, Ordering::Relaxed);
    assert_eq!(num.fetch_update(Ordering::SeqCst, Ordering::SeqCst, |_| None), Err(7));
    assert_eq!(num.fetch_update(Ordering::SeqCst, Ordering::SeqCst, |x| Some(x + 1)), Ok(7));
    assert_eq!(num.fetch_update(Ordering::SeqCst, Ordering::SeqCst, |x| Some(x + 1)), Ok(8));
    assert_eq!(num.load(Ordering::SeqCst), 9);
}

#[test]
fn should_check_methods_work_on_i16() {
    let num = Atomic::<i16>::new(0);

    assert_eq!(num.load(Ordering::Relaxed), 0);
    num.store(1, Ordering::Relaxed);
    assert_eq!(num.load(Ordering::Relaxed), 1);
    assert_eq!(num.swap(5, Ordering::Relaxed), 1);
    assert_eq!(num.load(Ordering::Relaxed), 5);

    assert_eq!(num.compare_exchange(5, 10, Ordering::Acquire, Ordering::Relaxed), Ok(5));
    assert_eq!(num.load(Ordering::Relaxed), 10);
    assert_eq!(num.compare_exchange(9, 20, Ordering::Acquire, Ordering::Relaxed), Err(10));
    assert_eq!(num.compare_exchange(10, 20, Ordering::Acquire, Ordering::Relaxed), Ok(10));
    assert_eq!(num.load(Ordering::Relaxed), 20);
    assert_eq!(num.compare_exchange(5, 10, Ordering::Acquire, Ordering::Relaxed), Err(20));

    assert_eq!(num.fetch_sub(17, Ordering::Relaxed), 20);
    assert_eq!(num.fetch_add(7, Ordering::Relaxed), 3);
    assert_eq!(num.fetch_sub(10, Ordering::Relaxed), 10);

    assert_eq!(num.fetch_add(i16::max_value(), Ordering::Relaxed), 0);
    assert_eq!(num.fetch_add(1, Ordering::Relaxed), i16::max_value());
    assert_eq!(num.fetch_sub(i16::min_value(), Ordering::Relaxed), i16::min_value());

    num.store(0b101101, Ordering::Relaxed);
    assert_eq!(num.fetch_or(0b110011, Ordering::Relaxed), 0b101101);

    num.store(0b101101, Ordering::Relaxed);
    assert_eq!(num.fetch_xor(0b110011, Ordering::Relaxed), 0b101101);
    assert_eq!(num.load(Ordering::Relaxed), 0b011110);

    num.store(0x13, Ordering::Relaxed);
    assert_eq!(num.fetch_nand(0x31, Ordering::Relaxed), 0x13);
    assert_eq!(num.load(Ordering::Relaxed), !(0x13 & 0x31));

    num.store(0b101101, Ordering::Relaxed);
    assert_eq!(num.fetch_and(0b110011, Ordering::Relaxed), 0b101101);
    assert_eq!(num.load(Ordering::Relaxed), 0b100001);

    num.store(7, Ordering::Relaxed);
    assert_eq!(num.fetch_update(Ordering::SeqCst, Ordering::SeqCst, |_| None), Err(7));
    assert_eq!(num.fetch_update(Ordering::SeqCst, Ordering::SeqCst, |x| Some(x + 1)), Ok(7));
    assert_eq!(num.fetch_update(Ordering::SeqCst, Ordering::SeqCst, |x| Some(x + 1)), Ok(8));
    assert_eq!(num.load(Ordering::SeqCst), 9);
}

#[test]
fn should_check_methods_work_on_i32() {
    let num = Atomic::<i32>::new(0);

    assert_eq!(num.load(Ordering::Relaxed), 0);
    num.store(1, Ordering::Relaxed);
    assert_eq!(num.load(Ordering::Relaxed), 1);
    assert_eq!(num.swap(5, Ordering::Relaxed), 1);
    assert_eq!(num.load(Ordering::Relaxed), 5);

    assert_eq!(num.compare_exchange(5, 10, Ordering::Acquire, Ordering::Relaxed), Ok(5));
    assert_eq!(num.load(Ordering::Relaxed), 10);
    assert_eq!(num.compare_exchange(9, 20, Ordering::Acquire, Ordering::Relaxed), Err(10));
    assert_eq!(num.compare_exchange(10, 20, Ordering::Acquire, Ordering::Relaxed), Ok(10));
    assert_eq!(num.load(Ordering::Relaxed), 20);
    assert_eq!(num.compare_exchange(5, 10, Ordering::Acquire, Ordering::Relaxed), Err(20));

    assert_eq!(num.fetch_sub(17, Ordering::Relaxed), 20);
    assert_eq!(num.fetch_add(7, Ordering::Relaxed), 3);
    assert_eq!(num.fetch_sub(10, Ordering::Relaxed), 10);

    assert_eq!(num.fetch_add(i32::max_value(), Ordering::Relaxed), 0);
    assert_eq!(num.fetch_add(1, Ordering::Relaxed), i32::max_value());
    assert_eq!(num.fetch_sub(i32::min_value(), Ordering::Relaxed), i32::min_value());

    num.store(0b101101, Ordering::Relaxed);
    assert_eq!(num.fetch_or(0b110011, Ordering::Relaxed), 0b101101);

    num.store(0b101101, Ordering::Relaxed);
    assert_eq!(num.fetch_xor(0b110011, Ordering::Relaxed), 0b101101);
    assert_eq!(num.load(Ordering::Relaxed), 0b011110);

    num.store(0x13, Ordering::Relaxed);
    assert_eq!(num.fetch_nand(0x31, Ordering::Relaxed), 0x13);
    assert_eq!(num.load(Ordering::Relaxed), !(0x13 & 0x31));

    num.store(0b101101, Ordering::Relaxed);
    assert_eq!(num.fetch_and(0b110011, Ordering::Relaxed), 0b101101);
    assert_eq!(num.load(Ordering::Relaxed), 0b100001);

    num.store(7, Ordering::Relaxed);
    assert_eq!(num.fetch_update(Ordering::SeqCst, Ordering::SeqCst, |_| None), Err(7));
    assert_eq!(num.fetch_update(Ordering::SeqCst, Ordering::SeqCst, |x| Some(x + 1)), Ok(7));
    assert_eq!(num.fetch_update(Ordering::SeqCst, Ordering::SeqCst, |x| Some(x + 1)), Ok(8));
    assert_eq!(num.load(Ordering::SeqCst), 9);
}

#[test]
fn should_check_methods_work_on_i64() {
    let num = Atomic::<i64>::new(0);

    assert_eq!(num.load(Ordering::Relaxed), 0);
    num.store(1, Ordering::Relaxed);
    assert_eq!(num.load(Ordering::Relaxed), 1);
    assert_eq!(num.swap(5, Ordering::Relaxed), 1);
    assert_eq!(num.load(Ordering::Relaxed), 5);

    assert_eq!(num.compare_exchange(5, 10, Ordering::Acquire, Ordering::Relaxed), Ok(5));
    assert_eq!(num.load(Ordering::Relaxed), 10);
    assert_eq!(num.compare_exchange(9, 20, Ordering::Acquire, Ordering::Relaxed), Err(10));
    assert_eq!(num.compare_exchange(10, 20, Ordering::Acquire, Ordering::Relaxed), Ok(10));
    assert_eq!(num.load(Ordering::Relaxed), 20);
    assert_eq!(num.compare_exchange(5, 10, Ordering::Acquire, Ordering::Relaxed), Err(20));

    assert_eq!(num.fetch_sub(17, Ordering::Relaxed), 20);
    assert_eq!(num.fetch_add(7, Ordering::Relaxed), 3);
    assert_eq!(num.fetch_sub(10, Ordering::Relaxed), 10);

    assert_eq!(num.fetch_add(i64::max_value(), Ordering::Relaxed), 0);
    assert_eq!(num.fetch_add(1, Ordering::Relaxed), i64::max_value());
    assert_eq!(num.fetch_sub(i64::min_value(), Ordering::Relaxed), i64::min_value());

    num.store(0b101101, Ordering::Relaxed);
    assert_eq!(num.fetch_or(0b110011, Ordering::Relaxed), 0b101101);

    num.store(0b101101, Ordering::Relaxed);
    assert_eq!(num.fetch_xor(0b110011, Ordering::Relaxed), 0b101101);
    assert_eq!(num.load(Ordering::Relaxed), 0b011110);

    num.store(0x13, Ordering::Relaxed);
    assert_eq!(num.fetch_nand(0x31, Ordering::Relaxed), 0x13);
    assert_eq!(num.load(Ordering::Relaxed), !(0x13 & 0x31));

    num.store(0b101101, Ordering::Relaxed);
    assert_eq!(num.fetch_and(0b110011, Ordering::Relaxed), 0b101101);
    assert_eq!(num.load(Ordering::Relaxed), 0b100001);

    num.store(7, Ordering::Relaxed);
    assert_eq!(num.fetch_update(Ordering::SeqCst, Ordering::SeqCst, |_| None), Err(7));
    assert_eq!(num.fetch_update(Ordering::SeqCst, Ordering::SeqCst, |x| Some(x + 1)), Ok(7));
    assert_eq!(num.fetch_update(Ordering::SeqCst, Ordering::SeqCst, |x| Some(x + 1)), Ok(8));
    assert_eq!(num.load(Ordering::SeqCst), 9);
}

#[test]
fn should_check_methods_work_on_isize() {
    let num = Atomic::<isize>::new(0);

    assert_eq!(num.load(Ordering::Relaxed), 0);
    num.store(1, Ordering::Relaxed);
    assert_eq!(num.load(Ordering::Relaxed), 1);
    assert_eq!(num.swap(5, Ordering::Relaxed), 1);
    assert_eq!(num.load(Ordering::Relaxed), 5);

    assert_eq!(num.compare_exchange(5, 10, Ordering::Acquire, Ordering::Relaxed), Ok(5));
    assert_eq!(num.load(Ordering::Relaxed), 10);
    assert_eq!(num.compare_exchange(9, 20, Ordering::Acquire, Ordering::Relaxed), Err(10));
    assert_eq!(num.compare_exchange(10, 20, Ordering::Acquire, Ordering::Relaxed), Ok(10));
    assert_eq!(num.load(Ordering::Relaxed), 20);
    assert_eq!(num.compare_exchange(5, 10, Ordering::Acquire, Ordering::Relaxed), Err(20));

    assert_eq!(num.fetch_sub(17, Ordering::Relaxed), 20);
    assert_eq!(num.fetch_add(7, Ordering::Relaxed), 3);
    assert_eq!(num.fetch_sub(10, Ordering::Relaxed), 10);

    assert_eq!(num.fetch_add(isize::max_value(), Ordering::Relaxed), 0);
    assert_eq!(num.fetch_add(1, Ordering::Relaxed), isize::max_value());
    assert_eq!(num.fetch_sub(isize::min_value(), Ordering::Relaxed), isize::min_value());

    num.store(0b101101, Ordering::Relaxed);
    assert_eq!(num.fetch_or(0b110011, Ordering::Relaxed), 0b101101);

    num.store(0b101101, Ordering::Relaxed);
    assert_eq!(num.fetch_xor(0b110011, Ordering::Relaxed), 0b101101);
    assert_eq!(num.load(Ordering::Relaxed), 0b011110);

    num.store(0x13, Ordering::Relaxed);
    assert_eq!(num.fetch_nand(0x31, Ordering::Relaxed), 0x13);
    assert_eq!(num.load(Ordering::Relaxed), !(0x13 & 0x31));

    num.store(0b101101, Ordering::Relaxed);
    assert_eq!(num.fetch_and(0b110011, Ordering::Relaxed), 0b101101);
    assert_eq!(num.load(Ordering::Relaxed), 0b100001);

    num.store(7, Ordering::Relaxed);
    assert_eq!(num.fetch_update(Ordering::SeqCst, Ordering::SeqCst, |_| None), Err(7));
    assert_eq!(num.fetch_update(Ordering::SeqCst, Ordering::SeqCst, |x| Some(x + 1)), Ok(7));
    assert_eq!(num.fetch_update(Ordering::SeqCst, Ordering::SeqCst, |x| Some(x + 1)), Ok(8));
    assert_eq!(num.load(Ordering::SeqCst), 9);
}
