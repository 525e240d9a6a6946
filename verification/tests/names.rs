use method_export::names::{decimal_string, synth_name};

#[test]
fn decimal_of_zero() {
    assert_eq!(decimal_string(0), "0");
}

#[test]
fn decimal_of_single_digits() {
    let digits = ["0", "1", "2", "3", "4", "5", "6", "7", "8", "9"];
    let mut d: usize = 0;
    while d < 10 {
        assert_eq!(decimal_string(d), digits[d]);
        d += 1;
    }
}

#[test]
fn decimal_of_larger_numbers() {
    assert_eq!(decimal_string(10), "10");
    assert_eq!(decimal_string(99), "99");
    assert_eq!(decimal_string(100), "100");
    assert_eq!(decimal_string(12345), "12345");
}

#[test]
fn synth_name_reflects_index() {
    assert_eq!(synth_name(0), "___unused_arg_0");
    assert_eq!(synth_name(1), "___unused_arg_1");
    assert_eq!(synth_name(12), "___unused_arg_12");
    assert_eq!(synth_name(105), "___unused_arg_105");
}

#[test]
fn synth_names_distinct() {
    let mut i: usize = 0;
    while i < 30 {
        let mut j: usize = i + 1;
        while j < 30 {
            assert_ne!(synth_name(i), synth_name(j));
            j += 1;
        }
        i += 1;
    }
}
