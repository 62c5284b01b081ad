use dispenser::Filter;

// Default-settings filter: sample rate 12.5 Hz (80 ms), cutoff 2 Hz, both
// in thousandths: smoothing numerator 2*pi*2000/12.5 in thousandths.
fn default_filter() -> Filter {
    Filter::new(12_500, 2_000)
}

#[test]
fn smoothing_numerator_for_default_settings() {
    let f = default_filter();
    assert_eq!(f.smoothing_num, 1_005);
    assert_eq!(f.state_milli, 0);
}

#[test]
fn apply_moves_state_toward_input() {
    let mut f = default_filter();
    // From 0 toward 1000: increment is 1005*1000/2005 = 501.
    let out = f.apply(1_000);
    assert_eq!(out, 501);
    assert_eq!(f.state_milli, 501);
}

#[test]
fn apply_decreasing_input_exact_value() {
    let mut f = default_filter();
    f.seed(100_000);
    // Toward 90000: decrement is 1005*10000/2005 = 5012.
    let out = f.apply(90_000);
    assert_eq!(out, 94_988);
}

#[test]
fn seed_overwrites_state() {
    let mut f = default_filter();
    f.seed(42_000);
    assert_eq!(f.state_milli, 42_000);
    f.seed(-7_000);
    assert_eq!(f.state_milli, -7_000);
}

#[test]
fn output_stays_between_state_and_input() {
    let mut f = default_filter();
    f.seed(10_000);
    let out = f.apply(20_000);
    assert!(10_000 <= out && out <= 20_000);
    let prev = f.state_milli;
    let out2 = f.apply(-5_000);
    assert!(-5_000 <= out2 && out2 <= prev);
}

// Filter determinism: two freshly constructed filters with the same
// parameters, seeded alike and fed the same sequence, produce identical
// output sequences.
#[test]
fn two_fresh_filters_agree_on_same_inputs() {
    let inputs: Vec<i64> = vec![95_000, 91_000, 88_000, 93_000, 70_000, 70_000, 69_500, -2_000];
    let mut a = default_filter();
    let mut b = default_filter();
    a.seed(100_000);
    b.seed(100_000);
    let out_a = a.apply_all(&inputs);
    let mut out_b: Vec<i64> = Vec::new();
    for x in &inputs {
        out_b.push(b.apply(*x));
    }
    assert_eq!(out_a, out_b);
    assert_eq!(a.state_milli, b.state_milli);
}

#[test]
fn reconstruction_replays_identically() {
    let inputs: Vec<i64> = vec![1_000, 2_000, 1_500, 1_500, 800];
    let mut first = Filter::new(50_000, 4_000);
    let first_out = first.apply_all(&inputs);
    let mut second = Filter::new(50_000, 4_000);
    let second_out = second.apply_all(&inputs);
    assert_eq!(first_out, second_out);
}

#[test]
fn apply_all_empty_leaves_state() {
    let mut f = default_filter();
    f.seed(5_000);
    let out = f.apply_all(&Vec::new());
    assert!(out.is_empty());
    assert_eq!(f.state_milli, 5_000);
}
