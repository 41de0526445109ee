use ldm::render::{push_joined, push_sample};

fn text(x: i64) -> String {
    let mut s = String::new();
    push_sample(&mut s, x);
    s
}

#[test]
fn samples_in_thousandths() {
    assert_eq!(text(85_000), "85");
    assert_eq!(text(85_500), "85.5");
    assert_eq!(text(85_050), "85.05");
    assert_eq!(text(85_001), "85.001");
    assert_eq!(text(0), "0");
    assert_eq!(text(-125), "-0.125");
    assert_eq!(text(-3_000), "-3");
    assert_eq!(text(i64::MIN), "-9223372036854775.808");
    assert_eq!(text(i64::MAX), "9223372036854775.807");
}

#[test]
fn windows_joined_by_colons() {
    let mut s = String::from("Alarm data set -> ");
    push_joined(&mut s, &vec![85_000, 90_500, 95_000]);
    assert_eq!(s, "Alarm data set -> 85:90.5:95");
    let mut e = String::new();
    push_joined(&mut e, &vec![]);
    assert_eq!(e, "");
}
