use av1_player::report::{pretend_this_is_main, this_fails, MyBad};

fn sample() -> MyBad {
    MyBad {
        src_name: "bad_file.rs".to_string(),
        src: "505050\n  v我50\n    505050".to_string(),
        bad_bit: (9, 4),
    }
}

#[test]
fn the_sample_always_fails() {
    assert_eq!(this_fails(), Err(sample()));
    assert_eq!(pretend_this_is_main(), Err(sample()));
}

#[test]
fn the_bad_bit_lies_in_the_text() {
    let bad = this_fails().unwrap_err();
    let (start, len) = bad.bad_bit;
    assert_eq!(&bad.src[start..start + len], "v我");
}
