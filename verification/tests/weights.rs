use mamp::weights::{load_weight_file, WeightError, WeightResponse};

#[test]
fn weights_are_little_endian_values() {
    let mut bytes = Vec::new();
    for v in [1.0f32, -0.5, f32::MIN_POSITIVE, f32::INFINITY] {
        bytes.extend_from_slice(&v.to_le_bytes());
    }
    match load_weight_file("weights/enc.bin", &WeightResponse::Body(bytes)) {
        Ok(values) => {
            let floats: Vec<f32> = values.iter().map(|&b| f32::from_bits(b)).collect();
            assert_eq!(floats, vec![1.0, -0.5, f32::MIN_POSITIVE, f32::INFINITY]);
        }
        Err(e) => panic!("{:?}", e),
    }
}

#[test]
fn an_empty_weight_file_has_no_values() {
    assert!(matches!(load_weight_file("e", &WeightResponse::Body(vec![])), Ok(v) if v.is_empty()));
}

#[test]
fn incomplete_values_are_refused() {
    for n in [1usize, 2, 3, 5, 7] {
        match load_weight_file("u", &WeightResponse::Body(vec![0; n])) {
            Err(e) => {
                assert!(matches!(e, WeightError::Size));
                assert_eq!(e.message(), "Weight file size not multiple of 4");
            }
            Ok(v) => panic!("{:?}", v),
        }
    }
}

#[test]
fn a_refused_weight_file_names_the_reason() {
    let response = WeightResponse::Refused { status: 404, status_text: String::from("Not Found") };
    match load_weight_file("weights/enc.bin", &response) {
        Err(e) => assert_eq!(e.message(), "Failed to fetch weights/enc.bin: 404 Not Found"),
        Ok(v) => panic!("{:?}", v),
    }
}
