use black_hole::envelope::IncomingImage;

fn envelope(data: &str) -> IncomingImage {
    IncomingImage {
        file_type: String::from("png"),
        mime: String::from("image/png"),
        data: String::from(data),
    }
}

#[test]
fn data_uri_header_is_stripped() {
    let env = envelope("data:image/png;base64,QUJD");
    assert_eq!(env.base64_data(), "QUJD");
}

#[test]
fn bare_payload_is_unchanged() {
    let env = envelope("QUJD");
    assert_eq!(env.base64_data(), "QUJD");
}

#[test]
fn only_the_first_comma_splits() {
    let env = envelope("meta,QUJD,extra");
    assert_eq!(env.base64_data(), "QUJD,extra");
}

#[test]
fn empty_payload_after_header() {
    let env = envelope("data:image/png;base64,");
    assert_eq!(env.base64_data(), "");
}

