use tachyon::Method;
use tachyon::TachyonError;

#[test]
fn method_codes_round_trip() {
    for id in 0u8..5u8 {
        let m = Method::new(id).unwrap();
        assert_eq!(m.id(), id);
    }
    assert_eq!(Method::new(0), Ok(Method::Get));
    assert_eq!(Method::new(1), Ok(Method::Post));
    assert_eq!(Method::new(2), Ok(Method::Put));
    assert_eq!(Method::new(3), Ok(Method::Delete));
    assert_eq!(Method::new(4), Ok(Method::Patch));
}

#[test]
fn invalid_method_code_is_rejected() {
    assert_eq!(Method::new(5), Err(TachyonError::InvalidMethod));
    assert_eq!(Method::new(255), Err(TachyonError::InvalidMethod));
}

#[test]
fn method_names_encode_and_decode() {
    assert_eq!(Method::from_name("GET"), Ok(Method::Get));
    assert_eq!(Method::from_name("POST"), Ok(Method::Post));
    assert_eq!(Method::from_name("PUT"), Ok(Method::Put));
    assert_eq!(Method::from_name("DELETE"), Ok(Method::Delete));
    assert_eq!(Method::from_name("PATCH"), Ok(Method::Patch));
    assert_eq!(Method::from_name("HEAD"), Err(TachyonError::InvalidMethod));
    assert_eq!(Method::from_name("get"), Err(TachyonError::InvalidMethod));
    assert_eq!(Method::from_name(""), Err(TachyonError::InvalidMethod));
    assert_eq!(Method::Delete.name(), "DELETE");
}

#[test]
fn method_equality_is_by_code() {
    assert_eq!(Method::new(3).unwrap(), Method::Delete);
    assert_ne!(Method::Get, Method::Post);
    assert!(Method::Post.requires_body());
    assert!(Method::Put.requires_body());
    assert!(Method::Patch.requires_body());
    assert!(!Method::Get.requires_body());
    assert!(!Method::Delete.requires_body());
}
