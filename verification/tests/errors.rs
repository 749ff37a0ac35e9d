use universal_config::{DeserializationError, SerializationError, UniversalConfigError};

#[test]
fn json_error_is_wrapped_unchanged() {
    let failure = serde_json::from_str::<serde_json::Value>("{").unwrap_err();
    let message = failure.to_string();
    match DeserializationError::from(failure) {
        DeserializationError::Json(inner) => assert_eq!(inner.to_string(), message),
        other => panic!("unexpected: {:?}", other),
    }
    let failure = serde_json::from_str::<serde_json::Value>("]").unwrap_err();
    let message = failure.to_string();
    match SerializationError::from(failure) {
        SerializationError::Json(inner) => assert_eq!(inner.to_string(), message),
        other => panic!("unexpected: {:?}", other),
    }
}

#[test]
fn yaml_error_is_wrapped_unchanged() {
    let failure = serde_yaml::from_str::<serde_yaml::Value>("a: [").unwrap_err();
    let message = failure.to_string();
    match DeserializationError::from(failure) {
        DeserializationError::Yaml(inner) => assert_eq!(inner.to_string(), message),
        other => panic!("unexpected: {:?}", other),
    }
    let failure = serde_yaml::from_str::<serde_yaml::Value>("a: [").unwrap_err();
    let message = failure.to_string();
    match SerializationError::from(failure) {
        SerializationError::Yaml(inner) => assert_eq!(inner.to_string(), message),
        other => panic!("unexpected: {:?}", other),
    }
}

#[test]
fn toml_errors_are_wrapped_unchanged() {
    let failure = toml::from_str::<toml::Value>("test = ").unwrap_err();
    let message = failure.to_string();
    match DeserializationError::from(failure) {
        DeserializationError::Toml(inner) => assert_eq!(inner.to_string(), message),
        other => panic!("unexpected: {:?}", other),
    }
    let failure = toml::to_string_pretty(&1).unwrap_err();
    let message = failure.to_string();
    match SerializationError::from(failure) {
        SerializationError::Toml(inner) => assert_eq!(inner.to_string(), message),
        other => panic!("unexpected: {:?}", other),
    }
}

#[test]
fn corn_error_is_wrapped_unchanged() {
    let failure = corn::from_str::<std::collections::HashMap<String, String>>("{").unwrap_err();
    let message = failure.to_string();
    match DeserializationError::from(failure) {
        DeserializationError::Corn(inner) => assert_eq!(inner.to_string(), message),
        other => panic!("unexpected: {:?}", other),
    }
    let failure = corn::from_str::<std::collections::HashMap<String, String>>("{").unwrap_err();
    let message = failure.to_string();
    match SerializationError::from(failure) {
        SerializationError::Corn(inner) => assert_eq!(inner.to_string(), message),
        other => panic!("unexpected: {:?}", other),
    }
}

#[test]
fn xml_error_is_wrapped_unchanged() {
    let failure =
        serde_xml_rs::from_str::<std::collections::HashMap<String, String>>("<a>").unwrap_err();
    let message = failure.to_string();
    match DeserializationError::from(failure) {
        DeserializationError::Xml(inner) => assert_eq!(inner.to_string(), message),
        other => panic!("unexpected: {:?}", other),
    }
    let failure =
        serde_xml_rs::from_str::<std::collections::HashMap<String, String>>("<a>").unwrap_err();
    let message = failure.to_string();
    match SerializationError::from(failure) {
        SerializationError::Xml(inner) => assert_eq!(inner.to_string(), message),
        other => panic!("unexpected: {:?}", other),
    }
}

#[test]
fn io_error_becomes_io() {
    let failure = std::io::Error::new(std::io::ErrorKind::PermissionDenied, "no entry");
    match UniversalConfigError::from(failure) {
        UniversalConfigError::Io(inner) => {
            assert_eq!(inner.kind(), std::io::ErrorKind::PermissionDenied);
            assert_eq!(inner.to_string(), "no entry");
        }
        other => panic!("unexpected: {:?}", other),
    }
}

#[test]
fn utf8_error_becomes_encoding() {
    let bytes = vec![b'a', 0xff];
    let failure = std::str::from_utf8(&bytes).unwrap_err();
    match UniversalConfigError::from(failure) {
        UniversalConfigError::Encoding(inner) => assert_eq!(inner.valid_up_to(), 1),
        other => panic!("unexpected: {:?}", other),
    }
}

#[test]
fn codec_errors_become_deserialization_and_serialization() {
    let inner = DeserializationError::UnsupportedExtension("ini".to_string());
    match UniversalConfigError::from(inner) {
        UniversalConfigError::Deserialization(DeserializationError::UnsupportedExtension(ext)) => {
            assert_eq!(ext, "ini")
        }
        other => panic!("unexpected: {:?}", other),
    }
    let inner = SerializationError::UnsupportedExtension("corn".to_string());
    match UniversalConfigError::from(inner) {
        UniversalConfigError::Serialization(SerializationError::UnsupportedExtension(ext)) => {
            assert_eq!(ext, "corn")
        }
        other => panic!("unexpected: {:?}", other),
    }
}
