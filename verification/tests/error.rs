use image_classify::error::{Code, Error};

#[test]
fn missing_model_dir_is_not_found() {
    let e = Error::model_dir_not_found("model");
    assert_eq!(e.code(), Code::NotFound);
    assert_eq!(
        e.message(),
        "\"model\" directory not found. Please generate model files with `python python/create_model.py`"
    );
    assert_eq!(
        e.describe(),
        "NotFound: \"model\" directory not found. Please generate model files with `python python/create_model.py`"
    );
}

#[test]
fn missing_model_dir_error_carries_the_hint() {
    for dir in ["model", "", "some/other dir", "a \"quoted\" name", "modèle"] {
        let e = Error::model_dir_not_found(dir);
        assert_eq!(e.code(), Code::NotFound);
        assert!(e.message().starts_with(&format!("\"{}\" directory not found", dir)));
        assert!(e
            .message()
            .ends_with("Please generate model files with `python python/create_model.py`"));
    }
}

#[test]
fn missing_model_dir_names_the_directory() {
    let e = Error::model_dir_not_found("some/other dir");
    assert_eq!(
        e.message(),
        "\"some/other dir\" directory not found. Please generate model files with `python python/create_model.py`"
    );
    let e = Error::model_dir_not_found("");
    assert_eq!(
        e.message(),
        "\"\" directory not found. Please generate model files with `python python/create_model.py`"
    );
}

#[test]
fn new_keeps_code_and_message() {
    let e = Error::new(Code::InvalidArgument, "Expected image (JPEG, PNG, or GIF), got empty file");
    assert_eq!(e.code(), Code::InvalidArgument);
    assert_eq!(e.message(), "Expected image (JPEG, PNG, or GIF), got empty file");
    assert_eq!(e.code, Code::InvalidArgument);
    assert_eq!(e.message, "Expected image (JPEG, PNG, or GIF), got empty file");
}

#[test]
fn describe_is_name_colon_message() {
    let e = Error::new(Code::Internal, "graph is broken");
    assert_eq!(e.describe(), "Internal: graph is broken");
    let e = Error::new(Code::Unknown, "");
    assert_eq!(e.describe(), "Unknown: ");
}

#[test]
fn clone_is_equal() {
    let e = Error::new(Code::DataLoss, "truncated file");
    let c = e.clone();
    assert_eq!(c, e);
    assert_eq!(c.code(), Code::DataLoss);
    assert_eq!(c.message(), "truncated file");
}

#[test]
fn every_code_has_its_name() {
    let names = [
        (Code::Success, "Ok"),
        (Code::Cancelled, "Cancelled"),
        (Code::Unknown, "Unknown"),
        (Code::InvalidArgument, "InvalidArgument"),
        (Code::DeadlineExceeded, "DeadlineExceeded"),
        (Code::NotFound, "NotFound"),
        (Code::AlreadyExists, "AlreadyExists"),
        (Code::PermissionDenied, "PermissionDenied"),
        (Code::ResourceExhausted, "ResourceExhausted"),
        (Code::FailedPrecondition, "FailedPrecondition"),
        (Code::Aborted, "Aborted"),
        (Code::OutOfRange, "OutOfRange"),
        (Code::Unimplemented, "Unimplemented"),
        (Code::Internal, "Internal"),
        (Code::Unavailable, "Unavailable"),
        (Code::DataLoss, "DataLoss"),
        (Code::Unauthenticated, "Unauthenticated"),
        (Code::Unrecognized(0), "UnrecognizedEnumValue(0)"),
        (Code::Unrecognized(7), "UnrecognizedEnumValue(7)"),
        (Code::Unrecognized(10), "UnrecognizedEnumValue(10)"),
        (Code::Unrecognized(99), "UnrecognizedEnumValue(99)"),
        (Code::Unrecognized(1203), "UnrecognizedEnumValue(1203)"),
        (Code::Unrecognized(u32::MAX), "UnrecognizedEnumValue(4294967295)"),
    ];
    for (code, name) in names {
        assert_eq!(code.name(), name);
        assert_eq!(Error::new(code, "m").describe(), format!("{}: m", name));
    }
}

#[test]
fn from_description_takes_the_message_after_the_name() {
    let e = Error::from_description(Code::NotFound, "NotFound: \"model\" directory not found");
    assert_eq!(e, Error::new(Code::NotFound, "\"model\" directory not found"));
    let e = Error::from_description(Code::Internal, "Internal: ");
    assert_eq!(e, Error::new(Code::Internal, ""));
    let e = Error::from_description(Code::Aborted, "Aborted: Aborted: twice");
    assert_eq!(e, Error::new(Code::Aborted, "Aborted: twice"));
    let e = Error::from_description(Code::Unrecognized(99), "UnrecognizedEnumValue(99): odd");
    assert_eq!(e, Error::new(Code::Unrecognized(99), "odd"));
    let e = Error::from_description(Code::Success, "Ok: nothing wrong");
    assert_eq!(e, Error::new(Code::Success, "nothing wrong"));
}

#[test]
fn from_description_keeps_a_text_without_the_name() {
    let e = Error::from_description(Code::Unknown, "UnrecognizedEnumValue(99): odd");
    assert_eq!(e, Error::new(Code::Unknown, "UnrecognizedEnumValue(99): odd"));
    let e = Error::from_description(Code::Unrecognized(98), "UnrecognizedEnumValue(99): odd");
    assert_eq!(e, Error::new(Code::Unrecognized(98), "UnrecognizedEnumValue(99): odd"));
    let e = Error::from_description(Code::NotFound, "NotFound:no space");
    assert_eq!(e, Error::new(Code::NotFound, "NotFound:no space"));
    let e = Error::from_description(Code::NotFound, "NotFound");
    assert_eq!(e, Error::new(Code::NotFound, "NotFound"));
    let e = Error::from_description(Code::NotFound, "");
    assert_eq!(e, Error::new(Code::NotFound, ""));
    let e = Error::from_description(Code::NotFound, "Internal: mixed up");
    assert_eq!(e, Error::new(Code::NotFound, "Internal: mixed up"));
}

#[test]
fn from_description_counts_characters_not_bytes() {
    let e = Error::from_description(Code::DataLoss, "DataLoss: fichier abîmé: données perdues");
    assert_eq!(e.message(), "fichier abîmé: données perdues");
    let e = Error::from_description(Code::DataLoss, "Dätaloss: x");
    assert_eq!(e.message(), "Dätaloss: x");
}

#[test]
fn from_description_undoes_describe() {
    let codes = [
        Code::Success,
        Code::Cancelled,
        Code::InvalidArgument,
        Code::NotFound,
        Code::Unauthenticated,
        Code::Unrecognized(17),
        Code::Unrecognized(4000000000),
    ];
    let messages = ["", "plain", "NotFound: nested", ": ", "with \"quotes\" and ünïcödé"];
    for code in codes {
        for message in messages {
            let e = Error::new(code, message);
            assert_eq!(Error::from_description(code, &e.describe()), e);
        }
    }
}
