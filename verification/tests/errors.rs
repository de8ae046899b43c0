use hospital_portal::errors::{or_internal_error, or_parsing_error, AppError};

fn all() -> Vec<AppError> {
    vec![
        AppError::NotFound("a".to_string()),
        AppError::InternalServerError("b".to_string()),
        AppError::UnProcessableEntity { field: "day".to_string(), message: "c".to_string() },
        AppError::MissingEnvironmentVarible("d".to_string()),
        AppError::ParsingError("e".to_string()),
        AppError::DatabaseError("f".to_string()),
        AppError::Unauthorized("g".to_string()),
    ]
}

#[test]
fn every_error_says_its_kind_and_its_message() {
    let texts: Vec<String> = all().iter().map(|e| e.to_string()).collect();
    assert_eq!(
        texts,
        vec![
            "Resource not found: a",
            "Internal Server Error: b",
            "Invalid Input, cannot be processed: day - c",
            "Environement Variable is missing: d",
            "Failed to Parse: e",
            "Database Error: f",
            "Unauthorized: g",
        ]
    );
}

#[test]
fn every_error_has_its_status() {
    let codes: Vec<u16> = all().iter().map(|e| e.status_code()).collect();
    assert_eq!(codes, vec![404, 500, 422, 500, 500, 500, 401]);
}

#[test]
fn every_error_has_its_answer() {
    let answers: Vec<String> = all().iter().map(|e| e.response_message()).collect();
    assert_eq!(answers, vec!["a", "b", "day - c", "d", "e", "f", "g"]);
}

#[test]
fn a_message_becomes_an_error_of_the_kind_asked_for() {
    assert_eq!(or_parsing_error(Ok::<u8, String>(7)).unwrap(), 7);
    assert_eq!(or_internal_error(Ok::<u8, String>(7)).unwrap(), 7);
    match or_parsing_error(Err::<u8, String>("bad".to_string())) {
        Err(AppError::ParsingError(why)) => assert_eq!(why, "bad"),
        _ => panic!("a message did not become a parsing error"),
    }
    match or_internal_error(Err::<u8, String>("bad".to_string())) {
        Err(AppError::InternalServerError(why)) => assert_eq!(why, "bad"),
        _ => panic!("a message did not become an internal error"),
    }
}
