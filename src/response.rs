use vstd::prelude::*;

verus! {

/// The error that an endpoint reports, with a message for people.
#[derive(Debug)]
pub struct ApiError {
    pub message: String,
}

/// What an endpoint answers: a structured value, a plain sentence, or an error.
pub enum ApiResponse<T> {
    Json(T),
    Plain(String),
    Error(ApiError),
}

/// Whether a format selector asks for the structured representation.
pub open spec fn asks_json(format: Option<String>) -> bool {
    match format {
        Some(f) => f@ == "json"@,
        None => false,
    }
}

/// Tells whether the caller asked for the structured representation.
pub fn is_json_format(format: &Option<String>) -> (r: bool)
    ensures
        r == asks_json(*format),
{
    match format {
        Some(f) => {
            let json = String::from_str("json");
            *f == json
        },
        None => false,
    }
}

/// Answers with `data` where the caller asked for the structured form, and
/// with the plain `message` otherwise.
pub fn respond<T>(format: &Option<String>, data: T, message: String) -> (r: ApiResponse<T>)
    ensures
        asks_json(*format) ==> r == ApiResponse::Json(data),
        !asks_json(*format) ==> r == ApiResponse::<T>::Plain(message),
{
    if is_json_format(format) {
        ApiResponse::Json(data)
    } else {
        ApiResponse::Plain(message)
    }
}

} // verus!
