//! The responses of the HTTP API: empty, single and paged, and its errors.
use vstd::prelude::*;
use vstd::string::*;

verus! {

broadcast use vstd::string::group_string_axioms;

/// The outcome of an API call: a response, or an error.
pub type Result<T, E = ApiError> = core::result::Result<Response<T>, E>;

/// Represents the response from an API call.
pub enum Response<T> {
    EmptyResponse,
    SingleResponse {
        data: T,
    },
    PagedResponse {
        /// The object or a Vec<T> objects (the type `T` will depend on the endpoint).
        data: T,
        /// Any API endpoint that returns a list of items requires pagination.
        pagination: Pagination,
    },
}

/// Any API endpoint that returns a list of items requires pagination.
/// By default we will return 30 records from any listing endpoint. If an API
/// endpoint returns a list of items, then it will include a pagination object
/// that contains pagination information.
pub struct Pagination {
    /// The page currently returned (default: 1)
    pub current_page: u64,
    /// The number of entries returned per page (default: 30)
    pub per_page: u64,
    /// The Total number of entries available in the entries collection.
    pub total_entries: u64,
    /// The total number of pages available given the current `per_page` value
    pub total_pages: u64,
}

/// The errors of the API.
pub enum ApiError {
    NotFound,
    InternalServerError,
}

impl ApiError {
    /// The HTTP status code that answers this error.
    pub fn status_code(&self) -> (res: u16)
        ensures
            res == match self {
                ApiError::NotFound => 404u16,
                ApiError::InternalServerError => 500u16,
            },
    {
        match self {
            ApiError::NotFound => 404,
            ApiError::InternalServerError => 500,
        }
    }

    /// The message in the body that answers this error.
    pub fn message(&self) -> (res: String)
        ensures
            res@ == match self {
                ApiError::NotFound => "Not Found"@,
                ApiError::InternalServerError => "Internal Server Error"@,
            },
    {
        match self {
            ApiError::NotFound => "Not Found".to_owned(),
            ApiError::InternalServerError => "Internal Server Error".to_owned(),
        }
    }
}

/// Return the successful response without data.
pub fn empty<T>(_data: T) -> (res: Result<T>)
    ensures
        res == Ok::<Response<T>, ApiError>(Response::EmptyResponse),
{
    Ok(Response::EmptyResponse)
}

/// Returns the successful response with single data.
pub fn success<T>(data: T) -> (res: Result<T>)
    ensures
        res == Ok::<Response<T>, ApiError>((Response::SingleResponse { data })),
{
    Ok(Response::SingleResponse { data })
}

/// Returns the successful paged response.
pub fn paginate<T>(data: T, pagination: Pagination) -> (res: Result<T>)
    ensures
        res == Ok::<Response<T>, ApiError>((Response::PagedResponse { data, pagination })),
{
    Ok(Response::PagedResponse { data, pagination })
}

} // verus!
