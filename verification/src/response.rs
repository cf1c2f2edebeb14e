use vstd::prelude::*;

verus! {

/// The mathematical shape of a service reply: an HTTP status code together
/// with the two fields of the JSON body.
pub ghost struct ResponseModel {
    pub code: int,
    pub status: Seq<char>,
    pub message: Seq<char>,
}

/// Builds a [`ResponseModel`]; contracts and laws state replies through it.
pub open spec fn response_model(code: int, status: Seq<char>, message: Seq<char>) -> ResponseModel {
    ResponseModel { code, status, message }
}

/// A reply of the service: the HTTP status code and the JSON body fields
/// `status` and `message`.
pub struct ApiResponse {
    pub code: u16,
    pub status: String,
    pub message: String,
}

impl View for ApiResponse {
    type V = ResponseModel;

    open spec fn view(&self) -> ResponseModel {
        ResponseModel { code: self.code as int, status: self.status@, message: self.message@ }
    }
}

/// Builds a reply whose body fields are fixed strings.
pub(crate) fn make_response(code: u16, status: &str, message: &str) -> (r: ApiResponse)
    ensures
        r@ == response_model(code as int, status@, message@),
{
    ApiResponse { code, status: String::from_str(status), message: String::from_str(message) }
}

} // verus!
