//! The service that hands a request on as it is.

use vstd::prelude::*;

use crate::services::poll::Poll;

verus! {

/// What comes of a request: the request to go on with, or the response that ends it.
pub type ServiceResult<Request, Response> = Result<Request, Response>;

/// A service that passes every request on unchanged.
pub struct TranslateService;

impl TranslateService {
    /// The service is always ready.
    pub fn poll_ready<Response>(&mut self) -> (poll: Poll<Result<(), Response>>)
        ensures
            poll == Poll::Ready(Ok::<(), Response>(())),
            *final(self) == *old(self),
    {
        Poll::Ready(Ok(()))
    }

    /// Passes the request on.
    pub fn call<Request, Response>(&mut self, req: Request) -> (res: ServiceResult<
        Request,
        Response,
    >)
        ensures
            res == Ok::<Request, Response>(req),
            *final(self) == *old(self),
    {
        Ok(req)
    }
}

} // verus!
