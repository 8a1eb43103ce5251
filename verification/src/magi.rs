//! The interface a stream translator offers: consume one decoded event at a
//! time, then materialize the aggregated response.

use vstd::prelude::*;

verus! {

/// A per-request stream translator. `parse` may return actionable data, such
/// as a completed tool call, before the stream ends; `response` assembles the
/// unary response from whatever has been consumed.
pub trait EventDataParser<Input> {
    type Error;

    type Output;

    type UnarayResponse;

    fn parse(&mut self, data: &Input) -> Result<Self::Output, Self::Error>;

    fn response(self) -> Self::UnarayResponse;
}

} // verus!
