//! Routing of raw gateway lines: each received line is parsed and handed to
//! the handler of its command family; whatever does not parse, and every
//! family the proxy does not interpret, goes verbatim to the controller.
//! The broadcast ID request `255;255;3;0;3;0\n` parses as an INTERNAL frame
//! and so reaches the internal handler like any other.

use vstd::prelude::*;

use crate::proto::command;
use crate::proto::command::{CommandMessage, CommandMessageView};
use crate::proto::internal::InternalMessage;
use crate::proto::presentation::PresentationMessage;
use crate::proto::set_msg::SetMessage;
use crate::proto::stream::StreamMessage;

verus! {

/// Where one received line goes.
pub enum Route {
    Internal(InternalMessage),
    Stream(StreamMessage),
    Presentation(PresentationMessage),
    SetMsg(SetMessage),
    Controller(String),
}

/// Decide where a received line goes: parsed frames to their family's
/// handler, everything else verbatim to the controller.
pub fn intercept(request: &String) -> (r: Route)
    ensures
        (match command::parse_spec(request@) {
            Ok(v) => match v {
                CommandMessageView::Internal(m) => r matches Route::Internal(x) && x@ == m,
                CommandMessageView::Stream(m) => r matches Route::Stream(x) && x@ == m,
                CommandMessageView::Presentation(m) => r matches Route::Presentation(x) && x@ == m,
                CommandMessageView::SetMsg(m) => r matches Route::SetMsg(x) && x@ == m,
                CommandMessageView::Other(s) => r matches Route::Controller(line) && line@ == s,
            },
            Err(_) => r matches Route::Controller(line) && line@ == request@,
        }),
{
    match CommandMessage::new(request) {
        Ok(CommandMessage::Internal(m)) => Route::Internal(m),
        Ok(CommandMessage::Stream(m)) => Route::Stream(m),
        Ok(CommandMessage::Presentation(m)) => Route::Presentation(m),
        Ok(CommandMessage::SetMsg(m)) => Route::SetMsg(m),
        Ok(CommandMessage::Other(s)) => Route::Controller(s),
        Err(_) => Route::Controller(request.clone()),
    }
}

} // verus!
