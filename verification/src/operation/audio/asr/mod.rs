//! Speech recognition.

pub mod client;
pub mod customization;
pub mod param;

use crate::operation::audio::ws::session::{
    text_hook, Frame, FrameView, SessionAction, SessionActionView,
};
use crate::operation::audio::ws::output::WebSocketEvent;
use vstd::prelude::*;

verus! {

/// The hook that a frame leads to in the plain receive loop, which knows no
/// keep-alive: a text frame leads to `on_event` or `on_error`, a close frame
/// to `on_close`, and every other frame to nothing.
pub open spec fn dispatched(frame: FrameView) -> Option<SessionActionView> {
    match frame {
        FrameView::Text(text) => Some(text_hook(text)),
        FrameView::Close { code, reason } => Some(SessionActionView::OnClose { code, reason }),
        _ => None,
    }
}

/// Decides which hook a frame leads to in the plain receive loop.
pub fn dispatch(frame: Frame) -> (r: Option<SessionAction>)
    ensures
        match r {
            Some(action) => dispatched(frame@) == Some(action@),
            None => dispatched(frame@) is None,
        },
{
    match frame {
        Frame::Text(text) => match WebSocketEvent::decode(text.as_str()) {
            Ok(event) => Some(SessionAction::OnEvent(event)),
            Err(error) => Some(SessionAction::OnError(error)),
        },
        Frame::Close { code, reason } => Some(SessionAction::OnClose { code, reason }),
        _ => None,
    }
}

} // verus!
