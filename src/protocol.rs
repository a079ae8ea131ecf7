use vstd::prelude::*;
use vstd::string::*;

use crate::response::Response;

verus! {

/// One frame as read from a controller's connection.
#[derive(Debug, Clone, PartialEq, Eq)]
pub enum Frame {
    /// A text frame, which carries one command.
    Text(String),
    /// A binary frame.
    Binary,
    /// A ping or pong, answered by the transport itself.
    Control,
    /// The controller closed the connection.
    Close,
    /// The transport failed.
    Failed(String),
}

/// What the connection loop does with a frame.
#[derive(Debug, Clone, PartialEq, Eq)]
pub enum FrameAction {
    /// Decode the text as a command, execute it and send the reply.
    Execute(String),
    /// Send this reply and read the next frame.
    Reply(Response),
    /// Read the next frame.
    Skip,
    /// End this connection; other connections and the shared state go on.
    Stop,
}

pub open spec fn binary_frame_text() -> Seq<char> {
    "Unsupported frame: commands travel in text frames"@
}

pub fn frame_action(frame: Frame) -> (r: FrameAction)
    ensures
        match frame {
            Frame::Text(t) => r == FrameAction::Execute(t),
            Frame::Binary => r matches FrameAction::Reply(resp) && resp is Error && resp.text()
                == binary_frame_text(),
            Frame::Control => r is Skip,
            Frame::Close => r is Stop,
            Frame::Failed(_) => r is Stop,
        },
{
    match frame {
        Frame::Text(t) => FrameAction::Execute(t),
        Frame::Binary => FrameAction::Reply(
            Response::Error(String::from_str("Unsupported frame: commands travel in text frames")),
        ),
        Frame::Control => FrameAction::Skip,
        Frame::Close => FrameAction::Stop,
        Frame::Failed(_) => FrameAction::Stop,
    }
}

} // verus!
