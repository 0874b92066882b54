//! Live board updates: what a project's open socket does with each thing
//! that happens to it.
use vstd::prelude::*;

verus! {

/// What happens to an open board socket.
pub enum SocketEvent {
    /// Some project's tasks, tags, comments or attachments changed.
    Changed(u128),
    /// The socket fell behind and missed some changes.
    Lagged,
    /// No more changes will be announced.
    ChangesClosed,
    /// The client sent a message (a ping, say) that is not a close.
    ClientMessage,
    /// The client closed the socket, or it failed.
    ClientGone,
    /// Sending a notice to the client failed.
    SendFailed,
}

/// What the socket does next.
pub enum SocketAction {
    /// Send the client the notice that the board changed, then wait.
    Notify,
    /// Keep waiting.
    Wait,
    /// Close the socket.
    Stop,
}

/// The decision for a socket opened on `project_id`: a change to that
/// project is passed on (the client refetches its tasks); changes to other
/// projects, missed changes and client pings are ignored; the socket closes
/// when the client goes, a send fails, or no more changes can come.
pub open spec fn spec_socket_step(project_id: u128, event: SocketEvent) -> SocketAction {
    match event {
        SocketEvent::Changed(p) => if p == project_id {
            SocketAction::Notify
        } else {
            SocketAction::Wait
        },
        SocketEvent::Lagged | SocketEvent::ClientMessage => SocketAction::Wait,
        SocketEvent::ChangesClosed | SocketEvent::ClientGone | SocketEvent::SendFailed => SocketAction::Stop,
    }
}

pub fn socket_step(project_id: u128, event: SocketEvent) -> (a: SocketAction)
    ensures
        a == spec_socket_step(project_id, event),
{
    match event {
        SocketEvent::Changed(p) => if p == project_id {
            SocketAction::Notify
        } else {
            SocketAction::Wait
        },
        SocketEvent::Lagged | SocketEvent::ClientMessage => SocketAction::Wait,
        SocketEvent::ChangesClosed | SocketEvent::ClientGone | SocketEvent::SendFailed => SocketAction::Stop,
    }
}

/// The notice a client gets when its board changed.
pub fn change_notice() -> (r: String)
    ensures
        r@ == "tasks_changed"@,
{
    crate::text::owned("tasks_changed")
}

} // verus!
