use vstd::prelude::*;

verus! {

/// The class of a filesystem event, as the library reads it.  The
/// embedding program maps the watcher backend's event kinds onto these
/// variants before consulting the library.
#[derive(Clone, Copy, Debug, PartialEq, Eq, Structural)]
pub enum FsEventKind {
    /// A file or directory was created.
    Create,
    /// Contents or mtime of an existing entry changed.
    Modify,
    /// A file or directory was removed.
    Remove,
    /// An entry was read or otherwise accessed.
    Access,
    /// Anything else the backend reports.
    Other,
}

/// Whether a filesystem event must trigger a reload broadcast: only
/// modification-class events do; creation, removal, access and
/// metadata-only events are ignored.
pub fn should_reload(kind: &FsEventKind) -> (r: bool)
    ensures
        r == (*kind == FsEventKind::Modify),
{
    match kind {
        FsEventKind::Modify => true,
        _ => false,
    }
}

/// The text frame a websocket client receives for each reload signal.
pub fn reload_payload() -> (r: String)
    ensures
        r@ == "reload"@,
{
    String::from_str("reload")
}

/// What a websocket connection's two halves can observe.
#[derive(Clone, Copy, Debug, PartialEq, Eq, Structural)]
pub enum WsEvent {
    /// The broadcaster delivered a reload signal.
    ReloadSignal,
    /// The broadcaster was torn down (the session stopped).
    ChannelClosed,
    /// Sending a frame to the client failed.
    SendFailed,
    /// The client sent a frame (its content is never acted upon).
    ClientFrame,
    /// The client closed the socket or the transport erred.
    ClientGone,
}

/// What the connection must do next.
#[derive(Clone, Copy, Debug, PartialEq, Eq, Structural)]
pub enum WsAction {
    /// Forward a text frame with the reload payload to the client.
    SendReload,
    /// Keep both halves running; the event carried no work.
    Continue,
    /// Terminate the connection: cancel the other half and drop the
    /// subscription.
    Close,
}

/// The per-connection protocol step: each reload signal is forwarded
/// as one frame; inbound client frames are discarded; the connection
/// closes when the channel closes, a send fails, or the client goes
/// away.
pub fn ws_step(event: WsEvent) -> (r: WsAction)
    ensures
        event == WsEvent::ReloadSignal ==> r == WsAction::SendReload,
        event == WsEvent::ClientFrame ==> r == WsAction::Continue,
        event == WsEvent::ChannelClosed || event == WsEvent::SendFailed || event
            == WsEvent::ClientGone ==> r == WsAction::Close,
{
    match event {
        WsEvent::ReloadSignal => WsAction::SendReload,
        WsEvent::ClientFrame => WsAction::Continue,
        WsEvent::ChannelClosed => WsAction::Close,
        WsEvent::SendFailed => WsAction::Close,
        WsEvent::ClientGone => WsAction::Close,
    }
}

} // verus!
