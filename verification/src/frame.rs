//! What travels over a push channel: the kinds of frame, and a frame's payload.

use vstd::prelude::*;

verus! {

/// The kind of a frame on a push channel.
#[derive(Debug, Clone, Copy, PartialEq, Eq, Structural)]
pub enum WsMessageType {
    Text,
    Binary,
    Ping,
    Pong,
    Close,
}

/// A payload as a mathematical value.
pub struct BlobView {
    pub mime: Option<Seq<char>>,
    pub bytes: Seq<u8>,
}

/// The payload of a frame: its bytes and, where known, their media type.
#[derive(Debug)]
pub struct LazyLoadBlob {
    pub mime: Option<String>,
    pub bytes: Vec<u8>,
}

impl View for LazyLoadBlob {
    type V = BlobView;

    open spec fn view(&self) -> BlobView {
        BlobView {
            mime: match self.mime {
                Some(mime) => Some(mime@),
                None => None,
            },
            bytes: self.bytes@,
        }
    }
}

impl DeepView for LazyLoadBlob {
    type V = BlobView;

    open spec fn deep_view(&self) -> BlobView {
        self@
    }
}

impl Clone for LazyLoadBlob {
    fn clone(&self) -> (copy: LazyLoadBlob)
        ensures
            copy@ == self@,
    {
        let mime = match &self.mime {
            Some(mime) => Some(mime.clone()),
            None => None,
        };
        let bytes = self.bytes.clone();
        LazyLoadBlob { mime, bytes }
    }
}

/// One frame to send, with the channel it goes to.
#[derive(Debug)]
pub struct WsPush {
    pub channel_id: u32,
    pub message_type: WsMessageType,
    pub blob: LazyLoadBlob,
}

/// A frame to send as a mathematical value.
pub struct PushView {
    pub channel_id: u32,
    pub message_type: WsMessageType,
    pub blob: BlobView,
}

impl View for WsPush {
    type V = PushView;

    open spec fn view(&self) -> PushView {
        PushView { channel_id: self.channel_id, message_type: self.message_type, blob: self.blob@ }
    }
}

impl DeepView for WsPush {
    type V = PushView;

    open spec fn deep_view(&self) -> PushView {
        self@
    }
}

impl Clone for WsPush {
    fn clone(&self) -> (copy: WsPush)
        ensures
            copy@ == self@,
    {
        WsPush {
            channel_id: self.channel_id,
            message_type: self.message_type,
            blob: self.blob.clone(),
        }
    }
}

} // verus!
