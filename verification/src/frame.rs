use vstd::prelude::*;

verus! {

/// A frame of the Redis serialization protocol, holding plain values.
#[derive(Debug, PartialEq, Eq)]
pub enum RespFrame {
    Simple(String),
    Error(String),
    Integer(u64),
    Bulk(Vec<u8>),
    Null,
    Array(Vec<RespFrame>),
}

/// The mathematical value of a [`RespFrame`].
pub enum RespFrameView {
    Simple(Seq<char>),
    Error(Seq<char>),
    Integer(u64),
    Bulk(Seq<u8>),
    Null,
    Array(Seq<RespFrameView>),
}

impl View for RespFrame {
    type V = RespFrameView;

    open spec fn view(&self) -> RespFrameView
        decreases self,
    {
        match self {
            RespFrame::Simple(s) => RespFrameView::Simple(s@),
            RespFrame::Error(s) => RespFrameView::Error(s@),
            RespFrame::Integer(n) => RespFrameView::Integer(*n),
            RespFrame::Bulk(b) => RespFrameView::Bulk(b@),
            RespFrame::Null => RespFrameView::Null,
            RespFrame::Array(items) => RespFrameView::Array(
                Seq::new(
                    items@.len(),
                    |i: int|
                        if 0 <= i < items@.len() {
                            items@[i].view()
                        } else {
                            RespFrameView::Null
                        },
                ),
            ),
        }
    }
}

} // verus!
