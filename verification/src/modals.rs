//! The dialog that shows what is known of a file.

use vstd::prelude::*;
use crate::probe::{VideoInfo, VideoInfoModel};

verus! {

/// What a person can ask of an open dialog.
#[derive(Debug, Clone, Copy, PartialEq, Eq, Structural)]
pub enum ModalMessage {
    Close,
}

/// What a dialog shows.
#[derive(Debug, Clone, PartialEq, Eq)]
pub enum Kind {
    /// The record of a file, where there is one.
    Info(Option<VideoInfo>),
}

/// An open dialog.
#[derive(Debug, Clone, PartialEq, Eq)]
pub struct State {
    pub kind: Kind,
}

impl View for Kind {
    type V = Option<VideoInfoModel>;

    open spec fn view(&self) -> Option<VideoInfoModel> {
        match self {
            Kind::Info(Some(info)) => Some(info@),
            Kind::Info(None) => None,
        }
    }
}

impl View for State {
    type V = Option<VideoInfoModel>;

    open spec fn view(&self) -> Option<VideoInfoModel> {
        self.kind@
    }
}

impl State {
    /// A dialog that shows `kind`.
    pub fn new(kind: Kind) -> (state: Self)
        ensures
            state.kind == kind,
    {
        State { kind }
    }

    /// An open dialog keeps what it shows whatever it is asked; it is
    /// closed by whoever holds it.
    pub fn update(&mut self, message: ModalMessage)
        ensures
            *final(self) == *old(self),
    {
        match message {
            ModalMessage::Close => {},
        }
    }
}

} // verus!
