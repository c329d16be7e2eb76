//! The load pipeline: a state machine run once per process, on a worker
//! thread. It walks Idle, Reading, Decoding, Publishing, Done, with a terminal
//! Failed state reachable from Reading or Decoding. Reading the bytes is the
//! caller's I/O; the decisions, the decode and the publication into the shared
//! slot stand here. The decoded image is stored in the slot before the caller
//! schedules the UI update, so a save that reads the slot afterwards sees the
//! image the UI is about to display.

use vstd::prelude::*;

use crate::decode::decode;
use crate::decode::spec_decode;
use crate::errors::DecodeError;
use crate::image_data::DecodedImage;
use crate::image_data::ImageView;
use crate::slot::SharedImageSlot;

verus! {

/// Where the one load of the process stands.
#[derive(Clone, Copy, Debug, PartialEq, Eq, Structural)]
pub enum LoadState {
    /// Nothing has happened yet.
    Idle,
    /// The origin was chosen; its bytes are being read.
    Reading,
    /// The bytes arrived; they are being decoded.
    Decoding,
    /// The decoded image is in the slot; the UI update is being scheduled.
    Publishing,
    /// The UI update was scheduled; the pipeline is finished.
    Done,
    /// The read or the decode failed; the process has nothing to show.
    Failed,
}

/// The pipeline's state, advanced by the load worker.
pub struct LoadPipeline {
    state: LoadState,
}

impl View for LoadPipeline {
    type V = LoadState;

    closed spec fn view(&self) -> LoadState {
        self.state
    }
}

impl LoadPipeline {
    /// A pipeline that has not started.
    pub fn new() -> (p: Self)
        ensures
            p@ == LoadState::Idle,
    {
        LoadPipeline { state: LoadState::Idle }
    }

    /// The current state, for logging and for the caller's dispatch.
    pub fn state(&self) -> (s: LoadState)
        ensures
            s == self@,
    {
        self.state
    }

    /// The process start triggers the one read of the chosen origin.
    pub fn start_reading(&mut self)
        requires
            old(self)@ == LoadState::Idle,
        ensures
            final(self)@ == LoadState::Reading,
    {
        self.state = LoadState::Reading;
    }

    /// The read failed: the pipeline is over, and the caller exits with a
    /// non-zero status, because there is nothing useful to show.
    pub fn read_failed(&mut self)
        requires
            old(self)@ == LoadState::Reading,
        ensures
            final(self)@ == LoadState::Failed,
    {
        self.state = LoadState::Failed;
    }

    /// The read succeeded: the bytes are in hand and decoding begins.
    pub fn bytes_read(&mut self)
        requires
            old(self)@ == LoadState::Reading,
        ensures
            final(self)@ == LoadState::Decoding,
    {
        self.state = LoadState::Decoding;
    }

    /// Decodes the bytes that were read and publishes the result: on success
    /// the decoded image is written into the slot, and a copy is handed back
    /// for the caller to turn into a renderable bitmap. On failure the slot
    /// keeps exactly what it held, and the pipeline ends in Failed.
    pub fn decode_and_store(&mut self, bytes: &Vec<u8>, slot: &mut SharedImageSlot) -> (r: Result<
        DecodedImage,
        DecodeError,
    >)
        requires
            old(self)@ == LoadState::Decoding,
            old(slot).wf(),
        ensures
            final(slot).wf(),
            match r {
                Ok(img) => {
                    &&& final(self)@ == LoadState::Publishing
                    &&& final(slot)@ == Some(img@)
                    &&& spec_decode(bytes@) == Ok::<ImageView, DecodeError>(img@)
                    &&& img.wf()
                },
                Err(e) => {
                    &&& final(self)@ == LoadState::Failed
                    &&& final(slot)@ == old(slot)@
                    &&& spec_decode(bytes@) == Err::<ImageView, DecodeError>(e)
                },
            },
    {
        match decode(bytes) {
            Ok(img) => {
                let copy = img.duplicate();
                slot.store(img);
                self.state = LoadState::Publishing;
                Ok(copy)
            },
            Err(e) => {
                self.state = LoadState::Failed;
                Err(e)
            },
        }
    }

    /// The UI-thread callback was scheduled; scheduling is fire-and-forget,
    /// so the pipeline is done without waiting for the UI to apply it.
    pub fn published(&mut self)
        requires
            old(self)@ == LoadState::Publishing,
        ensures
            final(self)@ == LoadState::Done,
    {
        self.state = LoadState::Done;
    }
}

} // verus!
