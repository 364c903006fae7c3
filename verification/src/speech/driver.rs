//! The synth driver contract's plain data: index marks, the PCM format, the
//! error a driver reports, and the sink a driver pushes its output into.

use std::ops::ControlFlow;
use vstd::prelude::*;


verus! {

/// An index mark inside a speech request, echoed back by the driver as
/// synthesis passes it.
#[derive(Clone, Copy, Debug, PartialEq, Eq, Hash)]
pub struct IndexMark(pub u64);

/// Placement of an [`IndexMark`] within a request's text.
#[derive(Clone, Copy, Debug, PartialEq, Eq)]
pub struct RequestMark {
    /// Character offset into the request text (0 marks the start).
    pub position: usize,
    /// The mark to echo when synthesis reaches the position.
    pub mark: IndexMark,
}

/// Interleaved 16-bit PCM format: sample rate and channel count.
#[derive(Clone, Copy, Debug, PartialEq, Eq)]
pub struct PcmFormat {
    /// Samples per second per channel.
    pub sample_rate: u32,
    /// Interleaved channels.
    pub channels: u16,
}

/// Error from a synth driver.
#[derive(Clone, Debug, PartialEq, Eq)]
pub enum SynthError {
    /// The synthesizer cannot be initialized or has stopped working.
    Unavailable(String),
    /// A setting id or value the driver does not accept.
    Setting(String),
    /// Synthesis of one request failed.
    Synthesis(String),
}

/// The kind and detail of a [`SynthError`].
pub enum SynthErrorView {
    /// See [`SynthError::Unavailable`].
    Unavailable(Seq<char>),
    /// See [`SynthError::Setting`].
    Setting(Seq<char>),
    /// See [`SynthError::Synthesis`].
    Synthesis(Seq<char>),
}

impl View for SynthError {
    type V = SynthErrorView;

    open spec fn view(&self) -> SynthErrorView {
        match self {
            SynthError::Unavailable(d) => SynthErrorView::Unavailable(d@),
            SynthError::Setting(d) => SynthErrorView::Setting(d@),
            SynthError::Synthesis(d) => SynthErrorView::Synthesis(d@),
        }
    }
}

/// The human-readable form of an error.
pub open spec fn synth_error_message(e: SynthErrorView) -> Seq<char> {
    match e {
        SynthErrorView::Unavailable(d) => "synthesizer unavailable: "@ + d,
        SynthErrorView::Setting(d) => "synthesizer setting rejected: "@ + d,
        SynthErrorView::Synthesis(d) => "synthesis failed: "@ + d,
    }
}

impl SynthError {
    /// The human-readable form of the error.
    pub fn message(&self) -> (r: String)
        ensures
            r@ == synth_error_message(self@),
    {
        match self {
            SynthError::Unavailable(detail) => {
                let mut s = "synthesizer unavailable: ".to_owned();
                s.append(detail.as_str());
                s
            },
            SynthError::Setting(detail) => {
                let mut s = "synthesizer setting rejected: ".to_owned();
                s.append(detail.as_str());
                s
            },
            SynthError::Synthesis(detail) => {
                let mut s = "synthesis failed: ".to_owned();
                s.append(detail.as_str());
                s
            },
        }
    }
}

/// Receives a driver's output during synthesis.
pub trait SynthSink {
    /// Accepts interleaved 16-bit PCM in the driver's format. A return of
    /// `ControlFlow::Break(())` tells the driver to stop synthesizing now.
    fn push_pcm(&mut self, samples: &[i16]) -> ControlFlow<()>;

    /// Reports that synthesis passed an index mark.
    fn index_reached(&mut self, mark: IndexMark);
}

} // verus!
