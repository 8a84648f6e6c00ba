//! JSON codec for tunnel frames.
use crate::errors::error_text;
use crate::inspect::refuse;
use crate::json::{parse, parsed_tree, print, text_tree, tree_text};
use crate::refusal::{refusal, Shape};
use crate::round_trip::{lemma_frame_can_be_written, lemma_frame_round_trip};
use crate::tunnel::{
    FrameView, PayloadView, TunnelCodec, TunnelError, TunnelFrame, TunnelPayload,
};
use crate::verdict::law_refused_values_are_no_frames;
use crate::wire::{frame_from, frame_tree};
use vstd::prelude::*;

verus! {

/// The text that stands for a frame.
pub open spec fn frame_text(frame: FrameView) -> Seq<char> {
    tree_text(frame_tree(frame))
}

/// The frame that a text stands for.
pub open spec fn text_frame(text: Seq<char>) -> Option<FrameView> {
    match parsed_tree(text) {
        Ok(tree) => frame_from(tree),
        Err(_) => None,
    }
}

/// What the error says of a text that stands for no frame: what `serde_json` says where
/// it is no JSON, or else the first thing that is wrong with its tree.
pub open spec fn refusal_text(text: Seq<char>) -> Option<Seq<char>> {
    match parsed_tree(text) {
        Ok(tree) => refusal(Shape::Frame, tree),
        Err(message) => Some(message),
    }
}

/// JSON codec for tunnel control frames and test fixtures.
#[derive(Debug, Clone, Copy, Default)]
pub struct JsonTunnelCodec;

impl TunnelCodec for JsonTunnelCodec {
    /// Encodes a frame as the JSON text of its tree. This does not fail, and the text
    /// decodes to the same frame.
    fn encode(&self, frame: &TunnelFrame) -> (result: Result<TunnelPayload, TunnelError>)
        ensures
            result is Ok,
            result->Ok_0@ == PayloadView::Text(frame_text(frame@)),
            text_tree(frame_text(frame@)) matches Ok(tree) && tree == frame_tree(frame@),
            text_frame(frame_text(frame@)) == Some(frame@),
    {
        let json = frame.to_json();
        proof {
            lemma_frame_can_be_written(frame@);
            lemma_frame_round_trip(frame@);
        }
        match print(&json) {
            Ok(text) => Ok(TunnelPayload::Text(text)),
            Err(error) => Err(TunnelError::Json(error)),
        }
    }

    /// Decodes a frame from a JSON text.
    ///
    /// # Errors
    ///
    /// Returns [`TunnelError::Json`] when the text is no JSON, when an object in it repeats
    /// a name, or when its tree is no frame, with an error that says what is wrong, and
    /// [`TunnelError::UnsupportedPayload`] on a binary payload. Where the text is JSON, the
    /// error does not tell at which line and column the fault stands.
    fn decode(&self, payload: TunnelPayload) -> (result: Result<TunnelFrame, TunnelError>)
        ensures
            match (payload@, result) {
                (PayloadView::Text(text), Ok(frame)) => text_frame(text) == Some(frame@),
                (PayloadView::Text(text), Err(error)) => {
                    &&& text_frame(text) is None
                    &&& error is Json
                    &&& refusal_text(text) == Some(error_text(error->Json_0))
                },
                (PayloadView::Binary(_), Ok(_)) => false,
                (PayloadView::Binary(_), Err(error)) => error is UnsupportedPayload,
            },
    {
        match payload {
            TunnelPayload::Text(text) => match parse(text.as_str()) {
                Ok(json) => match TunnelFrame::from_json(&json) {
                    Some(frame) => Ok(frame),
                    None => {
                        proof {
                            law_refused_values_are_no_frames(json@);
                        }
                        Err(TunnelError::Json(refuse(Shape::Frame, &json).unwrap()))
                    },
                },
                Err(error) => Err(TunnelError::Json(error)),
            },
            TunnelPayload::Binary(_bytes) => Err(TunnelError::UnsupportedPayload),
        }
    }
}

} // verus!
