//! What the GIF decoder and encoder decide around the calls they make into the GIF codec: the
//! frames skipped to reach a selected frame, whether more frames follow, the limits a decode
//! runs under, and the delay each written frame gets.
use vstd::prelude::*;
use crate::errors::ErrorKind;
use crate::flow_error::FlowError;
use crate::graphics::bitmaps::PixelFormat;
use crate::codecs::decoder_state::{DecoderCommand, FramePeek};

verus! {

/// What the GIF decoder does next when asked for a frame.
#[derive(Copy, Clone, Debug, PartialEq, Eq, Structural)]
pub enum GifStep {
    /// Read a frame and drop it, to reach the selected frame.
    SkipFrame,
    /// Read the frame that is returned.
    ReadFrame,
}

/// The decision state of a GIF decoder.
pub struct ZenGifDecoderState {
    /// The frame a `SelectFrame` command asked for.
    pub target_frame: Option<i32>,
    /// The index of the next frame the codec gives.
    pub current_frame: i32,
    /// Whether more frames follow, where that is known.
    pub has_more: Option<bool>,
    /// The delay of the last frame returned, in centiseconds.
    pub last_delay: Option<u16>,
}

impl ZenGifDecoderState {
    /// A decoder at the first frame, given no commands.
    pub fn new() -> (r: ZenGifDecoderState)
        ensures
            r.target_frame is None,
            r.current_frame == 0,
            r.has_more is None,
            r.last_delay is None,
    {
        ZenGifDecoderState { target_frame: None, current_frame: 0, has_more: None, last_delay: None }
    }

    /// Selecting a frame is the only command the GIF decoder acts on.
    pub fn tell_decoder(&mut self, command: DecoderCommand)
        ensures
            final(self).target_frame == (match command {
                DecoderCommand::SelectFrame(f) => Some(f),
                _ => old(self).target_frame,
            }),
            final(self).current_frame == old(self).current_frame,
            final(self).has_more == old(self).has_more,
            final(self).last_delay == old(self).last_delay,
    {
        if let DecoderCommand::SelectFrame(f) = command {
            self.target_frame = Some(f);
        }
    }

    /// Frames are skipped while the decoder is before the selected frame.
    pub fn next_step(&self) -> (r: GifStep)
        ensures
            r == (match self.target_frame {
                Some(t) => if self.current_frame < t { GifStep::SkipFrame } else { GifStep::ReadFrame },
                None => GifStep::ReadFrame,
            }),
    {
        match self.target_frame {
            Some(t) => if self.current_frame < t { GifStep::SkipFrame } else { GifStep::ReadFrame },
            None => GifStep::ReadFrame,
        }
    }

    /// Records a skipped frame. Running out of frames before the selected one is
    /// `InvalidArgument`, and changes nothing.
    pub fn frame_skipped(&mut self, got_frame: bool) -> (r: Result<(), FlowError>)
        requires
            old(self).target_frame matches Some(t) && old(self).current_frame < t,
        ensures
            got_frame ==> r is Ok && final(self).current_frame == old(self).current_frame + 1,
            !got_frame ==> (r matches Err(e) && e.kind == ErrorKind::InvalidArgument)
                && final(self).current_frame == old(self).current_frame,
            final(self).target_frame == old(self).target_frame,
            final(self).has_more == old(self).has_more,
            final(self).last_delay == old(self).last_delay,
    {
        if !got_frame {
            return Err(FlowError::with_message(ErrorKind::InvalidArgument, "the selected frame is past the last frame of the GIF"));
        }
        self.current_frame = self.current_frame + 1;
        Ok(())
    }

    /// Records the frame returned, with its delay. Having no frame to return is
    /// `InvalidOperation`, and changes nothing.
    pub fn frame_read(&mut self, frame_delay: Option<u16>) -> (r: Result<(), FlowError>)
        requires
            old(self).current_frame < i32::MAX,
        ensures
            frame_delay matches Some(d) ==> r is Ok && final(self).current_frame == old(self).current_frame + 1
                && final(self).last_delay == Some(d),
            frame_delay is None ==> (r matches Err(e) && e.kind == ErrorKind::InvalidOperation)
                && final(self).current_frame == old(self).current_frame && final(self).last_delay == old(self).last_delay,
            final(self).target_frame == old(self).target_frame,
            final(self).has_more == old(self).has_more,
    {
        match frame_delay {
            Some(d) => {
                self.current_frame = self.current_frame + 1;
                self.last_delay = Some(d);
                Ok(())
            },
            None => Err(FlowError::with_message(ErrorKind::InvalidOperation, "No more frames available")),
        }
    }

    /// A decoder that selected a frame looks no further; one that did not looks ahead.
    pub fn should_peek(&self) -> (r: bool)
        ensures
            r == (self.target_frame is None),
    {
        self.target_frame.is_none()
    }

    /// Records what looking ahead found: more frames follow only where another frame was
    /// decoded and no frame was selected.
    pub fn after_frame(&mut self, peek: FramePeek)
        ensures
            final(self).has_more == Some(old(self).target_frame is None && peek == FramePeek::Frame),
            final(self).target_frame == old(self).target_frame,
            final(self).current_frame == old(self).current_frame,
            final(self).last_delay == old(self).last_delay,
    {
        if self.target_frame.is_some() {
            self.has_more = Some(false);
        } else {
            self.has_more = Some(match peek {
                FramePeek::Frame => true,
                _ => false,
            });
        }
    }

    /// More frames are assumed to follow until a read says otherwise.
    pub fn has_more_frames(&self) -> (r: bool)
        ensures
            r == (match self.has_more {
                Some(b) => b,
                None => true,
            }),
    {
        match self.has_more {
            Some(b) => b,
            None => true,
        }
    }

    /// The delay of the last frame returned, in centiseconds.
    pub fn last_frame_delay(&self) -> (r: Option<u16>)
        ensures
            r == self.last_delay,
    {
        self.last_delay
    }
}

/// A GIF decodes into BGRA frames of its canvas size; it has several frames when its metadata
/// counts more than one.
pub fn gif_image_info(width: u16, height: u16, frame_count: u32) -> (r: (PixelFormat, i32, i32, bool))
    ensures
        r == (PixelFormat::Bgra32, width as i32, height as i32, frame_count > 1),
{
    (PixelFormat::Bgra32, width as i32, height as i32, frame_count > 1)
}

/// The canvas of a GIF must fit the job's width and height limits, compared as 32-bit signed
/// values; a wider or taller canvas is `SizeLimitExceeded`.
pub fn gif_dimensions_within(width: u16, height: u16, limit_w: u32, limit_h: u32) -> (r: Result<(), FlowError>)
    ensures
        r is Ok <==> (width as int <= (limit_w as i32) as int && height as int <= (limit_h as i32) as int),
        r matches Err(e) ==> e.kind == ErrorKind::SizeLimitExceeded,
{
    let lw: i32 = limit_w as i32;
    let lh: i32 = limit_h as i32;
    if (width as i32) > lw {
        return Err(FlowError::with_message(ErrorKind::SizeLimitExceeded, "GIF width exceeds max_decode_size.w"));
    }
    if (height as i32) > lh {
        return Err(FlowError::with_message(ErrorKind::SizeLimitExceeded, "GIF height exceeds max_decode_size.h"));
    }
    Ok(())
}

/// The memory and pixel limits a GIF decode runs under: the bytes a job's size limit allows (four
/// per pixel), or 256 MiB without one; a quarter as many pixels as bytes.
pub fn gif_memory_limits(limit_bytes: Option<u64>) -> (r: (u64, u64))
    ensures
        r.0 == (match limit_bytes {
            Some(b) => b as int,
            None => 268435456int,
        }),
        r.1 == r.0 / 4,
{
    let max_bytes: u64 = match limit_bytes {
        Some(b) => b,
        None => 268435456,
    };
    (max_bytes, max_bytes / 4)
}

/// The delay of a frame written to a GIF: the source frame's delay where the source is a GIF
/// decoder that has one, ten centiseconds otherwise.
pub fn gif_frame_delay(source_delay: Option<u16>) -> (r: u16)
    ensures
        r == (match source_delay {
            Some(d) => d,
            None => 10u16,
        }),
{
    match source_delay {
        Some(d) => d,
        None => 10,
    }
}

} // verus!
