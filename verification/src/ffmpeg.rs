//! How the video encoder is invoked.
//!
//! The encoder is an external `ffmpeg` process that reads raw frames from its
//! standard input. This module decides its command line and the size of the
//! frames it expects; starting the process is left to the caller.

use vstd::prelude::*;
use crate::decimal::{decimal, push_decimal, to_decimal};

verus! {

/// The encoder's configuration: frame rate and frame size in pixels.
#[derive(Clone, Copy, Debug)]
pub struct Ffmpeg {
    fps: u32,
    width: i32,
    height: i32,
}

/// The text of the `-video_size` argument: width and height in decimal,
/// joined by an `x`.
pub open spec fn video_size(width: i32, height: i32) -> Seq<char> {
    decimal(width as int) + seq!['x'] + decimal(height as int)
}

/// The encoder's arguments for a frame rate and a frame size: raw BGRA frames
/// of that size at that rate on standard input, H.264 in `output.mp4` out,
/// an existing file overwritten, no audio.
pub open spec fn command_line(fps: u32, width: i32, height: i32) -> Seq<Seq<char>> {
    seq![
        "-y"@,
        "-an"@,
        "-f"@,
        "rawvideo"@,
        "-pix_fmt"@,
        "bgra"@,
        "-video_size"@,
        video_size(width, height),
        "-framerate"@,
        decimal(fps as int),
        "-i"@,
        "-"@,
        "-c:v"@,
        "libx264"@,
        "-pix_fmt"@,
        "yuv420p"@,
        "output.mp4"@,
    ]
}

/// Bytes in one raw frame of 32-bit pixels.
pub open spec fn frame_bytes(width: i32, height: i32) -> int {
    width * height * 4
}

impl Ffmpeg {
    /// Frames per second.
    pub closed spec fn fps(&self) -> u32 {
        self.fps
    }

    /// Frame width in pixels.
    pub closed spec fn width(&self) -> i32 {
        self.width
    }

    /// Frame height in pixels.
    pub closed spec fn height(&self) -> i32 {
        self.height
    }

    /// An encoder configuration with the given frame rate and frame size.
    #[must_use]
    pub fn new(fps: u32, width: i32, height: i32) -> (encoder: Self)
        ensures
            encoder.fps() == fps,
            encoder.width() == width,
            encoder.height() == height,
    {
        Self { fps, width, height }
    }

    /// The name of the program to run.
    pub fn program(&self) -> (name: String)
        ensures
            name@ == "ffmpeg"@,
    {
        String::from_str("ffmpeg")
    }

    /// The arguments to run the program with.
    pub fn args(&self) -> (args: Vec<String>)
        ensures
            args.deep_view() == command_line(self.fps(), self.width(), self.height()),
    {
        let mut size = to_decimal(self.width as i64);
        proof {
            reveal_strlit("x");
        }
        size.append("x");
        push_decimal(&mut size, self.height as i64);
        assert(size@ =~= video_size(self.width, self.height));

        let mut args: Vec<String> = Vec::new();
        args.push(String::from_str("-y"));
        args.push(String::from_str("-an"));
        args.push(String::from_str("-f"));
        args.push(String::from_str("rawvideo"));
        args.push(String::from_str("-pix_fmt"));
        args.push(String::from_str("bgra"));
        args.push(String::from_str("-video_size"));
        args.push(size);
        args.push(String::from_str("-framerate"));
        args.push(to_decimal(self.fps as i64));
        args.push(String::from_str("-i"));
        args.push(String::from_str("-"));
        args.push(String::from_str("-c:v"));
        args.push(String::from_str("libx264"));
        args.push(String::from_str("-pix_fmt"));
        args.push(String::from_str("yuv420p"));
        args.push(String::from_str("output.mp4"));
        assert(args.deep_view() =~= command_line(self.fps, self.width, self.height));
        args
    }

    /// The number of bytes the encoder reads for one frame, which is what a
    /// rasterizer of this frame size hands over per frame: four bytes for
    /// each pixel. There is none for a negative width or height.
    pub fn frame_len(&self) -> (len: Option<u64>)
        ensures
            self.width() >= 0 && self.height() >= 0 <==> len is Some,
            len matches Some(n) ==> n == frame_bytes(self.width(), self.height()),
    {
        if self.width < 0 || self.height < 0 {
            None
        } else {
            let w: u64 = self.width as u64;
            let h: u64 = self.height as u64;
            assert(w * h * 4 <= u64::MAX) by (nonlinear_arith)
                requires
                    w < 0x8000_0000,
                    h < 0x8000_0000,
            ;
            Some(w * h * 4)
        }
    }
}

} // verus!
