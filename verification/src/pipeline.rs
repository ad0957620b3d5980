//! The capture and encoder pipeline's parameters: the frame rate, the
//! encoder's command line, and the pause that paces the capture loop.
use vstd::prelude::*;
use vstd::string::*;

use crate::text::{
    decimal, digits_value, is_digit, law_decimal_denotes, lemma_decimal_len, push_decimal,
};

verus! {

/// Frames captured and encoded per second.
pub const FRAMES_PER_SECOND: u32 = 30;

/// `WIDTHxHEIGHT`, the encoder's notation for a frame size.
pub open spec fn video_size_text(width: u32, height: u32) -> Seq<char> {
    decimal(width as nat) + "x"@ + decimal(height as nat)
}

/// The encoder's command line: raw RGBA frames of the given size arrive on
/// standard input at the capture rate and are encoded with H.264 (yuv420p,
/// fastest preset) into `output`, which is overwritten if it exists.
pub open spec fn encoder_command_text(width: u32, height: u32, output: Seq<char>) -> Seq<Seq<char>> {
    seq![
        "ffmpeg"@,
        "-f"@,
        "rawvideo"@,
        "-pixel_format"@,
        "rgba"@,
        "-video_size"@,
        video_size_text(width, height),
        "-framerate"@,
        decimal(FRAMES_PER_SECOND as nat),
        "-i"@,
        "pipe:0"@,
        "-c:v"@,
        "libx264"@,
        "-pix_fmt"@,
        "yuv420p"@,
        "-preset"@,
        "ultrafast"@,
        "-y"@,
        output,
    ]
}

/// The views of a list of strings.
pub open spec fn texts(v: Seq<String>) -> Seq<Seq<char>> {
    v.map_values(|s: String| s@)
}

/// The encoder's program name followed by its arguments.
pub fn encoder_command(width: u32, height: u32, output: &str) -> (argv: Vec<String>)
    ensures
        texts(argv@) == encoder_command_text(width, height, output@),
{
    let mut size = String::new();
    push_decimal(&mut size, width as u64);
    size.append("x");
    push_decimal(&mut size, height as u64);
    let mut rate = String::new();
    push_decimal(&mut rate, FRAMES_PER_SECOND as u64);
    let mut argv: Vec<String> = Vec::new();
    argv.push("ffmpeg".to_owned());
    argv.push("-f".to_owned());
    argv.push("rawvideo".to_owned());
    argv.push("-pixel_format".to_owned());
    argv.push("rgba".to_owned());
    argv.push("-video_size".to_owned());
    argv.push(size);
    argv.push("-framerate".to_owned());
    argv.push(rate);
    argv.push("-i".to_owned());
    argv.push("pipe:0".to_owned());
    argv.push("-c:v".to_owned());
    argv.push("libx264".to_owned());
    argv.push("-pix_fmt".to_owned());
    argv.push("yuv420p".to_owned());
    argv.push("-preset".to_owned());
    argv.push("ultrafast".to_owned());
    argv.push("-y".to_owned());
    argv.push(output.to_owned());
    assert(texts(argv@) =~= encoder_command_text(width, height, output@));
    argv
}

/// How long the capture loop sleeps after a frame that took `elapsed_nanos`
/// when one frame lasts `frame_nanos`: the rest of the frame, or nothing when
/// the capture already took the whole frame or more.
pub fn frame_pause_nanos(frame_nanos: u64, elapsed_nanos: u64) -> (pause: u64)
    ensures
        pause == if elapsed_nanos < frame_nanos { frame_nanos - elapsed_nanos } else { 0 },
        elapsed_nanos + pause >= frame_nanos,
{
    if elapsed_nanos < frame_nanos {
        frame_nanos - elapsed_nanos
    } else {
        0
    }
}

/// The encoder is told the frame size it is given: the `-video_size`
/// argument is two runs of digits joined by `x`, the first denoting the
/// width and the second the height; the frame rate argument denotes
/// `FRAMES_PER_SECOND`; and the output file is the last argument.
pub proof fn law_encoder_is_told_the_frame_size(width: u32, height: u32, output: Seq<char>)
    ensures
        ({
            let argv = encoder_command_text(width, height, output);
            let size = argv[6];
            &&& argv.len() == 19
            &&& argv[5] == "-video_size"@
            &&& exists|k: int|
                0 < k < size.len() - 1 && size[k] == 'x' && digits_value(size.subrange(0, k))
                    == width && digits_value(size.subrange(k + 1, size.len() as int)) == height
                    && (forall|i: int| 0 <= i < size.len() && i != k ==> is_digit(#[trigger] size[i]))
            &&& argv[7] == "-framerate"@
            &&& digits_value(argv[8]) == FRAMES_PER_SECOND
            &&& argv[18] == output
        }),
{
    reveal_strlit("x");
    law_decimal_denotes(width as nat);
    law_decimal_denotes(height as nat);
    law_decimal_denotes(FRAMES_PER_SECOND as nat);
    let argv = encoder_command_text(width, height, output);
    let size = argv[6];
    let k = decimal(width as nat).len() as int;
    lemma_decimal_len(width as nat);
    lemma_decimal_len(height as nat);
    assert(size == decimal(width as nat) + "x"@ + decimal(height as nat));
    assert(size[k] == 'x');
    assert(0 < k < size.len() - 1);
    assert(argv[8] == decimal(FRAMES_PER_SECOND as nat));
    assert(size.subrange(0, k) =~= decimal(width as nat));
    assert(size.subrange(k + 1, size.len() as int) =~= decimal(height as nat));
    assert forall|i: int| 0 <= i < size.len() && i != k implies is_digit(#[trigger] size[i]) by {
        if i < k {
            assert(size[i] == decimal(width as nat)[i]);
        } else {
            assert(size[i] == decimal(height as nat)[i - k - 1]);
        }
    }
    assert(digits_value(size.subrange(0, k)) == width && digits_value(
        size.subrange(k + 1, size.len() as int),
    ) == height);
}

} // verus!
