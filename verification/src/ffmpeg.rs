//! What is computed from FFmpeg's view of a file: the command line of the
//! pipe that feeds raw frames to an encoder, the frame count and the
//! keyframes of the video stream, and paths escaped for filter arguments. Opening the file and reading its packets is
//! left to the caller, which hands over the packets' stream indices and key
//! flags.

use vstd::prelude::*;
use crate::settings::views;
use crate::platform::main_separator;
use crate::text::push_char;

verus! {

/// The arguments of an FFmpeg process that reads a video from standard input,
/// applies `params`, and writes raw `pix_format` frames as a y4m stream to
/// standard output.
pub open spec fn spec_ffmpeg_pipe(params: Seq<Seq<char>>, pix_format: Seq<char>) -> Seq<Seq<char>> {
    seq!["ffmpeg"@, "-y"@, "-hide_banner"@, "-loglevel"@, "error"@, "-i"@, "-"@] + params + seq![
        "-pix_fmt"@,
        pix_format,
        "-strict"@,
        "-1"@,
        "-f"@,
        "yuv4mpegpipe"@,
        "-"@,
    ]
}

/// The FFmpeg command line that pipes the input, filtered by `params`, as raw
/// frames of the pixel format named `pix_format`.
pub fn compose_ffmpeg_pipe(params: &Vec<String>, pix_format: &str) -> (r: Vec<String>)
    ensures
        views(r@) == spec_ffmpeg_pipe(views(params@), pix_format@),
{
    let mut p: Vec<String> = Vec::new();
    p.push("ffmpeg".to_owned());
    p.push("-y".to_owned());
    p.push("-hide_banner".to_owned());
    p.push("-loglevel".to_owned());
    p.push("error".to_owned());
    p.push("-i".to_owned());
    p.push("-".to_owned());
    let ghost head = views(p@);
    assert(head =~= seq!["ffmpeg"@, "-y"@, "-hide_banner"@, "-loglevel"@, "error"@, "-i"@, "-"@]);
    let mut i: usize = 0;
    while i < params.len()
        invariant
            i <= params.len(),
            views(p@) == head + views(params@).take(i as int),
        decreases params.len() - i,
    {
        let ghost before = p@;
        let item = params[i].clone();
        assert(item@ == params@[i as int]@);
        p.push(item);
        assert(views(p@) =~= views(before).push(params@[i as int]@));
        assert(views(params@).take(i + 1) =~= views(params@).take(i as int).push(params@[i as int]@));
        assert(views(p@) =~= head + views(params@).take(i + 1));
        i = i + 1;
    }
    assert(views(params@).take(params@.len() as int) =~= views(params@));
    let ghost middle = views(p@);
    p.push("-pix_fmt".to_owned());
    p.push(pix_format.to_owned());
    p.push("-strict".to_owned());
    p.push("-1".to_owned());
    p.push("-f".to_owned());
    p.push("yuv4mpegpipe".to_owned());
    p.push("-".to_owned());
    assert(views(p@) =~= middle + seq![
        "-pix_fmt"@,
        pix_format@,
        "-strict"@,
        "-1"@,
        "-f"@,
        "yuv4mpegpipe"@,
        "-"@,
    ]);
    p
}

/// The number of packets that belong to stream `stream`.
pub open spec fn packets_of(packet_streams: Seq<usize>, stream: usize) -> nat
    decreases packet_streams.len(),
{
    if packet_streams.len() == 0 {
        0
    } else {
        packets_of(packet_streams.drop_last(), stream) + if packet_streams.last() == stream {
            1nat
        } else {
            0nat
        }
    }
}

/// The frame count of the video stream `video_stream_index`: the number of
/// its packets among those of the file (`packet_streams` holds the stream
/// index of each packet, in file order).
pub fn get_num_frames(packet_streams: &Vec<usize>, video_stream_index: usize) -> (r: usize)
    ensures
        r == packets_of(packet_streams@, video_stream_index),
{
    let mut count: usize = 0;
    let mut i: usize = 0;
    while i < packet_streams.len()
        invariant
            i <= packet_streams.len(),
            count == packets_of(packet_streams@.take(i as int), video_stream_index),
            count <= i,
        decreases packet_streams.len() - i,
    {
        proof {
            assert(packet_streams@.take(i + 1).drop_last() =~= packet_streams@.take(i as int));
        }
        if packet_streams[i] == video_stream_index {
            count = count + 1;
        }
        i = i + 1;
    }
    assert(packet_streams@.take(packet_streams@.len() as int) =~= packet_streams@);
    count
}

/// The key flags of the packets of stream `stream`, in file order.
pub open spec fn key_flags_of(packets: Seq<(usize, bool)>, stream: usize) -> Seq<bool>
    decreases packets.len(),
{
    if packets.len() == 0 {
        seq![]
    } else {
        let rest = key_flags_of(packets.drop_last(), stream);
        if packets.last().0 == stream {
            rest.push(packets.last().1)
        } else {
            rest
        }
    }
}

/// The positions of the set flags, in increasing order.
pub open spec fn set_positions(flags: Seq<bool>) -> Seq<usize>
    decreases flags.len(),
{
    if flags.len() == 0 {
        seq![]
    } else {
        let rest = set_positions(flags.drop_last());
        if flags.last() {
            rest.push((flags.len() - 1) as usize)
        } else {
            rest
        }
    }
}

/// The keyframes of the video stream: the positions, among the packets of
/// stream `video_stream_index`, of the key packets (`packets` holds each
/// packet's stream index and key flag, in file order); frame 0 alone when
/// there is none.
pub fn get_keyframes(packets: &Vec<(usize, bool)>, video_stream_index: usize) -> (r: Vec<usize>)
    ensures
        r@ == (if set_positions(key_flags_of(packets@, video_stream_index)).len() == 0 {
            seq![0usize]
        } else {
            set_positions(key_flags_of(packets@, video_stream_index))
        }),
{
    let mut kfs: Vec<usize> = Vec::new();
    let mut frame: usize = 0;
    let mut i: usize = 0;
    while i < packets.len()
        invariant
            i <= packets.len(),
            frame == key_flags_of(packets@.take(i as int), video_stream_index).len(),
            frame <= i,
            kfs@ == set_positions(key_flags_of(packets@.take(i as int), video_stream_index)),
        decreases packets.len() - i,
    {
        let (stream, key) = packets[i];
        proof {
            assert(packets@.take(i + 1).drop_last() =~= packets@.take(i as int));
            assert(packets@.take(i + 1).last() == packets@[i as int]);
        }
        if stream == video_stream_index {
            let ghost flags = key_flags_of(packets@.take(i + 1), video_stream_index);
            proof {
                assert(flags.drop_last() =~= key_flags_of(packets@.take(i as int), video_stream_index));
            }
            if key {
                kfs.push(frame);
            }
            frame = frame + 1;
        }
        i = i + 1;
    }
    assert(packets@.take(packets@.len() as int) =~= packets@);
    if kfs.len() == 0 {
        let mut first: Vec<usize> = Vec::new();
        first.push(0);
        return first;
    }
    kfs
}

/// How a character of a path is written in an FFmpeg filter argument: `[`,
/// `]` and `,` behind a backslash; on Windows also `\` as `/` and `:` behind
/// two backslashes.
pub open spec fn escaped_char(c: char, windows: bool) -> Seq<char> {
    if windows && c == '\\' {
        seq!['/']
    } else if windows && c == ':' {
        seq!['\\', '\\', ':']
    } else if c == '[' || c == ']' || c == ',' {
        seq!['\\', c]
    } else {
        seq![c]
    }
}

/// A path written for an FFmpeg filter argument, character by character.
pub open spec fn escaped_path(path: Seq<char>, windows: bool) -> Seq<char>
    decreases path.len(),
{
    if path.len() == 0 {
        Seq::empty()
    } else {
        escaped_path(path.drop_last(), windows) + escaped_char(path.last(), windows)
    }
}

/// `path` written for an FFmpeg filter argument, the Windows way or not.
pub fn escape_filter_path(path: &str, windows: bool) -> (r: String)
    ensures
        r@ == escaped_path(path@, windows),
{
    let n = path.unicode_len();
    let mut r = String::new();
    let mut i: usize = 0;
    while i < n
        invariant
            n == path@.len(),
            i <= n,
            r@ == escaped_path(path@.take(i as int), windows),
        decreases n - i,
    {
        let c = path.get_char(i);
        let ghost before = r@;
        if windows && c == '\\' {
            push_char(&mut r, '/');
        } else if windows && c == ':' {
            push_char(&mut r, '\\');
            push_char(&mut r, '\\');
            push_char(&mut r, ':');
        } else if c == '[' || c == ']' || c == ',' {
            push_char(&mut r, '\\');
            push_char(&mut r, c);
        } else {
            push_char(&mut r, c);
        }
        assert(r@ =~= before + escaped_char(c, windows));
        assert(path@.take(i + 1).drop_last() =~= path@.take(i as int));
        i = i + 1;
    }
    assert(path@.take(n as int) =~= path@);
    r
}

/// The absolute path `path` written for an FFmpeg filter argument on this
/// platform (the Windows way where paths are separated by `\`).
pub fn escape_path_in_filter(path: &str) -> (r: String)
    ensures
        r@ == escaped_path(path@, true) || r@ == escaped_path(path@, false),
{
    escape_filter_path(path, main_separator() == '\\')
}

} // verus!
