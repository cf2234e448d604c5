//! Pictures of what the encoder is given, for debugging.

use vstd::prelude::*;
use vstd::string::*;

use crate::nv12::nv12_to_rgb;
use crate::screenshot::encode_rgb;
use crate::text::{dec_six, parse};
#[allow(unused_imports)]
use crate::nv12::{buffer_bytes, chroma_index, chroma_rows, holds_frame, luma_index, rgb_channel};
#[allow(unused_imports)]
use crate::screenshot::png_file;
#[allow(unused_imports)]
use crate::text::{decimal, parsed, zero_padded};

verus! {

/// One picture is written out of that many, unless set otherwise.
pub const DEFAULT_DUMP_EVERY: u64 = 30;

/// Counts the pictures that could have been written.
#[derive(Debug, Clone, Copy, PartialEq, Eq, Structural)]
pub struct DumpCounter {
    pub next: u64,
}

/// One picture is written out of this many, by the setting of that value.
pub open spec fn dump_interval(value: Option<Seq<char>>) -> u64 {
    match value {
        Some(v) => match parsed(v, u64::MAX) {
            Some(n) if n > 0 => n,
            _ => DEFAULT_DUMP_EVERY,
        },
        None => DEFAULT_DUMP_EVERY,
    }
}

/// One picture is written out of this many, by the setting of that value.
pub fn interval(value: Option<&str>) -> (r: u64)
    ensures
        r == dump_interval(
            match value {
                Some(v) => Some(v@),
                None => None,
            },
        ),
        r > 0,
{
    match value {
        None => DEFAULT_DUMP_EVERY,
        Some(v) => match parse(v, u64::MAX) {
            Some(n) => if n > 0 {
                n
            } else {
                DEFAULT_DUMP_EVERY
            },
            None => DEFAULT_DUMP_EVERY,
        },
    }
}

impl DumpCounter {
    /// Decides whether a picture is written, and gives its number. `dir` is where
    /// pictures are to go; without one, nothing is counted.
    pub fn gate(&mut self, dir: Option<&str>, every: Option<&str>) -> (r: Option<u64>)
        requires
            old(self).next < u64::MAX,
        ensures
            match dir {
                Some(d) if d@.len() > 0 => {
                    &&& final(self).next == old(self).next + 1
                    &&& r == if old(self).next as int % dump_interval(
                        match every {
                            Some(v) => Some(v@),
                            None => None,
                        },
                    ) as int == 0 {
                        Some(old(self).next)
                    } else {
                        None
                    }
                },
                _ => r is None && *final(self) == *old(self),
            },
    {
        let given: bool = match dir {
            Some(d) => d.unicode_len() > 0,
            None => false,
        };
        if !given {
            return None;
        }
        let n: u64 = interval(every);
        let seq: u64 = self.next;
        self.next = seq + 1;
        if seq % n != 0 {
            return None;
        }
        Some(seq)
    }
}

/// Where the picture of that number goes. `tag` tells what it is of.
pub fn dump_path(dir: &str, tag: &str, seq: u64) -> (r: String)
    ensures
        r@ == dir@ + "/nv12-"@ + tag@ + "-"@ + zero_padded(decimal(seq as int), 6) + ".png"@,
{
    let mut s: String = String::from_str(dir);
    s.append("/nv12-");
    s.append(tag);
    s.append("-");
    s.append(dec_six(seq).as_str());
    s.append(".png");
    s
}

/// The picture as a PNG file. `host` is the encoder's input, copied row by row.
pub fn dump_nv12_png(host: &[u8], width: u32, height: u32, pitch: u32) -> (r: Result<Vec<u8>, String>)
    requires
        holds_frame(host@.len() as int, width as int, height as int, pitch as int),
        width * height * 3 <= usize::MAX,
    ensures
        match r {
            Ok(v) => width > 0 && height > 0 && exists|rgb: Seq<u8>|
                {
                    &&& v@ == #[trigger] png_file(width, height, false, rgb)
                    &&& rgb.len() == width * height * 3
                    &&& forall|x: int, y: int, c: int|
                        #![trigger rgb[(y * width + x) * 3 + c]]
                        0 <= x < width && 0 <= y < height && 0 <= c < 3 ==> rgb[(y * width + x) * 3
                            + c] == rgb_channel(
                            c,
                            host@[luma_index(pitch as int, x, y)],
                            host@[chroma_index(pitch as int, height as int, x, y)],
                            host@[chroma_index(pitch as int, height as int, x, y) + 1],
                        )
                },
            Err(e) => if width == 0 {
                e@ == "Zero width not allowed"@
            } else {
                height == 0 && e@ == "Zero height not allowed"@
            },
        },
{
    let rgb: Vec<u8> = nv12_to_rgb(host, width as usize, height as usize, pitch as usize);
    let r = encode_rgb(rgb.as_slice(), width, height);
    assert(r matches Ok(v) ==> v@ == png_file(width, height, false, rgb@));
    r
}

/// Of every run of as many pictures as the interval says, one is written; each is
/// counted, and the number of the one that is written is its place in the count.
/// Where no directory is set, none is written or counted.
pub proof fn one_picture_in_an_interval_is_written(
    dir: Option<&str>,
    every: Option<&str>,
    n: u64,
    r: Option<u64>,
)
    requires
        call_ensures(interval, (every,), n),
    ensures
        n > 0,
        every is None ==> n == 30,
        forall|m: &mut DumpCounter|
            m.next < u64::MAX && #[trigger] call_ensures(DumpCounter::gate, (m, dir, every), r)
                ==> {
                &&& dir is None || dir->0@.len() == 0 ==> r is None && final(m).next == m.next
                &&& dir is Some && dir->0@.len() > 0 ==> final(m).next == m.next + 1 && (r is Some
                    <==> m.next as int % n as int == 0) && (r matches Some(k) ==> k == m.next)
            },
{
}

/// The file of a picture lies in the directory that was given and ends in `.png`.
pub proof fn pictures_lie_in_their_directory(dir: &str, tag: &str, seq: u64, r: String)
    requires
        call_ensures(dump_path, (dir, tag, seq), r),
    ensures
        r@.len() >= dir@.len(),
        r@.take(dir@.len() as int) == dir@,
        r@.len() >= 4 && r@.skip(r@.len() - 4) == ".png"@,
{
    reveal_strlit(".png");
    assert(r@.take(dir@.len() as int) =~= dir@);
    assert(r@.skip(r@.len() - 4) =~= ".png"@);
}

/// A frame can be dumped exactly where it has pixels; otherwise the width is
/// complained of before the height.
pub proof fn empty_frames_are_not_dumped(
    host: &[u8],
    width: u32,
    height: u32,
    pitch: u32,
    r: Result<Vec<u8>, String>,
)
    requires
        holds_frame(host@.len() as int, width as int, height as int, pitch as int),
        width * height * 3 <= usize::MAX,
        call_ensures(dump_nv12_png, (host, width, height, pitch), r),
    ensures
        r is Ok <==> width > 0 && height > 0,
        width == 0 ==> r is Err && r->Err_0@ == "Zero width not allowed"@,
        width > 0 && height == 0 ==> r is Err && r->Err_0@ == "Zero height not allowed"@,
{
}

} // verus!
