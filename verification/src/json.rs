//! Rendering of the persisted capture artifact. The artifact is one JSON
//! text: an object holding the capture's name and its frame array, each
//! frame an object with a position map keyed by 1-based servo id and a
//! playback delay. The whole format is pinned down by spec functions and
//! the renderer is proved to produce exactly that text.

use vstd::prelude::*;
use vstd::string::{StringExecFns, StrSliceExecFns};
use crate::capture::{CaptureArtifact, Frame, FrameView};

verus! {

/// Decimal digit for one value in [0, 9].
pub open spec fn dec_digit(d: int) -> char {
    if d == 0 {
        '0'
    } else if d == 1 {
        '1'
    } else if d == 2 {
        '2'
    } else if d == 3 {
        '3'
    } else if d == 4 {
        '4'
    } else if d == 5 {
        '5'
    } else if d == 6 {
        '6'
    } else if d == 7 {
        '7'
    } else if d == 8 {
        '8'
    } else {
        '9'
    }
}

/// Decimal rendering of a non-negative number, most significant digit
/// first, no leading zeros except for zero itself.
pub open spec fn dec_rep(n: int) -> Seq<char>
    recommends
        n >= 0,
    decreases n,
{
    if n <= 9 {
        seq![dec_digit(n)]
    } else {
        dec_rep(n / 10).push(dec_digit(n % 10))
    }
}

/// Lower-case hexadecimal digit for one value in [0, 15].
pub open spec fn hex_digit(d: int) -> char {
    if d < 10 {
        dec_digit(d)
    } else if d == 10 {
        'a'
    } else if d == 11 {
        'b'
    } else if d == 12 {
        'c'
    } else if d == 13 {
        'd'
    } else if d == 14 {
        'e'
    } else {
        'f'
    }
}

/// JSON escape of one character: quote and backslash are escaped, the
/// named control escapes are used where JSON has them, any other control
/// character becomes a `\u00..` escape, everything else stands as itself.
pub open spec fn escaped_char(c: char) -> Seq<char> {
    if c == '"' {
        "\\\""@
    } else if c == '\\' {
        "\\\\"@
    } else if c == '\u{8}' {
        "\\b"@
    } else if c == '\t' {
        "\\t"@
    } else if c == '\n' {
        "\\n"@
    } else if c == '\u{c}' {
        "\\f"@
    } else if c == '\r' {
        "\\r"@
    } else if (c as u32) < 32 {
        "\\u00"@ + seq![hex_digit((c as u32) as int / 16), hex_digit((c as u32) as int % 16)]
    } else {
        seq![c]
    }
}

/// JSON escape of a whole string body.
pub open spec fn escaped(s: Seq<char>) -> Seq<char>
    decreases s.len(),
{
    if s.len() == 0 {
        Seq::empty()
    } else {
        escaped(s.drop_last()) + escaped_char(s.last())
    }
}

/// One position-map entry: the 1-based servo id as a quoted key, then the
/// raw position.
pub open spec fn pos_entry(index1: int, pos: u16) -> Seq<char> {
    "\""@ + dec_rep(index1) + "\":"@ + dec_rep(pos as int)
}

/// The first `k` position-map entries, comma-separated.
pub open spec fn pos_entries(p: Seq<u16>, k: int) -> Seq<char>
    recommends
        k <= p.len(),
    decreases k,
{
    if k <= 0 {
        Seq::empty()
    } else if k == 1 {
        pos_entry(1, p[0])
    } else {
        pos_entries(p, k - 1) + ","@ + pos_entry(k, p[k - 1])
    }
}

/// One frame as JSON: its position map and its playback delay.
pub open spec fn frame_json(f: FrameView) -> Seq<char> {
    "{\"pos\":{"@ + pos_entries(f.positions, f.positions.len() as int) + "},\"delay\":"@ + dec_rep(
        f.delay_ms as int,
    ) + "}"@
}

/// The first `k` frames, comma-separated.
pub open spec fn frames_json(fs: Seq<FrameView>, k: int) -> Seq<char>
    recommends
        k <= fs.len(),
    decreases k,
{
    if k <= 0 {
        Seq::empty()
    } else if k == 1 {
        frame_json(fs[0])
    } else {
        frames_json(fs, k - 1) + ","@ + frame_json(fs[k - 1])
    }
}

/// Mathematical image of a frame sequence.
pub open spec fn frames_view(v: Seq<Frame>) -> Seq<FrameView> {
    v.map(|i: int, f: Frame| f@)
}

/// The whole persisted artifact: name, then the frame array.
pub open spec fn artifact_json(name: Seq<char>, frames: Seq<FrameView>) -> Seq<char> {
    "{\"name\":\""@ + escaped(name) + "\",\"cap\":["@ + frames_json(frames, frames.len() as int)
        + "]}"@
}

/// Output file name of a capture: the capture's name and a timestamp.
pub open spec fn capture_filename_spec(name: Seq<char>, stamp: Seq<char>) -> Seq<char> {
    "cap-"@ + name + "-"@ + stamp + ".json"@
}

/// Relies on `String::push`: appends the given character.
#[verifier::external_body]
fn push_char(out: &mut String, c: char)
    ensures
        final(out)@ == old(out)@ + seq![c],
{
    out.push(c);
}

/// Decimal digit character for one value in [0, 9].
fn digit_char(d: u32) -> (c: char)
    requires
        d < 10,
    ensures
        c == dec_digit(d as int),
{
    if d == 0 {
        '0'
    } else if d == 1 {
        '1'
    } else if d == 2 {
        '2'
    } else if d == 3 {
        '3'
    } else if d == 4 {
        '4'
    } else if d == 5 {
        '5'
    } else if d == 6 {
        '6'
    } else if d == 7 {
        '7'
    } else if d == 8 {
        '8'
    } else {
        '9'
    }
}

/// Lower-case hexadecimal digit character for one value in [0, 15].
fn hex_char(d: u32) -> (c: char)
    requires
        d < 16,
    ensures
        c == hex_digit(d as int),
{
    if d < 10 {
        digit_char(d)
    } else if d == 10 {
        'a'
    } else if d == 11 {
        'b'
    } else if d == 12 {
        'c'
    } else if d == 13 {
        'd'
    } else if d == 14 {
        'e'
    } else {
        'f'
    }
}

/// Append the decimal rendering of `n`.
fn append_dec(out: &mut String, n: u32)
    ensures
        final(out)@ == old(out)@ + dec_rep(n as int),
    decreases n,
{
    if n >= 10 {
        append_dec(out, n / 10);
    }
    push_char(out, digit_char(n % 10));
    proof {
        assert(out@ =~= old(out)@ + dec_rep(n as int));
    }
}

/// Append the JSON escape of one character.
fn append_escaped_char(out: &mut String, c: char)
    ensures
        final(out)@ == old(out)@ + escaped_char(c),
{
    if c == '"' {
        out.append("\\\"");
    } else if c == '\\' {
        out.append("\\\\");
    } else if c == '\u{8}' {
        out.append("\\b");
    } else if c == '\t' {
        out.append("\\t");
    } else if c == '\n' {
        out.append("\\n");
    } else if c == '\u{c}' {
        out.append("\\f");
    } else if c == '\r' {
        out.append("\\r");
    } else {
        let code: u32 = c as u32;
        if code < 32 {
            out.append("\\u00");
            push_char(out, hex_char(code / 16));
            push_char(out, hex_char(code % 16));
            proof {
                assert(out@ =~= old(out)@ + escaped_char(c));
            }
        } else {
            push_char(out, c);
        }
    }
}

/// Appending character escapes one at a time walks the string's prefixes.
proof fn lemma_escaped_snoc(s: Seq<char>, k: int)
    requires
        0 <= k < s.len(),
    ensures
        escaped(s.subrange(0, k + 1)) == escaped(s.subrange(0, k)) + escaped_char(s[k]),
{
    let t = s.subrange(0, k + 1);
    assert(t.drop_last() =~= s.subrange(0, k));
    assert(t.last() == s[k]);
}

/// Append the JSON escape of a whole string body.
fn append_escaped(out: &mut String, s: &str)
    ensures
        final(out)@ == old(out)@ + escaped(s@),
{
    let n: usize = s.unicode_len();
    proof {
        assert(out@ =~= old(out)@ + escaped(s@.subrange(0, 0)));
    }
    for k in 0..n
        invariant
            n == s@.len(),
            out@ == old(out)@ + escaped(s@.subrange(0, k as int)),
    {
        let c: char = s.get_char(k);
        append_escaped_char(out, c);
        proof {
            lemma_escaped_snoc(s@, k as int);
            assert(out@ =~= old(out)@ + escaped(s@.subrange(0, k as int + 1)));
        }
    }
    proof {
        assert(s@.subrange(0, n as int) =~= s@);
    }
}

/// Append one position-map entry.
fn append_pos_entry(out: &mut String, index1: u32, pos: u16)
    ensures
        final(out)@ == old(out)@ + pos_entry(index1 as int, pos),
{
    out.append("\"");
    append_dec(out, index1);
    out.append("\":");
    append_dec(out, pos as u32);
    proof {
        assert(out@ =~= old(out)@ + pos_entry(index1 as int, pos));
    }
}

/// Append the whole position map's entries, keyed by 1-based servo id.
fn append_pos_entries(out: &mut String, p: &Vec<u16>)
    requires
        p@.len() <= 0xffff_ffff,
    ensures
        final(out)@ == old(out)@ + pos_entries(p@, p@.len() as int),
{
    let n: usize = p.len();
    proof {
        assert(out@ =~= old(out)@ + pos_entries(p@, 0));
    }
    for k in 0..n
        invariant
            n == p@.len(),
            n <= 0xffff_ffff,
            out@ == old(out)@ + pos_entries(p@, k as int),
    {
        if k > 0 {
            out.append(",");
        }
        append_pos_entry(out, (k + 1) as u32, p[k]);
        proof {
            assert(out@ =~= old(out)@ + pos_entries(p@, k as int + 1));
        }
    }
}

/// Append one frame as JSON.
fn append_frame(out: &mut String, f: &Frame)
    requires
        f.positions@.len() <= 0xffff_ffff,
    ensures
        final(out)@ == old(out)@ + frame_json(f@),
{
    out.append("{\"pos\":{");
    append_pos_entries(out, &f.positions);
    out.append("},\"delay\":");
    append_dec(out, f.delay_ms);
    out.append("}");
    proof {
        assert(out@ =~= old(out)@ + frame_json(f@));
    }
}

/// Append the whole frame array's elements, comma-separated.
fn append_frames(out: &mut String, frames: &Vec<Frame>)
    requires
        forall|i: int| 0 <= i < frames@.len() ==> frames@[i].positions@.len() <= 0xffff_ffff,
    ensures
        final(out)@ == old(out)@ + frames_json(frames_view(frames@), frames@.len() as int),
{
    let n: usize = frames.len();
    proof {
        assert(out@ =~= old(out)@ + frames_json(frames_view(frames@), 0));
    }
    for k in 0..n
        invariant
            n == frames@.len(),
            forall|i: int| 0 <= i < n ==> frames@[i].positions@.len() <= 0xffff_ffff,
            out@ == old(out)@ + frames_json(frames_view(frames@), k as int),
    {
        if k > 0 {
            out.append(",");
        }
        append_frame(out, &frames[k]);
        proof {
            assert(frames_view(frames@)[k as int] == frames@[k as int]@);
            assert(out@ =~= old(out)@ + frames_json(frames_view(frames@), k as int + 1));
        }
    }
}

/// Render a completed capture as the persisted JSON text.
pub fn render_artifact(artifact: &CaptureArtifact) -> (s: String)
    requires
        forall|i: int|
            0 <= i < artifact.frames@.len() ==> artifact.frames@[i].positions@.len()
                <= 0xffff_ffff,
    ensures
        s@ == artifact_json(artifact.name@, frames_view(artifact.frames@)),
{
    let mut out: String = String::new();
    out.append("{\"name\":\"");
    append_escaped(&mut out, artifact.name.as_str());
    out.append("\",\"cap\":[");
    append_frames(&mut out, &artifact.frames);
    out.append("]}");
    proof {
        assert(out@ =~= artifact_json(artifact.name@, frames_view(artifact.frames@)));
    }
    out
}

/// Build a capture's output file name from its name and a timestamp.
pub fn capture_filename(name: &str, stamp: &str) -> (s: String)
    ensures
        s@ == capture_filename_spec(name@, stamp@),
{
    let mut out: String = String::new();
    out.append("cap-");
    out.append(name);
    out.append("-");
    out.append(stamp);
    out.append(".json");
    proof {
        assert(out@ =~= capture_filename_spec(name@, stamp@));
    }
    out
}

} // verus!
