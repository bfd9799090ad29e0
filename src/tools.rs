use vstd::prelude::*;
use vstd::string::*;
use crate::capture::FRAME_RATE;
use crate::error::RecorderError;
use crate::naming::{decimal, decimal_text, digit_char, digit_str};

verus! {

/// The digits after the decimal point of `f` thousandths, without trailing
/// zeros (`f` between 1 and 999).
pub open spec fn fraction_text(f: nat) -> Seq<char> {
    if f % 100 == 0 {
        seq![digit_char(f / 100)]
    } else if f % 10 == 0 {
        seq![digit_char(f / 100), digit_char((f / 10) % 10)]
    } else {
        seq![digit_char(f / 100), digit_char((f / 10) % 10), digit_char(f % 10)]
    }
}

/// `ms` milliseconds written as seconds in shortest decimal form:
/// `2000` is `2`, `2500` is `2.5`, `1250` is `1.25`.
pub open spec fn seconds_text(ms: nat) -> Seq<char> {
    if ms % 1000 == 0 {
        decimal_text(ms / 1000)
    } else {
        decimal_text(ms / 1000) + "."@ + fraction_text(ms % 1000)
    }
}

/// The arguments for the encoder: read the numbered frames at `pattern` at
/// the fixed frame rate and write an H.264 video in YUV 4:2:0 to `output`.
pub open spec fn encoder_args(pattern: Seq<char>, output: Seq<char>) -> Seq<Seq<char>> {
    seq![
        "-framerate"@, decimal_text(FRAME_RATE as nat), "-i"@, pattern, "-c:v"@, "libx264"@,
        "-pix_fmt"@, "yuv420p"@, output,
    ]
}

/// The arguments for the trimmer: copy, without re-encoding, the part of
/// `input` that starts `start_ms` in and lasts `end_ms - start_ms`, to `output`.
pub open spec fn trim_args(input: Seq<char>, start_ms: nat, end_ms: nat, output: Seq<char>) -> Seq<Seq<char>> {
    seq![
        "-i"@, input, "-ss"@, seconds_text(start_ms), "-t"@, seconds_text((end_ms - start_ms) as nat),
        "-c"@, "copy"@, output,
    ]
}

/// The texts of a list of strings.
pub open spec fn texts(v: Seq<String>) -> Seq<Seq<char>> {
    v.map_values(|s: String| s@)
}

/// Writes `ms` milliseconds as seconds in shortest decimal form.
pub fn seconds(ms: u64) -> (r: String)
    ensures
        r@ == seconds_text(ms as nat),
{
    let mut s = decimal(ms / 1000);
    let f = ms % 1000;
    if f != 0 {
        s.append(".");
        s.append(digit_str(f / 100));
        if f % 100 != 0 {
            s.append(digit_str((f / 10) % 10));
            if f % 10 != 0 {
                s.append(digit_str(f % 10));
            }
        }
        assert(s@ =~= seconds_text(ms as nat));
    }
    s
}

/// The encoder's arguments for the frames at `pattern` and the video at `output`.
pub fn encoder_arguments(pattern: &str, output: &str) -> (r: Vec<String>)
    ensures
        texts(r@) == encoder_args(pattern@, output@),
{
    let mut v: Vec<String> = Vec::new();
    v.push(String::from_str("-framerate"));
    v.push(decimal(FRAME_RATE));
    v.push(String::from_str("-i"));
    v.push(String::from_str(pattern));
    v.push(String::from_str("-c:v"));
    v.push(String::from_str("libx264"));
    v.push(String::from_str("-pix_fmt"));
    v.push(String::from_str("yuv420p"));
    v.push(String::from_str(output));
    assert(texts(v@) =~= encoder_args(pattern@, output@));
    v
}

/// The trimmer's arguments for cutting `input` from `start_ms` to `end_ms`
/// into `output`. A range whose end is not after its start is refused before
/// any tool runs.
pub fn trim_arguments(input: &str, start_ms: u64, end_ms: u64, output: &str) -> (r: Result<Vec<String>, RecorderError>)
    ensures
        end_ms <= start_ms ==> r == Err::<Vec<String>, RecorderError>(RecorderError::InvalidTimeRange),
        end_ms > start_ms ==> r is Ok && texts(r->Ok_0@) == trim_args(
            input@,
            start_ms as nat,
            end_ms as nat,
            output@,
        ),
{
    if end_ms <= start_ms {
        return Err(RecorderError::InvalidTimeRange);
    }
    let mut v: Vec<String> = Vec::new();
    v.push(String::from_str("-i"));
    v.push(String::from_str(input));
    v.push(String::from_str("-ss"));
    v.push(seconds(start_ms));
    v.push(String::from_str("-t"));
    v.push(seconds(end_ms - start_ms));
    v.push(String::from_str("-c"));
    v.push(String::from_str("copy"));
    v.push(String::from_str(output));
    assert(texts(v@) =~= trim_args(input@, start_ms as nat, end_ms as nat, output@));
    Ok(v)
}

/// What a trim request answers once the trimmer has exited.
pub fn trim_result(tool_succeeded: bool) -> (r: Result<(), RecorderError>)
    ensures
        tool_succeeded ==> r == Ok::<(), RecorderError>(()),
        !tool_succeeded ==> r == Err::<(), RecorderError>(RecorderError::TrimFailed),
{
    if tool_succeeded {
        Ok(())
    } else {
        Err(RecorderError::TrimFailed)
    }
}

} // verus!
