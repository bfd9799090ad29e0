use vstd::prelude::*;
use vstd::string::*;

verus! {

/// The character of a decimal digit.
pub open spec fn digit_char(d: nat) -> char {
    if d == 0 { '0' }
    else if d == 1 { '1' }
    else if d == 2 { '2' }
    else if d == 3 { '3' }
    else if d == 4 { '4' }
    else if d == 5 { '5' }
    else if d == 6 { '6' }
    else if d == 7 { '7' }
    else if d == 8 { '8' }
    else { '9' }
}

/// The decimal text of `n`, without leading zeros.
pub open spec fn decimal_text(n: nat) -> Seq<char>
    decreases n,
{
    if n < 10 {
        seq![digit_char(n)]
    } else {
        decimal_text(n / 10).push(digit_char(n % 10))
    }
}

/// `k` zero characters.
pub open spec fn zeros(k: nat) -> Seq<char> {
    Seq::new(k, |i: int| '0')
}

/// How many zeros fill the decimal text of `n` up to five characters.
pub open spec fn five_digit_fill(n: nat) -> nat {
    if n < 10 { 4 }
    else if n < 100 { 3 }
    else if n < 1000 { 2 }
    else if n < 10000 { 1 }
    else { 0 }
}

/// The decimal text of `n`, zero-filled to at least five characters.
pub open spec fn five_digit_text(n: nat) -> Seq<char> {
    zeros(five_digit_fill(n)) + decimal_text(n)
}

/// The file name of frame `n` in a frame buffer.
pub open spec fn frame_name(n: nat) -> Seq<char> {
    "frame_"@ + five_digit_text(n) + ".png"@
}

/// The file name of a recording made at the time `stamp`.
pub open spec fn recording_name(stamp: Seq<char>) -> Seq<char> {
    "recording_"@ + stamp + ".mp4"@
}

/// The file name of a trimmed video made at the time `stamp`.
pub open spec fn trimmed_name(stamp: Seq<char>) -> Seq<char> {
    stamp + "_trimmed.mp4"@
}

pub(crate) fn digit_str(d: u64) -> (r: &'static str)
    requires
        d < 10,
    ensures
        r@ == seq![digit_char(d as nat)],
{
    proof {
        reveal_strlit("0");
        reveal_strlit("1");
        reveal_strlit("2");
        reveal_strlit("3");
        reveal_strlit("4");
        reveal_strlit("5");
        reveal_strlit("6");
        reveal_strlit("7");
        reveal_strlit("8");
        reveal_strlit("9");
    }
    if d == 0 { "0" }
    else if d == 1 { "1" }
    else if d == 2 { "2" }
    else if d == 3 { "3" }
    else if d == 4 { "4" }
    else if d == 5 { "5" }
    else if d == 6 { "6" }
    else if d == 7 { "7" }
    else if d == 8 { "8" }
    else { "9" }
}

/// Writes `n` in decimal.
pub fn decimal(n: u64) -> (r: String)
    ensures
        r@ == decimal_text(n as nat),
    decreases n,
{
    if n < 10 {
        String::from_str(digit_str(n))
    } else {
        let mut s = decimal(n / 10);
        s.append(digit_str(n % 10));
        s
    }
}

/// Writes `n` in decimal, zero-filled to at least five characters.
pub fn five_digits(n: u64) -> (r: String)
    ensures
        r@ == five_digit_text(n as nat),
{
    proof {
        reveal_strlit("0000");
        reveal_strlit("000");
        reveal_strlit("00");
        reveal_strlit("0");
        reveal_strlit("");
    }
    let fill: &str = if n < 10 {
        "0000"
    } else if n < 100 {
        "000"
    } else if n < 1000 {
        "00"
    } else if n < 10000 {
        "0"
    } else {
        ""
    };
    assert(fill@ =~= zeros(five_digit_fill(n as nat)));
    let d = decimal(n);
    String::from_str(fill).concat(d.as_str())
}

/// The file name under which frame `n` is stored.
pub fn frame_file_name(n: u64) -> (r: String)
    ensures
        r@ == frame_name(n as nat),
{
    proof {
        reveal_strlit("frame_");
        reveal_strlit(".png");
    }
    let digits = five_digits(n);
    String::from_str("frame_").concat(digits.as_str()).concat(".png")
}

/// The frame-name pattern that tells the encoder how frames are numbered.
pub fn frame_pattern() -> (r: String)
    ensures
        r@ == "frame_%05d.png"@,
{
    String::from_str("frame_%05d.png")
}

/// The file name of a recording made at the time `stamp`.
pub fn recording_file_name(stamp: &str) -> (r: String)
    ensures
        r@ == recording_name(stamp@),
{
    String::from_str("recording_").concat(stamp).concat(".mp4")
}

/// The file name of a trimmed video made at the time `stamp`.
pub fn trimmed_file_name(stamp: &str) -> (r: String)
    ensures
        r@ == trimmed_name(stamp@),
{
    String::from_str(stamp).concat("_trimmed.mp4")
}

/// The shape of a `%Y%m%d_%H%M%S` timestamp: the year in at least four
/// digits (a year after 9999 carries a leading `+`), then two digits each of
/// month and day, an underscore, and two digits each of hour, minute and
/// second.
pub open spec fn timestamp_shape(s: Seq<char>) -> bool {
    &&& s.len() >= 15
    &&& s[s.len() - 7] == '_'
    &&& forall|i: int|
        0 <= i < s.len() && i != s.len() - 7 ==> ('0' <= #[trigger] s[i] <= '9' || (i == 0
            && s[i] == '+'))
}

/// Relies on chrono's `Local::now` and its `format` with
/// `%Y%m%d_%H%M%S`: the local time now, as year, month, day, an underscore,
/// hour, minute and second. The value depends on the clock; its shape is
/// what chrono's formatting writes for each field (`write_year`, which pads
/// to four digits and signs years past 9999, and `write_two`, which pads to
/// two). `Local::now` lies after 1970, so no year is negative.
#[verifier::external_body]
fn local_timestamp() -> (r: String)
    ensures
        timestamp_shape(r@),
{
    chrono::Local::now().format("%Y%m%d_%H%M%S").to_string()
}

/// A recording file name stamped with the local time now.
pub fn fresh_recording_name() -> (r: String)
    ensures
        exists|stamp: Seq<char>| r@ == recording_name(stamp) && timestamp_shape(stamp),
{
    let stamp = local_timestamp();
    recording_file_name(stamp.as_str())
}

/// A trimmed-video file name stamped with the local time now.
pub fn fresh_trimmed_name() -> (r: String)
    ensures
        exists|stamp: Seq<char>| r@ == trimmed_name(stamp) && timestamp_shape(stamp),
{
    let stamp = local_timestamp();
    trimmed_file_name(stamp.as_str())
}

} // verus!
