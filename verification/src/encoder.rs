//! The ffmpeg encoder of a recording: its command line, how it is waited for
//! when a recording stops, and which of the searched binaries is run.
use vstd::prelude::*;
use crate::ffmpeg::Platform;

verus! {

pub const WAYLAND_UNSUPPORTED: &'static str = "Screen recording needs an X11 session; Wayland is not supported yet.";

/// How long the encoder may take to finalise the file before it is killed.
pub const ENCODER_DEADLINE_MS: u64 = 20000;

/// How often the encoder is looked at while it finalises.
pub const ENCODER_POLL_MS: u64 = 50;

// ---------------------------------------------------------------------------
// Decimal text of integers (`i64`'s `Display`)
// ---------------------------------------------------------------------------

pub open spec fn digit_char(d: nat) -> char {
    if d == 0 {
        '0'
    } else if d == 1 {
        '1'
    } else if d == 2 {
        '2'
    } else if d == 3 {
        '3'
    } else if d == 4 {
        '4'
    } else if d == 5 {
        '5'
    } else if d == 6 {
        '6'
    } else if d == 7 {
        '7'
    } else if d == 8 {
        '8'
    } else {
        '9'
    }
}

/// The decimal digits of `n`, most significant first, without leading zeros.
pub open spec fn digits(n: nat) -> Seq<char>
    decreases n,
{
    if n < 10 {
        seq![digit_char(n)]
    } else {
        digits(n / 10).push(digit_char(n % 10))
    }
}

/// The decimal text of `n`, with a `-` before a negative number.
pub open spec fn decimal_of(n: int) -> Seq<char> {
    if n < 0 {
        seq!['-'] + digits((-n) as nat)
    } else {
        digits(n as nat)
    }
}

fn digit(d: u64) -> (c: char)
    requires
        d < 10,
    ensures
        c == digit_char(d as nat),
{
    if d == 0 {
        '0'
    } else if d == 1 {
        '1'
    } else if d == 2 {
        '2'
    } else if d == 3 {
        '3'
    } else if d == 4 {
        '4'
    } else if d == 5 {
        '5'
    } else if d == 6 {
        '6'
    } else if d == 7 {
        '7'
    } else if d == 8 {
        '8'
    } else {
        '9'
    }
}

/// The decimal digits of `n`.
fn digits_of(n: u64) -> (r: Vec<char>)
    ensures
        r@ == digits(n as nat),
{
    let mut m = n;
    let mut acc: Vec<char> = Vec::new();
    while m >= 10
        invariant
            digits(n as nat) == digits(m as nat) + acc@,
        decreases m,
    {
        let d = m % 10;
        acc.insert(0, digit(d));
        proof {
            assert(digits(m as nat) == digits((m / 10) as nat).push(digit_char((m % 10) as nat)));
            assert(digits((m / 10) as nat).push(digit_char((m % 10) as nat)) + acc@.subrange(1, acc@.len() as int)
                =~= digits((m / 10) as nat) + acc@);
        }
        m = m / 10;
    }
    acc.insert(0, digit(m));
    assert(digits(m as nat) =~= seq![digit_char(m as nat)]);
    assert(digits(n as nat) =~= acc@);
    acc
}

/// The decimal text of `n`.
pub fn decimal(n: i64) -> (r: String)
    ensures
        r@ == decimal_of(n as int),
{
    let mut r = String::new();
    let magnitude: u64 = if n < 0 {
        ((-(n + 1)) as u64) + 1
    } else {
        n as u64
    };
    if n < 0 {
        crate::text::push_char(&mut r, '-');
    }
    let ds = digits_of(magnitude);
    let ghost start = r@;
    let mut i: usize = 0;
    while i < ds.len()
        invariant
            i <= ds.len(),
            r@ == start + ds@.subrange(0, i as int),
        decreases ds.len() - i,
    {
        crate::text::push_char(&mut r, ds[i]);
        assert(ds@.subrange(0, i + 1) =~= ds@.subrange(0, i as int).push(ds@[i as int]));
        i = i + 1;
    }
    assert(ds@.subrange(0, ds@.len() as int) =~= ds@);
    r
}

// ---------------------------------------------------------------------------
// The command line
// ---------------------------------------------------------------------------

/// The arguments of ffmpeg that grab the screen rectangle at `(x, y)` of
/// `w` × `h` physical pixels into `out`: gdigrab on Windows, x11grab of
/// `display` elsewhere; H.264 in yuv420p, with the index at the front.
pub open spec fn ffmpeg_args_of(
    platform: Platform,
    display: Seq<char>,
    x: int,
    y: int,
    w: int,
    h: int,
    out: Seq<char>,
) -> Seq<Seq<char>> {
    let size = decimal_of(w) + "x"@ + decimal_of(h);
    let head = seq!["-hide_banner"@, "-loglevel"@, "error"@, "-y"@];
    let grab = if platform == Platform::Windows {
        seq![
            "-f"@,
            "gdigrab"@,
            "-framerate"@,
            "30"@,
            "-offset_x"@,
            decimal_of(x),
            "-offset_y"@,
            decimal_of(y),
            "-video_size"@,
            size,
            "-i"@,
            "desktop"@,
        ]
    } else {
        seq![
            "-f"@,
            "x11grab"@,
            "-framerate"@,
            "30"@,
            "-video_size"@,
            size,
            "-i"@,
            display + "+"@ + decimal_of(x) + ","@ + decimal_of(y),
        ]
    };
    let encode = seq![
        "-c:v"@,
        "libx264"@,
        "-preset"@,
        "veryfast"@,
        "-pix_fmt"@,
        "yuv420p"@,
        "-movflags"@,
        "+faststart"@,
        out,
    ];
    head + grab + encode
}

pub open spec fn views(v: Seq<String>) -> Seq<Seq<char>> {
    v.map_values(|s: String| s@)
}

fn push_text(v: &mut Vec<String>, s: &str)
    ensures
        views(final(v)@) == views(old(v)@).push(s@),
{
    v.push(s.to_owned());
    assert(views(v@) =~= views(old(v)@).push(s@));
}

fn push_string(v: &mut Vec<String>, s: String)
    ensures
        views(final(v)@) == views(old(v)@).push(s@),
{
    let ghost sv = s@;
    v.push(s);
    assert(views(v@) =~= views(old(v)@).push(sv));
}

/// The arguments of the ffmpeg encoder (see `ffmpeg_args_of`).
pub fn ffmpeg_args(platform: Platform, display: &str, x: i64, y: i64, w: i64, h: i64, out: &str) -> (r: Vec<
    String,
>)
    ensures
        views(r@) == ffmpeg_args_of(platform, display@, x as int, y as int, w as int, h as int, out@),
{
    let mut size = decimal(w);
    size.append("x");
    size.append(decimal(h).as_str());
    let mut v: Vec<String> = Vec::new();
    push_text(&mut v, "-hide_banner");
    push_text(&mut v, "-loglevel");
    push_text(&mut v, "error");
    push_text(&mut v, "-y");
    push_text(&mut v, "-f");
    if platform == Platform::Windows {
        push_text(&mut v, "gdigrab");
        push_text(&mut v, "-framerate");
        push_text(&mut v, "30");
        push_text(&mut v, "-offset_x");
        push_string(&mut v, decimal(x));
        push_text(&mut v, "-offset_y");
        push_string(&mut v, decimal(y));
        push_text(&mut v, "-video_size");
        push_string(&mut v, size);
        push_text(&mut v, "-i");
        push_text(&mut v, "desktop");
    } else {
        push_text(&mut v, "x11grab");
        push_text(&mut v, "-framerate");
        push_text(&mut v, "30");
        push_text(&mut v, "-video_size");
        push_string(&mut v, size);
        push_text(&mut v, "-i");
        let mut input = display.to_owned();
        input.append("+");
        input.append(decimal(x).as_str());
        input.append(",");
        input.append(decimal(y).as_str());
        push_string(&mut v, input);
    }
    push_text(&mut v, "-c:v");
    push_text(&mut v, "libx264");
    push_text(&mut v, "-preset");
    push_text(&mut v, "veryfast");
    push_text(&mut v, "-pix_fmt");
    push_text(&mut v, "yuv420p");
    push_text(&mut v, "-movflags");
    push_text(&mut v, "+faststart");
    push_text(&mut v, out);
    assert(views(v@) =~= ffmpeg_args_of(platform, display@, x as int, y as int, w as int, h as int, out@));
    v
}

/// The program that records on macOS.
pub const SCREENCAPTURE: &'static str = "/usr/sbin/screencapture";

/// The arguments of `screencapture` on macOS for the rectangle at `x`, `y`
/// of `w` by `h` global points (rounded): `-v` video, `-x` no shutter
/// sound, `-R` the rectangle, then the output file.
pub open spec fn screencapture_args_of(x: int, y: int, w: int, h: int, out: Seq<char>) -> Seq<Seq<char>> {
    let rect = decimal_of(x) + ","@ + decimal_of(y) + ","@ + decimal_of(w) + ","@ + decimal_of(h);
    seq!["-v"@, "-x"@, "-R"@, rect, out]
}

/// The arguments of `screencapture` (see `screencapture_args_of`).
pub fn screencapture_args(x: i64, y: i64, w: i64, h: i64, out: &str) -> (r: Vec<String>)
    ensures
        views(r@) == screencapture_args_of(x as int, y as int, w as int, h as int, out@),
{
    let mut rect = decimal(x);
    rect.append(",");
    rect.append(decimal(y).as_str());
    rect.append(",");
    rect.append(decimal(w).as_str());
    rect.append(",");
    rect.append(decimal(h).as_str());
    let mut v: Vec<String> = Vec::new();
    assert(views(v@) =~= Seq::empty());
    push_text(&mut v, "-v");
    push_text(&mut v, "-x");
    push_text(&mut v, "-R");
    push_string(&mut v, rect);
    push_text(&mut v, out);
    assert(views(v@) =~= screencapture_args_of(x as int, y as int, w as int, h as int, out@));
    v
}

// ---------------------------------------------------------------------------
// Waiting for the encoder, choosing the binary
// ---------------------------------------------------------------------------

/// What a look at the stopping encoder found.
#[derive(Debug, Clone, Copy, PartialEq, Eq, Structural)]
pub enum EncoderPoll {
    /// It has exited.
    Exited,
    /// It still runs.
    Running,
    /// Its state could not be read.
    Unknown,
}

/// What to do next with the stopping encoder.
#[derive(Debug, Clone, Copy, PartialEq, Eq, Structural)]
pub enum EncoderWait {
    /// It has finished the file.
    Done,
    /// Look again after `ENCODER_POLL_MS`.
    Poll,
    /// It did not exit in time (or cannot be watched): kill it.
    Kill,
}

/// After the stop signal, the encoder is given `ENCODER_DEADLINE_MS` to
/// finalise the file; `elapsed_ms` is the time since the signal.
pub fn encoder_wait(poll: EncoderPoll, elapsed_ms: u64) -> (r: EncoderWait)
    ensures
        r == encoder_wait_of(poll, elapsed_ms),
{
    match poll {
        EncoderPoll::Exited => EncoderWait::Done,
        EncoderPoll::Running => if elapsed_ms < ENCODER_DEADLINE_MS {
            EncoderWait::Poll
        } else {
            EncoderWait::Kill
        },
        EncoderPoll::Unknown => EncoderWait::Kill,
    }
}

/// The first of the searched places where a file was found.
pub fn first_existing(found: &Vec<bool>) -> (r: Option<usize>)
    ensures
        match r {
            Some(i) => i < found.len() && found@[i as int] && forall|j: int| 0 <= j < i ==> !found@[j],
            None => forall|j: int| 0 <= j < found.len() ==> !found@[j],
        },
{
    let mut i: usize = 0;
    while i < found.len()
        invariant
            i <= found.len(),
            forall|j: int| 0 <= j < i ==> !found@[j],
        decreases found.len() - i,
    {
        if found[i] {
            return Some(i);
        }
        i = i + 1;
    }
    None
}

/// An encoder that still runs at the deadline is killed; one that has exited
/// is never killed.
pub proof fn lemma_encoder_wait_is_bounded(poll: EncoderPoll, elapsed_ms: u64)
    ensures
        elapsed_ms >= ENCODER_DEADLINE_MS ==> (poll == EncoderPoll::Exited) == (encoder_wait_of(
            poll,
            elapsed_ms,
        ) == EncoderWait::Done) && encoder_wait_of(poll, elapsed_ms) != EncoderWait::Poll,
        poll == EncoderPoll::Exited ==> encoder_wait_of(poll, elapsed_ms) == EncoderWait::Done,
{
}

pub open spec fn encoder_wait_of(poll: EncoderPoll, elapsed_ms: u64) -> EncoderWait {
    match poll {
        EncoderPoll::Exited => EncoderWait::Done,
        EncoderPoll::Running => if elapsed_ms < ENCODER_DEADLINE_MS {
            EncoderWait::Poll
        } else {
            EncoderWait::Kill
        },
        EncoderPoll::Unknown => EncoderWait::Kill,
    }
}

/// The value of a string of decimal digits, most significant first.
pub open spec fn digits_value(s: Seq<char>) -> int
    decreases s.len(),
{
    if s.len() == 0 {
        0
    } else {
        digits_value(s.drop_last()) * 10 + (s.last() as int - '0' as int)
    }
}

/// The number that a decimal text with an optional `-` stands for.
pub open spec fn decimal_value(s: Seq<char>) -> int {
    if s.len() > 0 && s[0] == '-' {
        -digits_value(s.drop_first())
    } else {
        digits_value(s)
    }
}

/// Whether `s` is a non-empty run of ASCII digits.
pub open spec fn all_digits(s: Seq<char>) -> bool {
    s.len() > 0 && forall|i: int| 0 <= i < s.len() ==> '0' <= #[trigger] s[i] && s[i] <= '9'
}

proof fn lemma_digits(n: nat)
    ensures
        all_digits(digits(n)),
        digits_value(digits(n)) == n,
        n > 0 ==> digits(n)[0] != '0',
    decreases n,
{
    if n >= 10 {
        lemma_digits(n / 10);
        let d = digits(n);
        assert(d.drop_last() =~= digits(n / 10));
        assert(d[0] == digits(n / 10)[0]);
        assert(n == (n / 10) * 10 + n % 10);
        assert(d.last() == digit_char(n % 10));
        assert(digit_char(n % 10) as int - '0' as int == n % 10);
        assert(digits_value(d) == digits_value(d.drop_last()) * 10 + (d.last() as int - '0' as int));
        assert(digits_value(d.drop_last()) == n / 10);
    } else {
        assert(digit_char(n) as int - '0' as int == n);
        assert(digits(n).drop_last() =~= Seq::<char>::empty());
        assert(digits_value(digits(n)) == digits_value(digits(n).drop_last()) * 10 + (digits(n).last() as int
            - '0' as int));
    }
}

/// The decimal text of an integer reads back as that integer: digits after
/// an optional `-`, with no leading zero, whose value is `n`.
pub proof fn lemma_decimal_reads_back(n: int)
    ensures
        decimal_value(decimal_of(n)) == n,
        n < 0 ==> decimal_of(n)[0] == '-' && all_digits(decimal_of(n).drop_first()),
        n >= 0 ==> all_digits(decimal_of(n)),
        n < 0 ==> decimal_of(n)[1] != '0',
        n > 0 ==> decimal_of(n)[0] != '0',
{
    if n < 0 {
        lemma_digits((-n) as nat);
        assert(decimal_of(n).drop_first() =~= digits((-n) as nat));
    } else {
        lemma_digits(n as nat);
    }
}

/// The grab arguments of ffmpeg: on Windows `-offset_x` and `-offset_y` are
/// followed by the area's `x` and `y` and `-video_size` by `w`x`h`; on other
/// platforms `-video_size` is followed by `w`x`h` and `-i` by
/// `display+x,y`. Every number is the decimal text that reads back as it.
pub proof fn lemma_ffmpeg_grabs_the_area(
    platform: Platform,
    display: Seq<char>,
    x: i64,
    y: i64,
    w: i64,
    h: i64,
    out: Seq<char>,
)
    ensures
        ({
            let a = ffmpeg_args_of(platform, display, x as int, y as int, w as int, h as int, out);
            let size = decimal_of(w as int) + "x"@ + decimal_of(h as int);
            &&& decimal_value(decimal_of(x as int)) == x
            &&& decimal_value(decimal_of(y as int)) == y
            &&& decimal_value(decimal_of(w as int)) == w
            &&& decimal_value(decimal_of(h as int)) == h
            &&& a.last() == out
            &&& platform == Platform::Windows ==> {
                &&& a.len() == 25
                &&& a[5] == "gdigrab"@
                &&& a[8] == "-offset_x"@ && a[9] == decimal_of(x as int)
                &&& a[10] == "-offset_y"@ && a[11] == decimal_of(y as int)
                &&& a[12] == "-video_size"@ && a[13] == size
            }
            &&& platform != Platform::Windows ==> {
                &&& a.len() == 21
                &&& a[5] == "x11grab"@
                &&& a[8] == "-video_size"@ && a[9] == size
                &&& a[10] == "-i"@ && a[11] == display + "+"@ + decimal_of(x as int) + ","@ + decimal_of(
                    y as int,
                )
            }
        }),
{
    lemma_decimal_reads_back(x as int);
    lemma_decimal_reads_back(y as int);
    lemma_decimal_reads_back(w as int);
    lemma_decimal_reads_back(h as int);
}

/// The rectangle of `screencapture` is `x,y,w,h`, each the decimal text that
/// reads back as it.
pub proof fn lemma_screencapture_takes_the_rectangle(x: i64, y: i64, w: i64, h: i64, out: Seq<char>)
    ensures
        ({
            let a = screencapture_args_of(x as int, y as int, w as int, h as int, out);
            &&& a.len() == 5
            &&& a[2] == "-R"@
            &&& a[3] == decimal_of(x as int) + ","@ + decimal_of(y as int) + ","@ + decimal_of(w as int) + ","@
                + decimal_of(h as int)
            &&& a[4] == out
        }),
{
}

/// A running encoder is waited for, `ENCODER_POLL_MS` at a time, until 20
/// seconds have passed since the stop signal, and killed from then on; one
/// that exited is done; one that cannot be watched is killed.
pub proof fn lemma_encoder_gets_until_the_deadline(elapsed_ms: u64)
    ensures
        ENCODER_DEADLINE_MS == 20000,
        ENCODER_POLL_MS == 50,
        elapsed_ms < 20000 ==> encoder_wait_of(EncoderPoll::Running, elapsed_ms) == EncoderWait::Poll,
        elapsed_ms >= 20000 ==> encoder_wait_of(EncoderPoll::Running, elapsed_ms) == EncoderWait::Kill,
        encoder_wait_of(EncoderPoll::Exited, elapsed_ms) == EncoderWait::Done,
        encoder_wait_of(EncoderPoll::Unknown, elapsed_ms) == EncoderWait::Kill,
{
}

} // verus!
