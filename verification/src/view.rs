use vstd::prelude::*;
use vstd::string::StringExecFns;

use crate::controller::App;
use crate::engine::TimerHandle;

verus! {

// ---------------------------------------------------------------------------
// The render-facing model: what one frame shows, derived from the session
// state and never fed back into it.
// ---------------------------------------------------------------------------

/// One table row: a segment's name and the text shown in its time column.
pub struct ViewRow {
    pub name: String,
    pub time: String,
}

/// How the timer line is styled: bold while a split remains to be taken,
/// blinking otherwise.
pub enum StyleHint {
    Bold,
    Blinking,
}

/// The table drawn while a run is loaded.
pub struct TableView {
    pub rows: Vec<ViewRow>,
    pub highlighted_index: Option<usize>,
    pub timer_text: String,
    pub style: StyleHint,
}

/// What one frame shows: an instructional placeholder while no run is
/// loaded, else the segment table with the live timer line.
pub enum ViewModel {
    Placeholder,
    Table(TableView),
}

/// The decimal digit characters.
pub open spec fn digit_char(d: int) -> char {
    if d == 0 {
        '0'
    } else if d == 1 {
        '1'
    } else if d == 2 {
        '2'
    } else if d == 3 {
        '3'
    } else if d == 4 {
        '4'
    } else if d == 5 {
        '5'
    } else if d == 6 {
        '6'
    } else if d == 7 {
        '7'
    } else if d == 8 {
        '8'
    } else {
        '9'
    }
}

/// The decimal digits of `n`, most significant first.
pub open spec fn dec_digits(n: int) -> Seq<char>
    decreases n,
{
    if n < 10 {
        seq![digit_char(n)]
    } else {
        dec_digits(n / 10).push(digit_char(n % 10))
    }
}

/// `n` in decimal, left-padded with zeros to at least `w` characters.
pub open spec fn dec_padded(n: int, w: int) -> Seq<char> {
    if dec_digits(n).len() >= w {
        dec_digits(n)
    } else {
        Seq::new((w - dec_digits(n).len()) as nat, |i: int| '0') + dec_digits(n)
    }
}

/// The timer line for an attempt duration of `ms` milliseconds: hours,
/// minutes and seconds zero-padded to two digits, milliseconds to three.
pub open spec fn timer_text_spec(ms: int) -> Seq<char> {
    dec_padded(ms / 3600000, 2) + seq![':'] + dec_padded((ms / 60000) % 60, 2) + seq![':']
        + dec_padded((ms / 1000) % 60, 2) + seq!['.'] + dec_padded(ms % 1000, 3)
}

/// A segment's time column: the recorded text, or the fallback while the
/// segment has no recorded split time.
pub open spec fn row_time_text(t: Option<Seq<char>>) -> Seq<char> {
    match t {
        Some(s) => s,
        None => seq!['0', ':', '0', '0'],
    }
}

/// The row to highlight: the segment the attempt is on, absent before the
/// attempt starts and once the run is finished.
pub open spec fn highlight_of(t: TimerHandle) -> Option<int> {
    match t.position() {
        Some(i) => if 0 <= i < t.seg_count() {
            Some(i)
        } else {
            None
        },
        None => None,
    }
}

/// What the table of one frame must show for the timer it was built from.
pub open spec fn table_matches(tv: TableView, t: TimerHandle) -> bool {
    &&& tv.rows@.len() == t.seg_count()
    &&& (forall|j: int|
        0 <= j < t.seg_count() ==> (#[trigger] tv.rows@[j]).name@ == t.segments()[j].0)
    &&& (forall|j: int|
        0 <= j < t.seg_count() ==> (#[trigger] tv.rows@[j]).time@ == row_time_text(
            t.segments()[j].1,
        ))
    &&& (tv.highlighted_index is Some <==> highlight_of(t) is Some)
    &&& (tv.highlighted_index matches Some(i) ==> highlight_of(t) == Some(i as int))
    &&& (tv.style is Bold <==> highlight_of(t) is Some)
}

proof fn lemma_dec_digits_len(n: int)
    ensures
        dec_digits(n).len() >= 1,
        n >= 10 ==> dec_digits(n).len() >= 2,
        n >= 100 ==> dec_digits(n).len() >= 3,
        n < 10 ==> dec_digits(n).len() == 1,
        10 <= n < 100 ==> dec_digits(n).len() == 2,
    decreases n,
{
    if n >= 10 {
        lemma_dec_digits_len(n / 10);
    }
}

fn digit_str(d: u64) -> (r: &'static str)
    requires
        d < 10,
    ensures
        r@ =~= seq![digit_char(d as int)],
{
    proof {
        reveal_strlit("0");
        reveal_strlit("1");
        reveal_strlit("2");
        reveal_strlit("3");
        reveal_strlit("4");
        reveal_strlit("5");
        reveal_strlit("6");
        reveal_strlit("7");
        reveal_strlit("8");
        reveal_strlit("9");
    }
    match d {
        0 => "0",
        1 => "1",
        2 => "2",
        3 => "3",
        4 => "4",
        5 => "5",
        6 => "6",
        7 => "7",
        8 => "8",
        _ => "9",
    }
}

fn push_digits(s: &mut String, n: u64)
    ensures
        final(s)@ == old(s)@ + dec_digits(n as int),
    decreases n,
{
    if n < 10 {
        s.append(digit_str(n));
        proof {
            assert(final(s)@ =~= old(s)@ + dec_digits(n as int));
        }
    } else {
        push_digits(s, n / 10);
        s.append(digit_str(n % 10));
        proof {
            assert(final(s)@ =~= old(s)@ + dec_digits(n as int));
        }
    }
}

/// `n` in decimal, zero-padded to at least two characters.
fn padded2(n: u64) -> (s: String)
    ensures
        s@ == dec_padded(n as int, 2),
{
    let mut s = String::new();
    if n < 10 {
        s.append("0");
    }
    push_digits(&mut s, n);
    proof {
        reveal_strlit("0");
        lemma_dec_digits_len(n as int);
        assert(s@ =~= dec_padded(n as int, 2));
    }
    s
}

/// `n` in decimal, zero-padded to at least three characters.
fn padded3(n: u64) -> (s: String)
    ensures
        s@ == dec_padded(n as int, 3),
{
    let mut s = String::new();
    if n < 10 {
        s.append("00");
    } else if n < 100 {
        s.append("0");
    }
    push_digits(&mut s, n);
    proof {
        reveal_strlit("0");
        reveal_strlit("00");
        lemma_dec_digits_len(n as int);
        assert(s@ =~= dec_padded(n as int, 3));
    }
    s
}

/// The timer line for an attempt duration of `ms` milliseconds.
pub fn format_timer_text(ms: u64) -> (s: String)
    ensures
        s@ == timer_text_spec(ms as int),
{
    let hours = ms / 3600000;
    let minutes = (ms / 60000) % 60;
    let seconds = (ms / 1000) % 60;
    let millis = ms % 1000;
    let mut s = padded2(hours);
    s.append(":");
    let part_minutes = padded2(minutes);
    s.append(part_minutes.as_str());
    s.append(":");
    let part_seconds = padded2(seconds);
    s.append(part_seconds.as_str());
    s.append(".");
    let part_millis = padded3(millis);
    s.append(part_millis.as_str());
    proof {
        reveal_strlit(":");
        reveal_strlit(".");
        assert(s@ =~= timer_text_spec(ms as int));
    }
    s
}

/// Builds the table for one frame from a loaded timer and the attempt
/// duration in milliseconds.
pub fn build_table(timer: &TimerHandle, attempt_ms: u64) -> (tv: TableView)
    ensures
        table_matches(tv, *timer),
        tv.timer_text@ == timer_text_spec(attempt_ms as int),
{
    let n = timer.segment_count();
    let mut rows: Vec<ViewRow> = Vec::new();
    let mut k: usize = 0;
    while k < n
        invariant
            n as int == timer.seg_count(),
            k <= n,
            rows@.len() == k as int,
            forall|j: int|
                0 <= j < k as int ==> (#[trigger] rows@[j]).name@ == timer.segments()[j].0,
            forall|j: int|
                0 <= j < k as int ==> (#[trigger] rows@[j]).time@ == row_time_text(
                    timer.segments()[j].1,
                ),
        decreases n - k,
    {
        let name = timer.segment_name(k);
        let time = match timer.segment_time_text(k) {
            Some(t) => t,
            None => {
                let t = String::from_str("0:00");
                proof {
                    reveal_strlit("0:00");
                    assert(t@ =~= seq!['0', ':', '0', '0']);
                }
                t
            },
        };
        rows.push(ViewRow { name, time });
        k = k + 1;
    }
    let highlighted_index = match timer.current_split_index() {
        Some(i) => if i < n {
            Some(i)
        } else {
            None
        },
        None => None,
    };
    let style = match highlighted_index {
        Some(_) => StyleHint::Bold,
        None => StyleHint::Blinking,
    };
    let timer_text = format_timer_text(attempt_ms);
    TableView { rows, highlighted_index, timer_text, style }
}

impl App {
    /// Derives what this frame shows. The timer line reflects the attempt
    /// duration the engine reported at this instant, clamped below at zero.
    pub fn view_model(&self) -> (vm: ViewModel)
        ensures
            vm is Placeholder <==> self.timer is None,
            self.timer matches Some(t) ==> (vm matches ViewModel::Table(tv) && table_matches(
                tv,
                t,
            )),
    {
        match &self.timer {
            None => ViewModel::Placeholder,
            Some(t) => {
                let d = t.attempt_duration_ms();
                let ms: u64 = if d < 0 {
                    0
                } else {
                    d as u64
                };
                ViewModel::Table(build_table(t, ms))
            },
        }
    }
}

} // verus!

