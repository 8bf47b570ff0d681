use vstd::prelude::*;
use crate::service::{LivePosition, Role, ServiceSnapshot, StopDetail};

verus! {

/// The colour that marks a line late or early.
#[derive(Clone, Copy, PartialEq, Eq, Structural, Debug)]
pub enum LineColor {
    Plain,
    Red,
    Green,
}

#[derive(Clone, Copy, PartialEq, Eq, Structural, Debug)]
pub struct SpanStyle {
    pub bold: bool,
    pub color: LineColor,
}

/// A piece of text of a status line with its style.
pub struct StyledSpan {
    pub content: String,
    pub style: SpanStyle,
}

impl View for StyledSpan {
    type V = (Seq<char>, SpanStyle);

    open spec fn view(&self) -> (Seq<char>, SpanStyle) {
        (self.content@, self.style)
    }
}

/// Columns kept at the end of each line for the two time columns.
pub const RESERVED_TRAILING_WIDTH: usize = 12;

pub open spec fn plain_style() -> SpanStyle {
    SpanStyle { bold: false, color: LineColor::Plain }
}

pub open spec fn lateness_or_zero(l: Option<i32>) -> int {
    match l {
        Some(v) => v as int,
        None => 0,
    }
}

/// Bold when any time is confirmed; red when the confirmed departure is late,
/// green when it is early.
pub open spec fn spec_line_style(stop: StopDetail) -> SpanStyle {
    let late = lateness_or_zero(stop.departure_lateness);
    SpanStyle {
        bold: stop.arrival_actual || stop.departure_actual,
        color: if stop.departure_actual && late > 0 {
            LineColor::Red
        } else if stop.departure_actual && late < 0 {
            LineColor::Green
        } else {
            LineColor::Plain
        },
    }
}

pub open spec fn digit_char(d: nat) -> char {
    if d == 0 { '0' }
    else if d == 1 { '1' }
    else if d == 2 { '2' }
    else if d == 3 { '3' }
    else if d == 4 { '4' }
    else if d == 5 { '5' }
    else if d == 6 { '6' }
    else if d == 7 { '7' }
    else if d == 8 { '8' }
    else { '9' }
}

/// Decimal digits of `n`, most significant first, without leading zeros.
pub open spec fn nat_digits(n: nat) -> Seq<char>
    decreases n,
{
    if n < 10 {
        seq![digit_char(n)]
    } else {
        nat_digits(n / 10).push(digit_char(n % 10))
    }
}

/// `n` written in decimal, with a leading `-` when negative.
pub open spec fn decimal(n: int) -> Seq<char> {
    if n < 0 {
        seq!['-'] + nat_digits((-n) as nat)
    } else {
        nat_digits(n as nat)
    }
}

/// The arrival lateness shown between the brackets.
pub open spec fn arrival_field(stop: StopDetail) -> Seq<char> {
    match stop.role {
        Role::Destination => decimal(lateness_or_zero(stop.arrival_lateness)),
        Role::Call => decimal(lateness_or_zero(stop.arrival_lateness)).push('/'),
        Role::Origin => Seq::empty(),
    }
}

/// The departure lateness shown between the brackets.
pub open spec fn departure_field(stop: StopDetail) -> Seq<char> {
    match stop.role {
        Role::Origin | Role::Call => decimal(lateness_or_zero(stop.departure_lateness)),
        Role::Destination => Seq::empty(),
    }
}

/// The bracketed platform, marked `!` when it was changed; nothing when no
/// platform is known.
pub open spec fn platform_text(stop: StopDetail) -> Option<Seq<char>> {
    match stop.platform {
        Some(p) => if p@.len() > 0 {
            let mark = if stop.platform_changed { seq!['!'] } else { Seq::empty() };
            Some(seq![' ', '['] + p@ + mark + seq![']', ' '])
        } else {
            None
        },
        None => None,
    }
}

pub open spec fn time_text(t: Option<String>) -> Seq<char> {
    match t {
        Some(s) => s@,
        None => Seq::empty(),
    }
}

pub open spec fn blank_time() -> Seq<char> {
    seq![' ', ' ', ' ', ' ']
}

/// The spans of a line before its padding: description, platform, lateness
/// and the marker of a train standing at the platform.
pub open spec fn spec_head_spans(stop: StopDetail) -> Seq<(Seq<char>, SpanStyle)> {
    let st = spec_line_style(stop);
    let lead = seq![(seq![' '], plain_style()), (stop.description@, st)];
    let with_platform = match platform_text(stop) {
        Some(p) => lead.push((p, st)),
        None => lead,
    };
    let fields = with_platform.push((seq!['('], st)).push((arrival_field(stop), st)).push(
        (departure_field(stop), st),
    ).push((seq![')'], st));
    if stop.position == Some(LivePosition::AtPlatform) {
        fields.push((seq![' ', '<', '=', '=', '='], st))
    } else {
        fields
    }
}

/// The time columns that end a line.
pub open spec fn spec_tail_spans(stop: StopDetail) -> Seq<(Seq<char>, SpanStyle)> {
    let st = spec_line_style(stop);
    let arrival = match stop.role {
        Role::Origin => blank_time(),
        _ => time_text(stop.realtime_arrival),
    };
    let departure = match stop.role {
        Role::Destination => blank_time(),
        _ => time_text(stop.realtime_departure),
    };
    seq![(arrival, st), (seq![' '], plain_style()), (departure, st)]
}

/// Terminal columns taken by a text.
pub uninterp spec fn text_width(s: Seq<char>) -> nat;

/// Columns taken by a sequence of spans.
pub open spec fn spans_width(s: Seq<(Seq<char>, SpanStyle)>) -> nat
    decreases s.len(),
{
    if s.len() == 0 {
        0
    } else {
        spans_width(s.drop_last()) + text_width(s.last().0)
    }
}

/// Spaces that fill a line of `available` columns of which `used` are taken,
/// leaving the reserved trailing columns; never below zero.
pub open spec fn spec_padding(available: int, used: int) -> int {
    if available - used - RESERVED_TRAILING_WIDTH > 0 {
        available - used - RESERVED_TRAILING_WIDTH
    } else {
        0
    }
}

pub open spec fn padding_spans(n: nat) -> Seq<(Seq<char>, SpanStyle)> {
    Seq::new(n, |k: int| (seq![' '], plain_style()))
}

/// The whole status line of a stop in a panel `available` columns wide.
pub open spec fn spec_render_line(stop: StopDetail, available: int) -> Seq<(Seq<char>, SpanStyle)> {
    let head = spec_head_spans(stop);
    head + padding_spans(spec_padding(available, spans_width(head) as int) as nat)
        + spec_tail_spans(stop)
}

pub open spec fn spans_view(v: Seq<StyledSpan>) -> Seq<(Seq<char>, SpanStyle)> {
    v.map_values(|s: StyledSpan| s@)
}

/// Relies on tui's `Span::width`: the columns a text takes on a terminal,
/// which depend on its characters alone.
#[verifier::external_body]
fn display_width(s: &str) -> (r: usize)
    ensures
        r as nat == text_width(s@),
{
    tui::text::Span::raw(s).width()
}

fn push_span(v: &mut Vec<StyledSpan>, content: String, style: SpanStyle)
    ensures
        spans_view(final(v)@) == spans_view(old(v)@).push((content@, style)),
{
    let ghost c = content@;
    v.push(StyledSpan { content, style });
    assert(spans_view(final(v)@) =~= spans_view(old(v)@).push((c, style)));
}

fn literal(s: &str) -> (r: String)
    ensures
        r@ == s@,
{
    String::from_str(s)
}

fn digit_text(d: u32) -> (r: &'static str)
    requires
        d < 10,
    ensures
        r@ == seq![digit_char(d as nat)],
{
    proof {
        reveal_strlit("0");
        reveal_strlit("1");
        reveal_strlit("2");
        reveal_strlit("3");
        reveal_strlit("4");
        reveal_strlit("5");
        reveal_strlit("6");
        reveal_strlit("7");
        reveal_strlit("8");
        reveal_strlit("9");
    }
    let r = if d == 0 { "0" }
    else if d == 1 { "1" }
    else if d == 2 { "2" }
    else if d == 3 { "3" }
    else if d == 4 { "4" }
    else if d == 5 { "5" }
    else if d == 6 { "6" }
    else if d == 7 { "7" }
    else if d == 8 { "8" }
    else { "9" };
    assert(r@ =~= seq![digit_char(d as nat)]);
    r
}

fn push_digits(s: &mut String, n: u32)
    ensures
        final(s)@ == old(s)@ + nat_digits(n as nat),
    decreases n,
{
    if n >= 10 {
        push_digits(s, n / 10);
    }
    s.append(digit_text(n % 10));
    assert(final(s)@ =~= old(s)@ + nat_digits(n as nat));
}

/// `n` written in decimal.
pub fn decimal_text(n: i32) -> (r: String)
    ensures
        r@ == decimal(n as int),
{
    if n < 0 {
        let mut s = literal("-");
        proof {
            reveal_strlit("-");
        }
        let magnitude = (0 - (n as i64)) as u32;
        push_digits(&mut s, magnitude);
        assert(s@ =~= decimal(n as int));
        s
    } else {
        let mut s = String::new();
        push_digits(&mut s, n as u32);
        assert(s@ =~= decimal(n as int));
        s
    }
}

/// The style shared by the emphasised spans of a stop's line.
pub fn line_style(stop: &StopDetail) -> (r: SpanStyle)
    ensures
        r == spec_line_style(*stop),
{
    let late: i32 = match stop.departure_lateness {
        Some(v) => v,
        None => 0,
    };
    let color = if stop.departure_actual && late > 0 {
        LineColor::Red
    } else if stop.departure_actual && late < 0 {
        LineColor::Green
    } else {
        LineColor::Plain
    };
    SpanStyle { bold: stop.arrival_actual || stop.departure_actual, color }
}

/// The arrival lateness field of a stop's line.
pub fn arrival_field_text(stop: &StopDetail) -> (r: String)
    ensures
        r@ == arrival_field(*stop),
{
    let late: i32 = match stop.arrival_lateness {
        Some(v) => v,
        None => 0,
    };
    match stop.role {
        Role::Destination => decimal_text(late),
        Role::Call => {
            let mut s = decimal_text(late);
            s.append("/");
            proof {
                reveal_strlit("/");
            }
            assert(s@ =~= arrival_field(*stop));
            s
        },
        Role::Origin => String::new(),
    }
}

/// The departure lateness field of a stop's line.
pub fn departure_field_text(stop: &StopDetail) -> (r: String)
    ensures
        r@ == departure_field(*stop),
{
    let late: i32 = match stop.departure_lateness {
        Some(v) => v,
        None => 0,
    };
    match stop.role {
        Role::Origin | Role::Call => decimal_text(late),
        Role::Destination => String::new(),
    }
}

/// The bracketed platform segment of a stop's line, if a platform is known.
pub fn platform_segment(stop: &StopDetail) -> (r: Option<String>)
    ensures
        match platform_text(*stop) {
            Some(t) => r is Some && r->0@ == t,
            None => r is None,
        },
{
    match &stop.platform {
        Some(p) => {
            if p.as_str().unicode_len() == 0 {
                return None;
            }
            let mut s = literal(" [");
            s.append(p.as_str());
            if stop.platform_changed {
                s.append("!");
            }
            s.append("] ");
            proof {
                reveal_strlit(" [");
                reveal_strlit("!");
                reveal_strlit("] ");
            }
            assert(s@ =~= platform_text(*stop)->0);
            Some(s)
        },
        None => None,
    }
}

fn time_column(t: &Option<String>) -> (r: String)
    ensures
        r@ == time_text(*t),
{
    match t {
        Some(s) => s.clone(),
        None => String::new(),
    }
}

/// The spans of a stop's line that come before the padding.
pub fn head_spans(stop: &StopDetail) -> (r: Vec<StyledSpan>)
    ensures
        spans_view(r@) == spec_head_spans(*stop),
{
    proof {
        reveal_strlit(" ");
        reveal_strlit("(");
        reveal_strlit(")");
        reveal_strlit(" <===");
        assert(" "@ =~= seq![' ']);
        assert("("@ =~= seq!['(']);
        assert(")"@ =~= seq![')']);
        assert(" <==="@ =~= seq![' ', '<', '=', '=', '=']);
    }
    let style = line_style(stop);
    let plain = SpanStyle { bold: false, color: LineColor::Plain };
    let mut v: Vec<StyledSpan> = Vec::new();
    assert(spans_view(v@) =~= Seq::empty());
    push_span(&mut v, literal(" "), plain);
    push_span(&mut v, stop.description.clone(), style);
    match platform_segment(stop) {
        Some(p) => push_span(&mut v, p, style),
        None => {},
    }
    push_span(&mut v, literal("("), style);
    push_span(&mut v, arrival_field_text(stop), style);
    push_span(&mut v, departure_field_text(stop), style);
    push_span(&mut v, literal(")"), style);
    if stop.position == Some(LivePosition::AtPlatform) {
        push_span(&mut v, literal(" <==="), style);
    }
    assert(spans_view(v@) =~= spec_head_spans(*stop));
    v
}

/// The time columns that end a stop's line.
pub fn tail_spans(stop: &StopDetail) -> (r: Vec<StyledSpan>)
    ensures
        spans_view(r@) == spec_tail_spans(*stop),
{
    proof {
        reveal_strlit(" ");
        reveal_strlit("    ");
        assert(" "@ =~= seq![' ']);
        assert("    "@ =~= blank_time());
    }
    let style = line_style(stop);
    let plain = SpanStyle { bold: false, color: LineColor::Plain };
    let arrival = match stop.role {
        Role::Origin => literal("    "),
        _ => time_column(&stop.realtime_arrival),
    };
    let departure = match stop.role {
        Role::Destination => literal("    "),
        _ => time_column(&stop.realtime_departure),
    };
    let mut v: Vec<StyledSpan> = Vec::new();
    assert(spans_view(v@) =~= Seq::empty());
    push_span(&mut v, arrival, style);
    push_span(&mut v, literal(" "), plain);
    push_span(&mut v, departure, style);
    assert(spans_view(v@) =~= spec_tail_spans(*stop));
    v
}

/// Columns taken by the spans, saturating at the largest `usize`.
pub fn measure_spans(spans: &Vec<StyledSpan>) -> (r: usize)
    ensures
        r as int == if spans_width(spans_view(spans@)) > usize::MAX {
            usize::MAX as int
        } else {
            spans_width(spans_view(spans@)) as int
        },
{
    let mut total: usize = 0;
    let mut i: usize = 0;
    while i < spans.len()
        invariant
            i <= spans@.len(),
            total as int == if spans_width(spans_view(spans@).take(i as int)) > usize::MAX {
                usize::MAX as int
            } else {
                spans_width(spans_view(spans@).take(i as int)) as int
            },
        decreases spans@.len() - i,
    {
        let w = display_width(spans[i].content.as_str());
        proof {
            let all = spans_view(spans@);
            assert(all.take(i + 1).drop_last() =~= all.take(i as int));
            assert(all.take(i + 1).last() == all[i as int]);
        }
        total = if w > usize::MAX - total { usize::MAX } else { total + w };
        i = i + 1;
    }
    assert(spans_view(spans@).take(i as int) =~= spans_view(spans@));
    total
}

/// Spaces that fill a line of `available` columns of which `used` are taken,
/// leaving the reserved trailing columns; zero when the line is already full.
pub fn padding_width(available: usize, used: usize) -> (r: usize)
    ensures
        r as int == spec_padding(available as int, used as int),
{
    if available > used && available - used > RESERVED_TRAILING_WIDTH {
        available - used - RESERVED_TRAILING_WIDTH
    } else {
        0
    }
}

/// Lays out one stop as a status line for a panel `available_width` columns
/// wide. A line longer than the panel gets no padding and runs over.
pub fn render_stop_line(stop: &StopDetail, available_width: usize) -> (r: Vec<StyledSpan>)
    ensures
        spans_view(r@) == spec_render_line(*stop, available_width as int),
{
    let mut v = head_spans(stop);
    let used = measure_spans(&v);
    let padding = padding_width(available_width, used);
    let ghost head = spans_view(v@);
    assert(padding as int == spec_padding(available_width as int, spans_width(head) as int));
    let mut k: usize = 0;
    while k < padding
        invariant
            k <= padding,
            spans_view(v@) == head + padding_spans(k as nat),
        decreases padding - k,
    {
        proof {
            reveal_strlit(" ");
            assert(" "@ =~= seq![' ']);
        }
        push_span(&mut v, literal(" "), SpanStyle { bold: false, color: LineColor::Plain });
        assert(head + padding_spans((k + 1) as nat) =~= (head + padding_spans(k as nat)).push(
            (seq![' '], plain_style()),
        ));
        k = k + 1;
    }
    let mut tail = tail_spans(stop);
    let ghost before = v@;
    let ghost tail_before = tail@;
    v.append(&mut tail);
    assert(spans_view(v@) =~= spans_view(before) + spans_view(tail_before));
    v
}

/// Whether a stop is drawn: intermediate calls only when they are asked for.
pub open spec fn is_shown(stop: StopDetail, show_intermediary: bool) -> bool {
    show_intermediary || stop.role != Role::Call
}

/// The stops that are drawn, in journey order.
pub open spec fn visible_stops(stops: Seq<StopDetail>, show_intermediary: bool) -> Seq<StopDetail>
    decreases stops.len(),
{
    if stops.len() == 0 {
        Seq::empty()
    } else {
        let rest = visible_stops(stops.drop_last(), show_intermediary);
        if is_shown(stops.last(), show_intermediary) {
            rest.push(stops.last())
        } else {
            rest
        }
    }
}

/// One status line for each stop that is drawn, in journey order; origin and
/// destination always, intermediate calls only when `show_intermediary`.
pub fn render_journey(
    snapshot: &ServiceSnapshot,
    show_intermediary: bool,
    available_width: usize,
) -> (r: Vec<Vec<StyledSpan>>)
    ensures
        r@.len() == visible_stops(snapshot.locations@, show_intermediary).len(),
        forall|k: int|
            0 <= k < r@.len() ==> spans_view(#[trigger] r@[k]@) == spec_render_line(
                visible_stops(snapshot.locations@, show_intermediary)[k],
                available_width as int,
            ),
{
    let stops = &snapshot.locations;
    let mut lines: Vec<Vec<StyledSpan>> = Vec::new();
    let mut i: usize = 0;
    while i < stops.len()
        invariant
            i <= stops@.len(),
            lines@.len() == visible_stops(stops@.take(i as int), show_intermediary).len(),
            forall|k: int|
                0 <= k < lines@.len() ==> spans_view(#[trigger] lines@[k]@) == spec_render_line(
                    visible_stops(stops@.take(i as int), show_intermediary)[k],
                    available_width as int,
                ),
        decreases stops@.len() - i,
    {
        let stop = &stops[i];
        proof {
            assert(stops@.take(i + 1).drop_last() =~= stops@.take(i as int));
            assert(stops@.take(i + 1).last() == stops@[i as int]);
        }
        let shown = match stop.role {
            Role::Call => show_intermediary,
            _ => true,
        };
        if shown {
            let line = render_stop_line(stop, available_width);
            lines.push(line);
        }
        i = i + 1;
    }
    assert(stops@.take(i as int) =~= stops@);
    lines
}

/// A line whose content already fills the panel gets no padding: the padding
/// is clamped at zero and the line runs over.
pub proof fn lemma_padding_clamped(available: int, used: int)
    requires
        used + RESERVED_TRAILING_WIDTH >= available,
    ensures
        spec_padding(available, used) == 0,
{
}

/// A destination shows no departure lateness and an origin no arrival
/// lateness.
pub proof fn lemma_role_fields(stop: StopDetail)
    ensures
        stop.role == Role::Destination ==> departure_field(stop) == Seq::<char>::empty(),
        stop.role == Role::Origin ==> arrival_field(stop) == Seq::<char>::empty(),
{
}

/// A confirmed late departure colours the line red and a confirmed early one
/// green; an unconfirmed departure colours nothing, however late.
pub proof fn lemma_lateness_color(stop: StopDetail)
    ensures
        stop.departure_actual && lateness_or_zero(stop.departure_lateness) > 0
            ==> spec_line_style(stop).color == LineColor::Red,
        stop.departure_actual && lateness_or_zero(stop.departure_lateness) < 0
            ==> spec_line_style(stop).color == LineColor::Green,
        !stop.departure_actual ==> spec_line_style(stop).color == LineColor::Plain,
{
}

} // verus!
