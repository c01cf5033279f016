//! Usage as text and as JSON.
//!
//! What depends on the clock - countdowns and pace - comes in as readings; so do
//! formatted amounts of money.
use crate::binary64::arith::{lemma_integer_exact, lemma_integer_order, lemma_nearest_exact};
use crate::binary64::format::{fixed_text, half_up};
use crate::binary64::rounding::{lemma_nearest_monotone, lemma_nearest_rounds, lemma_units_increase};
use crate::binary64::{clamped, nearest, of_integer, product_of, quotient_of, signed, units, Binary64, UNIT_BITS};
use crate::json::{
    double_number, entry_trees, law_fields_are_found_by_their_keys, text_view, Json, JsonTree, ObjectBuilder,
};
use crate::provider::{cli_name_of, ProviderId, ProviderMetadata};
use crate::snapshot::{
    cadence_of, window_view, CostModel, CostSnapshot, FetchModel, NamedWindowModel, ProviderFetchResult, RateWindow,
    RateWindowCadence, UsageModel, UsageSnapshot, WindowModel, SESSION_WINDOW_MINUTES, WEEKLY_WINDOW_MINUTES,
};
use crate::text::{
    chars_of, concat2, concat3, concat4, join, joined, repeat_char, repeated, texts,
};
use vstd::arithmetic::power2::{lemma_pow2_pos, pow2};
use vstd::prelude::*;

verus! {

/// How well a service is doing.
#[derive(Debug, Clone, Copy, PartialEq, Eq, Structural)]
pub enum StatusLevel {
    Operational,
    Degraded,
    Partial,
    Major,
    Unknown,
}

/// What a status page says.
#[derive(Debug)]
pub struct StatusInfo {
    pub level: StatusLevel,
    pub description: String,
}

/// The pace of a window, ready to be shown.
#[derive(Debug)]
pub struct PaceText {
    pub emoji: String,
    pub status: String,
}

/// What the clock says of a window.
#[derive(Debug)]
pub struct WindowReading {
    /// The time until the reset.
    pub countdown: Option<String>,
    pub pace: Option<PaceText>,
}

/// What is read at the time of rendering.
#[derive(Debug)]
pub struct Readings {
    pub primary: WindowReading,
    pub secondary: WindowReading,
    pub tertiary_countdown: Option<String>,
    /// The countdowns of the additional windows, by their place.
    pub extra_countdowns: Vec<Option<String>>,
    /// The formatted amount that was spent.
    pub cost_used: String,
    /// The formatted amount that may be spent.
    pub cost_limit: Option<String>,
}

impl Readings {
    /// Readings of a time at which nothing counts down.
    pub fn none() -> (r: Readings)
        ensures
            r.primary.countdown is None,
            r.primary.pace is None,
            r.secondary.countdown is None,
            r.secondary.pace is None,
            r.tertiary_countdown is None,
            r.extra_countdowns@.len() == 0,
            r.cost_used@.len() == 0,
            r.cost_limit is None,
    {
        Readings {
            primary: WindowReading { countdown: None, pace: None },
            secondary: WindowReading { countdown: None, pace: None },
            tertiary_countdown: None,
            extra_countdowns: Vec::new(),
            cost_used: String::new(),
            cost_limit: None,
        }
    }
}

/// A percentage within bounds; what is no number counts as nothing.
pub open spec fn bounded(percent: Binary64) -> Binary64 {
    if percent.finite() {
        clamped(percent, of_integer(0), of_integer(100))
    } else {
        of_integer(0)
    }
}

fn bound(percent: Binary64) -> (r: Binary64)
    ensures
        r == bounded(percent),
        r.finite(),
        !r.negative() || r.zero(),
        of_integer(0).at_most(r),
        r.at_most(of_integer(100)),
{
    proof {
        lemma_integer_order(0, 100);
    }
    if percent.is_finite() {
        percent.clamp(Binary64::from_integer(0), Binary64::from_integer(100))
    } else {
        Binary64::from_integer(0)
    }
}

/// A percentage in whole numbers; a little is shown as such.
pub open spec fn percent_text(percent: Binary64) -> Seq<char> {
    if !percent.finite() {
        "0%"@
    } else if of_integer(0).less(percent) && percent.less(of_integer(1)) {
        "<1%"@
    } else {
        fixed_text(clamped(percent, of_integer(0), of_integer(100)), 0) + "%"@
    }
}

pub fn format_percent(percent: Binary64) -> (r: String)
    ensures
        r@ == percent_text(percent),
{
    let zero = Binary64::from_integer(0);
    if !percent.is_finite() {
        return "0%".to_string();
    }
    if zero.lt(percent) && percent.lt(Binary64::from_integer(1)) {
        return "<1%".to_string();
    }
    proof {
        lemma_integer_order(0, 100);
    }
    let text = percent.clamp(zero, Binary64::from_integer(100)).to_fixed(0);
    concat2(text.as_str(), "%")
}

/// How many cells of a bar are filled: the nearest number, a tie going up.
pub open spec fn filled_cells(percent: Binary64) -> nat {
    let share = product_of(quotient_of(bounded(percent), of_integer(100)), of_integer(20));
    half_up(units(share.magnitude()), pow2(UNIT_BITS as nat))
}

/// A bar of twenty cells.
pub open spec fn bar_text(percent: Binary64, use_color: bool) -> Seq<char> {
    let filled = filled_cells(percent);
    let bar = "["@ + repeated('█', filled) + repeated('░', (20 - filled) as nat) + "]"@;
    if use_color {
        let color = if of_integer(90).at_most(bounded(percent)) {
            "\x1b[31m"@
        } else if of_integer(70).at_most(bounded(percent)) {
            "\x1b[33m"@
        } else {
            "\x1b[32m"@
        };
        color + bar + "\x1b[0m"@
    } else {
        bar
    }
}

/// The share of a bar is a number from nothing to the whole bar.
proof fn lemma_share_bounds(percent: Binary64)
    ensures
        ({
            let share = product_of(quotient_of(bounded(percent), of_integer(100)), of_integer(20));
            &&& share.magnitude() < 1075 * crate::binary64::BINADE
            &&& units(share.magnitude()) <= 20 * pow2(UNIT_BITS as nat)
        }),
        filled_cells(percent) <= 20,
{
    let unit = pow2(UNIT_BITS as nat);
    lemma_pow2_pos(UNIT_BITS as nat);
    lemma_integer_order(0, 100);
    lemma_integer_exact(100);
    lemma_integer_exact(20);
    lemma_integer_exact(1);
    let p = bounded(percent);
    let hundred = of_integer(100);
    let twenty = of_integer(20);
    let one = of_integer(1);
    assert(p.finite() && p.magnitude() <= hundred.magnitude());
    let up = units(p.magnitude());
    let uh = units(hundred.magnitude());
    if p.magnitude() < hundred.magnitude() {
        lemma_units_increase(p.magnitude(), hundred.magnitude());
    }
    assert(up <= uh);
    assert(uh > 0) by (nonlinear_arith)
        requires
            uh == 100 * unit,
            unit > 0,
    ;
    // The part of the whole is at most one.
    let part = quotient_of(p, hundred);
    assert(up * unit * 1 <= unit * uh) by (nonlinear_arith)
        requires
            up <= uh,
    ;
    lemma_nearest_monotone(up * unit, uh, unit, 1);
    lemma_nearest_rounds(up * unit, uh);
    lemma_nearest_exact(one.magnitude());
    assert(1 * unit == unit);
    assert(one.magnitude() == nearest(unit, 1));
    assert(!hundred.zero()) by {
        assert(units(0) == 0);
    }
    assert(part.magnitude() <= one.magnitude()) by {
        assert(part == signed(p.negative() != hundred.negative(), nearest(up * unit, uh)));
    }
    let uq = units(part.magnitude());
    if part.magnitude() < one.magnitude() {
        lemma_units_increase(part.magnitude(), one.magnitude());
    }
    assert(uq <= unit);
    // So the part of the bar is at most the bar.
    let ut = units(twenty.magnitude());
    assert(uq * ut * 1 <= ut * unit) by (nonlinear_arith)
        requires
            uq <= unit,
    ;
    lemma_nearest_monotone(uq * ut, unit, ut, 1);
    lemma_nearest_rounds(uq * ut, unit);
    lemma_nearest_exact(twenty.magnitude());
    let share = product_of(part, twenty);
    assert(share.magnitude() <= twenty.magnitude()) by {
        assert(share == signed(part.negative() != twenty.negative(), nearest(uq * ut, unit)));
    }
    let us = units(share.magnitude());
    if share.magnitude() < twenty.magnitude() {
        lemma_units_increase(share.magnitude(), twenty.magnitude());
    }
    assert(us <= 20 * unit);
    // Rounding a number of at most twenty gives at most twenty.
    vstd::arithmetic::div_mod::lemma_fundamental_div_mod(us as int, unit as int);
    let q = us / unit;
    let rem = us % unit;
    assert(q <= 20) by (nonlinear_arith)
        requires
            us == unit * q + rem,
            us <= 20 * unit,
            rem >= 0,
            unit > 0,
    ;
    if q == 20 {
        assert(rem == 0) by (nonlinear_arith)
            requires
                us == unit * q + rem,
                us <= 20 * unit,
                q == 20,
        ;
    }
}

/// A bar.
pub fn render_progress_bar(percent: Binary64, use_color: bool) -> (r: String)
    ensures
        r@ == bar_text(percent, use_color),
{
    let p = bound(percent);
    let share = p.over(Binary64::from_integer(100)).times(Binary64::from_integer(20)).abs();
    proof {
        lemma_share_bounds(percent);
    }
    let filled: u64 = share.round_to_integer();
    let full = repeat_char('█', filled as usize);
    let empty = repeat_char('░', (20 - filled) as usize);
    let bar = concat4("[", full.as_str(), empty.as_str(), "]");
    if use_color {
        let color = if Binary64::from_integer(90).le(p) {
            "\x1b[31m"
        } else if Binary64::from_integer(70).le(p) {
            "\x1b[33m"
        } else {
            "\x1b[32m"
        };
        concat3(color, bar.as_str(), "\x1b[0m")
    } else {
        bar
    }
}

/// Every bar has twenty cells, however odd the percentage.
pub proof fn law_bars_have_twenty_cells(percent: Binary64)
    ensures
        filled_cells(percent) <= 20,
        bar_text(percent, false).len() == "["@.len() + 20 + "]"@.len(),
{
    lemma_share_bounds(percent);
}

/// A text with spaces behind it up to a width.
pub open spec fn padded_to(s: Seq<char>, width: nat) -> Seq<char> {
    s + repeated(' ', if s.len() < width { (width - s.len()) as nat } else { 0 })
}

fn pad_to(s: &str, width: usize) -> (r: String)
    ensures
        r@ == padded_to(s@, width as nat),
{
    let n: usize = chars_of(s).len();
    let spaces = repeat_char(' ', if n < width { width - n } else { 0 });
    concat2(s, spaces.as_str())
}

/// The line of a window.
pub open spec fn window_line(label: Seq<char>, window: WindowModel, countdown: Option<Seq<char>>, use_color: bool) -> Seq<char> {
    let head = "  "@ + padded_to(label + ":"@, 8) + " "@;
    if window.is_informational {
        head + (match window.reset_description {
            Some(description) => description,
            None => "unavailable"@,
        })
    } else {
        let reset = match countdown {
            Some(time) => " (resets in "@ + time + ")"@,
            None => ""@,
        };
        head + bar_text(window.used_percent, use_color) + " "@ + (percent_text(window.used_percent) + " used"@
            + reset)
    }
}

fn format_window_line(label: &str, window: &RateWindow, countdown: &Option<String>, use_color: bool) -> (r: String)
    ensures
        r@ == window_line(label@, window@, text_view(*countdown), use_color),
{
    let title = concat2(label, ":");
    let title = pad_to(title.as_str(), 8);
    let head = concat3("  ", title.as_str(), " ");
    if window.is_informational {
        return match &window.reset_description {
            Some(description) => concat2(head.as_str(), description.as_str()),
            None => concat2(head.as_str(), "unavailable"),
        };
    }
    let bar = render_progress_bar(window.used_percent, use_color);
    let percent = format_percent(window.used_percent);
    let reset = match countdown {
        Some(time) => concat3(" (resets in ", time.as_str(), ")"),
        None => "".to_string(),
    };
    let tail = concat3(percent.as_str(), " used", reset.as_str());
    concat4(head.as_str(), bar.as_str(), " ", tail.as_str())
}

pub open spec fn pace_line(emoji: Seq<char>, status: Seq<char>) -> Seq<char> {
    "  Pace:    "@ + emoji + " "@ + status
}

/// The line of a pace, where there is one.
pub open spec fn pace_lines(pace: Option<PaceText>) -> Seq<Seq<char>> {
    match pace {
        Some(pace) => seq![pace_line(pace.emoji@, pace.status@)],
        None => Seq::empty(),
    }
}

fn push_line(lines: &mut Vec<String>, line: String)
    ensures
        texts(final(lines)@) == texts(old(lines)@).push(line@),
{
    let ghost before = texts(lines@);
    lines.push(line);
    proof {
        assert(texts(lines@) =~= before.push(line@));
    }
}

fn append_pace(lines: &mut Vec<String>, pace: &Option<PaceText>)
    ensures
        texts(final(lines)@) == texts(old(lines)@) + pace_lines(*pace),
{
    let ghost before = texts(lines@);
    if let Some(pace) = pace {
        push_line(lines, concat4("  Pace:    ", pace.emoji.as_str(), " ", pace.status.as_str()));
    }
    proof {
        assert(texts(lines@) =~= before + pace_lines(*pace));
    }
}

/// The length by which the pace of the primary window is taken: that of a session,
/// or of a week and more.
pub open spec fn primary_pace_minutes_of(usage: UsageModel) -> Option<u32> {
    match usage.primary.window_minutes {
        Some(minutes) => if minutes == SESSION_WINDOW_MINUTES || minutes >= WEEKLY_WINDOW_MINUTES {
            Some(minutes)
        } else {
            None
        },
        None => None,
    }
}

pub fn primary_pace_minutes(usage: &UsageSnapshot) -> (r: Option<u32>)
    ensures
        r == primary_pace_minutes_of(usage@),
{
    match usage.primary.window_minutes {
        Some(minutes) => if minutes == SESSION_WINDOW_MINUTES || minutes >= WEEKLY_WINDOW_MINUTES {
            Some(minutes)
        } else {
            None
        },
        None => None,
    }
}

/// The length by which the pace of the secondary window is taken: its own, or a
/// week.
pub open spec fn secondary_pace_minutes_of(usage: UsageModel) -> Option<u32> {
    match usage.secondary {
        Some(window) => match window.window_minutes {
            Some(minutes) => Some(minutes),
            None => Some(WEEKLY_WINDOW_MINUTES),
        },
        None => None,
    }
}

pub fn secondary_pace_minutes(usage: &UsageSnapshot) -> (r: Option<u32>)
    ensures
        r == secondary_pace_minutes_of(usage@),
{
    match &usage.secondary {
        Some(window) => match window.window_minutes {
            Some(minutes) => Some(minutes),
            None => Some(WEEKLY_WINDOW_MINUTES),
        },
        None => None,
    }
}

pub open spec fn label_or(label: Option<Seq<char>>, default: Seq<char>) -> Seq<char> {
    match label {
        Some(label) => label,
        None => default,
    }
}

fn choose_label(label: &Option<String>, default: &str) -> (r: String)
    ensures
        r@ == label_or(text_view(*label), default@),
{
    match label {
        Some(label) => label.clone(),
        None => default.to_string(),
    }
}

/// The countdown of the additional window at a place.
pub open spec fn extra_countdown(readings: Readings, i: int) -> Option<Seq<char>> {
    if 0 <= i < readings.extra_countdowns@.len() {
        text_view(readings.extra_countdowns@[i])
    } else {
        None
    }
}

/// The lines of the first additional windows whose usage is known.
pub open spec fn extra_lines(extra: Seq<NamedWindowModel>, readings: Readings, n: int, use_color: bool) -> Seq<Seq<char>>
    decreases n,
{
    if n <= 0 {
        Seq::empty()
    } else {
        let before = extra_lines(extra, readings, n - 1, use_color);
        let window = extra[n - 1];
        if window.usage_known {
            before.push(window_line(window.title, window.window, extra_countdown(readings, n - 1), use_color))
        } else {
            before
        }
    }
}

/// The line of the primary lane.
pub open spec fn primary_line(
    usage: UsageModel,
    metadata: ProviderMetadata,
    readings: Readings,
    use_color: bool,
) -> Seq<char> {
    window_line(
        label_or(usage.primary_label, metadata.session_label@),
        usage.primary,
        text_view(readings.primary.countdown),
        use_color,
    )
}

/// The pace of the primary lane.
pub open spec fn primary_pace_lines(usage: UsageModel, readings: Readings) -> Seq<Seq<char>> {
    if primary_pace_minutes_of(usage) is Some {
        pace_lines(readings.primary.pace)
    } else {
        Seq::empty()
    }
}

/// The lines of the secondary lane.
pub open spec fn secondary_lines(
    window: Option<WindowModel>,
    label: Seq<char>,
    reading: WindowReading,
    use_color: bool,
) -> Seq<Seq<char>> {
    match window {
        Some(window) => seq![window_line(label, window, text_view(reading.countdown), use_color)] + pace_lines(
            reading.pace,
        ),
        None => Seq::empty(),
    }
}

/// The line of the lane of one model.
pub open spec fn model_lines(window: Option<WindowModel>, use_color: bool) -> Seq<Seq<char>> {
    match window {
        Some(window) => seq![
            "  Opus:    "@ + bar_text(window.used_percent, use_color) + " "@ + (percent_text(window.used_percent)
                + " used"@),
        ],
        None => Seq::empty(),
    }
}

/// The line of the third lane.
pub open spec fn tertiary_lines(window: Option<WindowModel>, countdown: Option<Seq<char>>, use_color: bool) -> Seq<
    Seq<char>,
> {
    match window {
        Some(window) => seq![window_line(tertiary_label(window), window, countdown, use_color)],
        None => Seq::empty(),
    }
}

/// The lines of the windows of a snapshot.
pub open spec fn usage_lines(
    usage: UsageModel,
    metadata: ProviderMetadata,
    readings: Readings,
    use_color: bool,
) -> Seq<Seq<char>> {
    seq![primary_line(usage, metadata, readings, use_color)] + primary_pace_lines(usage, readings) + secondary_lines(
        usage.secondary,
        label_or(usage.secondary_label, metadata.weekly_label@),
        readings.secondary,
        use_color,
    ) + model_lines(usage.model_specific, use_color) + tertiary_lines(
        usage.tertiary,
        text_view(readings.tertiary_countdown),
        use_color,
    ) + extra_lines(
        usage.extra_rate_windows,
        readings,
        usage.extra_rate_windows.len() as int,
        use_color,
    )
}

/// The label of the third lane, by its length.
pub open spec fn tertiary_label(window: WindowModel) -> Seq<char> {
    if window.window_minutes is Some && cadence_of(window.window_minutes->0) == RateWindowCadence::Monthly {
        "Monthly"@
    } else {
        "Tertiary"@
    }
}

fn append_secondary_window_line(
    lines: &mut Vec<String>,
    secondary: &Option<RateWindow>,
    label: &str,
    reading: &WindowReading,
    use_color: bool,
)
    ensures
        texts(final(lines)@) == texts(old(lines)@) + secondary_lines(
            window_view(*secondary),
            label@,
            *reading,
            use_color,
        ),
{
    let ghost before = texts(lines@);
    if let Some(window) = secondary {
        push_line(lines, format_window_line(label, window, &reading.countdown, use_color));
        append_pace(lines, &reading.pace);
    }
    proof {
        assert(texts(lines@) =~= before + secondary_lines(window_view(*secondary), label@, *reading, use_color));
    }
}

fn append_model_specific_line(lines: &mut Vec<String>, window: &Option<RateWindow>, use_color: bool)
    ensures
        texts(final(lines)@) == texts(old(lines)@) + model_lines(window_view(*window), use_color),
{
    let ghost before = texts(lines@);
    if let Some(window) = window {
        let bar = render_progress_bar(window.used_percent, use_color);
        let percent = format_percent(window.used_percent);
        let used = concat2(percent.as_str(), " used");
        push_line(lines, concat4("  Opus:    ", bar.as_str(), " ", used.as_str()));
    }
    proof {
        assert(texts(lines@) =~= before + model_lines(window_view(*window), use_color));
    }
}

fn append_tertiary_line(lines: &mut Vec<String>, window: &Option<RateWindow>, countdown: &Option<String>, use_color: bool)
    ensures
        texts(final(lines)@) == texts(old(lines)@) + tertiary_lines(
            window_view(*window),
            text_view(*countdown),
            use_color,
        ),
{
    let ghost before = texts(lines@);
    if let Some(window) = window {
        let minutes: u32 = match window.window_minutes {
            Some(minutes) => minutes,
            None => 0,
        };
        let label = match RateWindowCadence::from_minutes(minutes) {
            RateWindowCadence::Monthly => "Monthly",
            _ => "Tertiary",
        };
        push_line(lines, format_window_line(label, window, countdown, use_color));
    }
    proof {
        assert(texts(lines@) =~= before + tertiary_lines(window_view(*window), text_view(*countdown), use_color));
    }
}

fn append_extra_lines(lines: &mut Vec<String>, usage: &UsageSnapshot, readings: &Readings, use_color: bool)
    ensures
        texts(final(lines)@) == texts(old(lines)@) + extra_lines(
            usage@.extra_rate_windows,
            *readings,
            usage@.extra_rate_windows.len() as int,
            use_color,
        ),
{
    let ghost before = texts(lines@);
    let ghost extra = usage@.extra_rate_windows;
    let windows = &usage.extra_rate_windows;
    let mut i: usize = 0;
    proof {
        assert(before + extra_lines(extra, *readings, 0, use_color) =~= before);
    }
    while i < windows.len()
        invariant
            i <= windows@.len(),
            windows@ == usage.extra_rate_windows@,
            extra == usage@.extra_rate_windows,
            texts(lines@) == before + extra_lines(extra, *readings, i as int, use_color),
        decreases windows@.len() - i,
    {
        let window = &windows[i];
        proof {
            assert(extra[i as int] == window@);
        }
        if window.usage_known {
            let line = if i < readings.extra_countdowns.len() {
                format_window_line(window.title.as_str(), &window.window, &readings.extra_countdowns[i], use_color)
            } else {
                format_window_line(window.title.as_str(), &window.window, &None, use_color)
            };
            let ghost so_far = extra_lines(extra, *readings, i as int, use_color);
            push_line(lines, line);
            proof {
                assert((before + so_far).push(line@) =~= before + so_far.push(line@));
            }
        }
        i = i + 1;
    }
}

/// Adds the lines of the windows of a snapshot.
pub fn append_usage_window_lines(
    lines: &mut Vec<String>,
    usage: &UsageSnapshot,
    metadata: &ProviderMetadata,
    readings: &Readings,
    use_color: bool,
)
    ensures
        texts(final(lines)@) == texts(old(lines)@) + usage_lines(usage@, *metadata, *readings, use_color),
{
    let ghost before = texts(lines@);
    let label = choose_label(&usage.primary_label, metadata.session_label);
    push_line(
        lines,
        format_window_line(label.as_str(), &usage.primary, &readings.primary.countdown, use_color),
    );
    let ghost first = seq![primary_line(usage@, *metadata, *readings, use_color)];
    assert(texts(lines@) =~= before + first);
    if primary_pace_minutes(usage).is_some() {
        append_pace(lines, &readings.primary.pace);
    }
    let ghost pace = primary_pace_lines(usage@, *readings);
    assert(texts(lines@) =~= before + first + pace);
    let label = choose_label(&usage.secondary_label, metadata.weekly_label);
    append_secondary_window_line(lines, &usage.secondary, label.as_str(), &readings.secondary, use_color);
    let ghost second = secondary_lines(usage@.secondary, label@, readings.secondary, use_color);
    append_model_specific_line(lines, &usage.model_specific, use_color);
    let ghost model = model_lines(usage@.model_specific, use_color);
    append_tertiary_line(lines, &usage.tertiary, &readings.tertiary_countdown, use_color);
    let ghost third = tertiary_lines(usage@.tertiary, text_view(readings.tertiary_countdown), use_color);
    append_extra_lines(lines, usage, readings, use_color);
    proof {
        let extra = extra_lines(
            usage@.extra_rate_windows,
            *readings,
            usage@.extra_rate_windows.len() as int,
            use_color,
        );
        assert(texts(lines@) == before + first + pace + second + model + third + extra);
        lemma_regroup(before, first, pace, second, model, third, extra);
    }
}

/// Appending one after the other is appending all at once.
proof fn lemma_regroup(
    before: Seq<Seq<char>>,
    a: Seq<Seq<char>>,
    b: Seq<Seq<char>>,
    c: Seq<Seq<char>>,
    d: Seq<Seq<char>>,
    e: Seq<Seq<char>>,
    f: Seq<Seq<char>>,
)
    ensures
        before + a + b + c + d + e + f == before + (a + b + c + d + e + f),
{
    assert(before + a + b + c + d + e + f =~= before + (a + b + c + d + e + f));
}

/// The mark of a status.
pub open spec fn status_mark(status: Option<StatusInfo>, use_color: bool) -> Seq<char> {
    match status {
        None => Seq::empty(),
        Some(status) => {
            let symbol = match status.level {
                StatusLevel::Operational => "●"@,
                StatusLevel::Degraded => "◐"@,
                StatusLevel::Partial => "◑"@,
                StatusLevel::Major => "○"@,
                StatusLevel::Unknown => "?"@,
            };
            let color = match status.level {
                StatusLevel::Operational => "\x1b[32m"@,
                StatusLevel::Degraded => "\x1b[33m"@,
                StatusLevel::Partial => "\x1b[33m"@,
                StatusLevel::Major => "\x1b[31m"@,
                StatusLevel::Unknown => "\x1b[90m"@,
            };
            if use_color {
                " "@ + color + symbol + "\x1b[0m"@
            } else {
                " "@ + symbol
            }
        },
    }
}

pub fn render_status_indicator(status: &Option<StatusInfo>, use_color: bool) -> (r: String)
    ensures
        r@ == status_mark(*status, use_color),
{
    let status = match status {
        Some(status) => status,
        None => return String::new(),
    };
    let (symbol, color) = match status.level {
        StatusLevel::Operational => ("●", "\x1b[32m"),
        StatusLevel::Degraded => ("◐", "\x1b[33m"),
        StatusLevel::Partial => ("◑", "\x1b[33m"),
        StatusLevel::Major => ("○", "\x1b[31m"),
        StatusLevel::Unknown => ("?", "\x1b[90m"),
    };
    if use_color {
        concat4(" ", color, symbol, "\x1b[0m")
    } else {
        concat2(" ", symbol)
    }
}

/// A name, set off where colors are used.
pub open spec fn title_text(name: Seq<char>, use_color: bool) -> Seq<char> {
    if use_color {
        "\x1b[1m"@ + name + "\x1b[0m"@
    } else {
        name
    }
}

fn format_title(name: &str, use_color: bool) -> (r: String)
    ensures
        r@ == title_text(name@, use_color),
{
    if use_color {
        concat3("\x1b[1m", name, "\x1b[0m")
    } else {
        name.to_string()
    }
}

/// The first line: name, source and status.
pub open spec fn header_line(name: Seq<char>, source: Seq<char>, status: Option<StatusInfo>, use_color: bool) -> Seq<char> {
    title_text(name, use_color) + " ("@ + source + (")"@ + status_mark(status, use_color))
}

pub fn render_usage_header(metadata: &ProviderMetadata, source: &str, status: &Option<StatusInfo>, use_color: bool) -> (r:
    String)
    ensures
        r@ == header_line(metadata.display_name@, source@, *status, use_color),
{
    let title = format_title(metadata.display_name, use_color);
    let mark = render_status_indicator(status, use_color);
    let tail = concat2(")", mark.as_str());
    concat4(title.as_str(), " (", source, tail.as_str())
}

/// The line of a status that is worth a word.
pub open spec fn status_lines(status: Option<StatusInfo>) -> Seq<Seq<char>> {
    match status {
        Some(status) => if status.level == StatusLevel::Operational || status.level == StatusLevel::Unknown {
            Seq::empty()
        } else {
            seq!["  Status: "@ + status.description@]
        },
        None => Seq::empty(),
    }
}

pub fn append_status_line(lines: &mut Vec<String>, status: &Option<StatusInfo>)
    ensures
        texts(final(lines)@) == texts(old(lines)@) + status_lines(*status),
{
    let ghost before = texts(lines@);
    if let Some(status) = status {
        if status.level != StatusLevel::Operational && status.level != StatusLevel::Unknown {
            push_line(lines, concat2("  Status: ", status.description.as_str()));
        }
    }
    proof {
        assert(texts(lines@) =~= before + status_lines(*status));
    }
}

/// The lines of the account.
pub open spec fn account_lines(usage: UsageModel) -> Seq<Seq<char>> {
    (match usage.account_email {
        Some(email) => seq!["  Account: "@ + email],
        None => Seq::empty(),
    }) + (match usage.login_method {
        Some(method) => seq!["  Plan:    "@ + method],
        None => Seq::empty(),
    })
}

pub fn append_account_lines(lines: &mut Vec<String>, usage: &UsageSnapshot)
    ensures
        texts(final(lines)@) == texts(old(lines)@) + account_lines(usage@),
{
    let ghost before = texts(lines@);
    if let Some(email) = &usage.account_email {
        push_line(lines, concat2("  Account: ", email.as_str()));
    }
    if let Some(method) = &usage.login_method {
        push_line(lines, concat2("  Plan:    ", method.as_str()));
    }
    proof {
        assert(texts(lines@) =~= before + account_lines(usage@));
    }
}

/// The line of a cost, from its formatted amounts.
pub open spec fn cost_lines(cost: Option<CostModel>, used: Seq<char>, limit: Option<Seq<char>>) -> Seq<Seq<char>> {
    match cost {
        None => Seq::empty(),
        Some(cost) => match limit {
            Some(limit) => seq!["  Cost:    "@ + used + " / "@ + (limit + " ("@ + cost.period + ")"@)],
            None => seq!["  Cost:    "@ + used + " ("@ + (cost.period + ")"@)],
        },
    }
}

pub fn append_cost_line(lines: &mut Vec<String>, cost: &Option<CostSnapshot>, used: &str, limit: &Option<String>)
    ensures
        texts(final(lines)@) == texts(old(lines)@) + cost_lines(
            crate::snapshot::cost_view(*cost),
            used@,
            text_view(*limit),
        ),
{
    let ghost before = texts(lines@);
    if let Some(cost) = cost {
        match limit {
            Some(limit) => {
                let tail = concat4(limit.as_str(), " (", cost.period.as_str(), ")");
                push_line(lines, concat4("  Cost:    ", used, " / ", tail.as_str()));
            },
            None => {
                let tail = concat2(cost.period.as_str(), ")");
                push_line(lines, concat4("  Cost:    ", used, " (", tail.as_str()));
            },
        }
    }
    proof {
        assert(texts(lines@) =~= before + cost_lines(
            crate::snapshot::cost_view(*cost),
            used@,
            text_view(*limit),
        ));
    }
}

/// All lines of a result.
pub open spec fn result_lines(
    metadata: ProviderMetadata,
    result: FetchModel,
    readings: Readings,
    status: Option<StatusInfo>,
    use_color: bool,
) -> Seq<Seq<char>> {
    seq![header_line(metadata.display_name@, result.source_label, status, use_color)] + status_lines(status)
        + account_lines(result.usage) + usage_lines(result.usage, metadata, readings, use_color) + cost_lines(
        result.cost,
        readings.cost_used@,
        text_view(readings.cost_limit),
    )
}

/// A result as text, with the status of the service where it is known.
pub fn render_text_with_status(
    metadata: &ProviderMetadata,
    result: &ProviderFetchResult,
    readings: &Readings,
    status: &Option<StatusInfo>,
    use_color: bool,
) -> (r: String)
    ensures
        r@ == joined(result_lines(*metadata, result@, *readings, *status, use_color), "\n"@),
{
    let mut lines: Vec<String> = Vec::new();
    proof {
        assert(texts(lines@) =~= Seq::<Seq<char>>::empty());
    }
    push_line(&mut lines, render_usage_header(metadata, result.source_label.as_str(), status, use_color));
    append_status_line(&mut lines, status);
    append_account_lines(&mut lines, &result.usage);
    append_usage_window_lines(&mut lines, &result.usage, metadata, readings, use_color);
    append_cost_line(&mut lines, &result.cost, readings.cost_used.as_str(), &readings.cost_limit);
    proof {
        assert(texts(lines@) =~= result_lines(*metadata, result@, *readings, *status, use_color));
    }
    join(&lines, "\n")
}

/// A result as text.
pub fn render_text(metadata: &ProviderMetadata, result: &ProviderFetchResult, readings: &Readings, use_color: bool) -> (r:
    String)
    ensures
        r@ == joined(result_lines(*metadata, result@, *readings, None, use_color), "\n"@),
{
    render_text_with_status(metadata, result, readings, &None, use_color)
}

/// The parts of a brief line.
pub open spec fn brief_parts(metadata: ProviderMetadata, usage: UsageModel, readings: Readings) -> Seq<Seq<char>> {
    let label = label_or(usage.primary_label, metadata.session_label@);
    let primary = if usage.primary.is_informational {
        label + " unavailable"@
    } else {
        label + " "@ + percent_text(usage.primary.used_percent)
    };
    let secondary = match usage.secondary {
        Some(window) => seq![
            label_or(usage.secondary_label, metadata.weekly_label@) + " "@ + percent_text(window.used_percent),
        ],
        None => Seq::empty(),
    };
    let countdown = if usage.primary.is_informational && usage.secondary is Some {
        text_view(readings.secondary.countdown)
    } else {
        text_view(readings.primary.countdown)
    };
    let plan = match usage.login_method {
        Some(plan) => seq![plan],
        None => Seq::empty(),
    };
    seq![primary] + secondary + seq!["resets "@ + label_or(countdown, "n/a"@)] + plan
}

/// A result on one line.
pub fn render_brief_text(metadata: &ProviderMetadata, result: &ProviderFetchResult, readings: &Readings) -> (r: String)
    ensures
        r@ == metadata.display_name@ + ": "@ + joined(brief_parts(*metadata, result@.usage, *readings), ", "@),
{
    let usage = &result.usage;
    let label = choose_label(&usage.primary_label, metadata.session_label);
    let mut parts: Vec<String> = Vec::new();
    proof {
        assert(texts(parts@) =~= Seq::<Seq<char>>::empty());
    }
    if usage.primary.is_informational {
        push_line(&mut parts, concat2(label.as_str(), " unavailable"));
    } else {
        let percent = format_percent(usage.primary.used_percent);
        push_line(&mut parts, concat3(label.as_str(), " ", percent.as_str()));
    }
    let countdown = if usage.primary.is_informational && usage.secondary.is_some() {
        choose_label(&readings.secondary.countdown, "n/a")
    } else {
        choose_label(&readings.primary.countdown, "n/a")
    };
    if let Some(window) = &usage.secondary {
        let label = choose_label(&usage.secondary_label, metadata.weekly_label);
        let percent = format_percent(window.used_percent);
        push_line(&mut parts, concat3(label.as_str(), " ", percent.as_str()));
    }
    push_line(&mut parts, concat2("resets ", countdown.as_str()));
    if let Some(plan) = &usage.login_method {
        push_line(&mut parts, plan.clone());
    }
    proof {
        assert(texts(parts@) =~= brief_parts(*metadata, result@.usage, *readings));
    }
    let row = join(&parts, ", ");
    concat3(metadata.display_name, ": ", row.as_str())
}

/// What is said of a fetch that failed.
pub fn render_text_error(display_name: &str, error: &str, use_color: bool) -> (r: String)
    ensures
        r@ == title_text(display_name@, use_color) + "  Error: "@ + error@,
{
    let title = format_title(display_name, use_color);
    concat3(title.as_str(), "  Error: ", error)
}

/// The sections of several providers, with a blank line between them.
pub fn text_output(sections: &Vec<String>) -> (r: String)
    ensures
        r@ == joined(texts(sections@), "\n\n"@),
{
    join(sections, "\n\n")
}

/// How usage compares with an even pace.
#[derive(Debug, Clone, Copy, PartialEq, Eq, Structural)]
pub enum PaceStage {
    OnTrack,
    SlightlyAhead,
    Ahead,
    FarAhead,
    SlightlyBehind,
    Behind,
    FarBehind,
}

/// The pace of a window.
#[derive(Debug, Clone, Copy, PartialEq, Eq, Structural)]
pub struct UsagePace {
    pub stage: PaceStage,
    pub delta_percent: Binary64,
    pub expected_used_percent: Binary64,
    pub will_last_to_reset: bool,
}

pub open spec fn stage_name(stage: PaceStage) -> Seq<char> {
    match stage {
        PaceStage::OnTrack => "ontrack"@,
        PaceStage::SlightlyAhead => "slightlyahead"@,
        PaceStage::Ahead => "ahead"@,
        PaceStage::FarAhead => "farahead"@,
        PaceStage::SlightlyBehind => "slightlybehind"@,
        PaceStage::Behind => "behind"@,
        PaceStage::FarBehind => "farbehind"@,
    }
}

pub open spec fn number_tree(x: Binary64) -> JsonTree {
    if x.finite() {
        JsonTree::Number(double_number(x))
    } else {
        JsonTree::Null
    }
}

pub open spec fn pace_tree(pace: UsagePace) -> JsonTree {
    JsonTree::Object(
        seq![
            ("stage"@, JsonTree::Text(stage_name(pace.stage))),
            ("deltaPercent"@, number_tree(pace.delta_percent)),
            ("expectedUsedPercent"@, number_tree(pace.expected_used_percent)),
            ("willLastToReset"@, JsonTree::Bool(pace.will_last_to_reset)),
        ],
    )
}

pub fn pace_json(pace: UsagePace) -> (r: Json)
    ensures
        r.tree() == pace_tree(pace),
{
    let stage = match pace.stage {
        PaceStage::OnTrack => "ontrack",
        PaceStage::SlightlyAhead => "slightlyahead",
        PaceStage::Ahead => "ahead",
        PaceStage::FarAhead => "farahead",
        PaceStage::SlightlyBehind => "slightlybehind",
        PaceStage::Behind => "behind",
        PaceStage::FarBehind => "farbehind",
    };
    let r = ObjectBuilder::new().with("stage", Json::text(stage)).with(
        "deltaPercent",
        Json::double(pace.delta_percent),
    ).with("expectedUsedPercent", Json::double(pace.expected_used_percent)).with(
        "willLastToReset",
        Json::boolean(pace.will_last_to_reset),
    ).build();
    proof {
        assert(r.tree()->Object_0 =~= pace_tree(pace)->Object_0);
    }
    r
}

/// The length by which the pace of the primary window is taken in JSON.
pub open spec fn json_primary_pace_minutes_of(usage: UsageModel) -> Option<u32> {
    if usage.primary.window_minutes == Some(SESSION_WINDOW_MINUTES) {
        Some(SESSION_WINDOW_MINUTES)
    } else {
        None
    }
}

/// The length by which the pace of the primary window is taken in JSON: only that
/// of a session.
pub fn json_primary_pace_minutes(usage: &UsageSnapshot) -> (r: Option<u32>)
    ensures
        r == json_primary_pace_minutes_of(usage@),
{
    match usage.primary.window_minutes {
        Some(minutes) => if minutes == SESSION_WINDOW_MINUTES {
            Some(minutes)
        } else {
            None
        },
        None => None,
    }
}

pub open spec fn level_name(level: StatusLevel) -> Seq<char> {
    match level {
        StatusLevel::Operational => "operational"@,
        StatusLevel::Degraded => "degraded"@,
        StatusLevel::Partial => "partial"@,
        StatusLevel::Major => "major"@,
        StatusLevel::Unknown => "unknown"@,
    }
}

pub open spec fn optional_pace_tree(pace: Option<UsagePace>) -> JsonTree {
    match pace {
        Some(pace) => pace_tree(pace),
        None => JsonTree::Null,
    }
}

/// The fields of a result in JSON.
pub open spec fn result_entries(
    provider: ProviderId,
    source: Seq<char>,
    usage: JsonTree,
    cost: JsonTree,
    primary: Option<UsagePace>,
    secondary: Option<UsagePace>,
    status: Option<StatusInfo>,
) -> Seq<(Seq<char>, JsonTree)> {
    let base = seq![
        ("provider"@, JsonTree::Text(cli_name_of(provider))),
        ("source"@, JsonTree::Text(source)),
        ("usage"@, usage),
        ("cost"@, cost),
    ];
    let paced = if primary is Some || secondary is Some {
        base.push(
            (
                "pace"@,
                JsonTree::Object(
                    seq![
                        ("primary"@, optional_pace_tree(primary)),
                        ("secondary"@, optional_pace_tree(secondary)),
                    ],
                ),
            ),
        )
    } else {
        base
    };
    match status {
        Some(status) => paced.push(
            (
                "status"@,
                JsonTree::Object(
                    seq![
                        ("level"@, JsonTree::Text(level_name(status.level))),
                        ("description"@, JsonTree::Text(status.description@)),
                    ],
                ),
            ),
        ),
        None => paced,
    }
}

fn optional_pace_json(pace: Option<UsagePace>) -> (r: Json)
    ensures
        r.tree() == optional_pace_tree(pace),
{
    match pace {
        Some(pace) => pace_json(pace),
        None => Json::Null,
    }
}

/// A result in JSON; snapshot and cost come in as JSON, and the pace only where
/// there is one.
pub fn render_json_result(
    provider: ProviderId,
    source: &str,
    usage: Json,
    cost: Json,
    primary_pace: Option<UsagePace>,
    secondary_pace: Option<UsagePace>,
    status: &Option<StatusInfo>,
) -> (r: Json)
    ensures
        r.tree() == JsonTree::Object(
            result_entries(
                provider,
                source@,
                usage.tree(),
                cost.tree(),
                primary_pace,
                secondary_pace,
                *status,
            ),
        ),
{
    let ghost usage_tree = usage.tree();
    let ghost cost_tree = cost.tree();
    let mut builder = ObjectBuilder::new().with("provider", Json::text(provider.cli_name())).with(
        "source",
        Json::text(source),
    ).with("usage", usage).with("cost", cost);
    if primary_pace.is_some() || secondary_pace.is_some() {
        let pace = ObjectBuilder::new().with("primary", optional_pace_json(primary_pace)).with(
            "secondary",
            optional_pace_json(secondary_pace),
        ).build();
        proof {
            assert(pace.tree()->Object_0 =~= seq![
                ("primary"@, optional_pace_tree(primary_pace)),
                ("secondary"@, optional_pace_tree(secondary_pace)),
            ]);
        }
        builder = builder.with("pace", pace);
    }
    if let Some(status) = status {
        let level = match status.level {
            StatusLevel::Operational => "operational",
            StatusLevel::Degraded => "degraded",
            StatusLevel::Partial => "partial",
            StatusLevel::Major => "major",
            StatusLevel::Unknown => "unknown",
        };
        let info = ObjectBuilder::new().with("level", Json::text(level)).with(
            "description",
            Json::text(status.description.as_str()),
        ).build();
        proof {
            assert(info.tree()->Object_0 =~= seq![
                ("level"@, JsonTree::Text(level_name(status.level))),
                ("description"@, JsonTree::Text(status.description@)),
            ]);
        }
        builder = builder.with("status", info);
    }
    proof {
        assert(entry_trees(builder.entries@) =~= result_entries(
            provider,
            source@,
            usage_tree,
            cost_tree,
            primary_pace,
            secondary_pace,
            *status,
        ));
    }
    builder.build()
}

/// A failure in JSON.
pub open spec fn failure_tree(provider: ProviderId, error: Seq<char>) -> JsonTree {
    JsonTree::Object(
        seq![("provider"@, JsonTree::Text(cli_name_of(provider))), ("error"@, JsonTree::Text(error))],
    )
}

/// What is printed in JSON for a fetch that failed.
pub fn render_json_error(provider: ProviderId, error: &str) -> (r: Json)
    ensures
        r.tree() == failure_tree(provider, error@),
{
    let r = ObjectBuilder::new().with("provider", Json::text(provider.cli_name())).with("error", Json::text(error)).build();
    proof {
        assert(r.tree()->Object_0 =~= seq![
            ("provider"@, JsonTree::Text(cli_name_of(provider))),
            ("error"@, JsonTree::Text(error@)),
        ]);
    }
    r
}

/// The labels of the two lanes, which a snapshot may override, are the same in full and in
/// brief.
pub proof fn law_labels_are_shared(metadata: ProviderMetadata, usage: UsageModel, readings: Readings, use_color: bool)
    ensures
        usage_lines(usage, metadata, readings, use_color)[0] == window_line(
            label_or(usage.primary_label, metadata.session_label@),
            usage.primary,
            text_view(readings.primary.countdown),
            use_color,
        ),
        label_or(usage.primary_label, metadata.session_label@).is_prefix_of(
            brief_parts(metadata, usage, readings)[0],
        ),
        usage.secondary is Some ==> {
            let label = label_or(usage.secondary_label, metadata.weekly_label@);
            &&& usage_lines(usage, metadata, readings, use_color)[1int + primary_pace_lines(usage, readings).len()]
                == window_line(label, usage.secondary->0, text_view(readings.secondary.countdown), use_color)
            &&& brief_parts(metadata, usage, readings)[1] == label + " "@ + percent_text(
                usage.secondary->0.used_percent,
            )
        },
{
}

/// The keys of a result are told apart.
proof fn lemma_result_keys()
    ensures
        "provider"@.len() == 8 && "error"@.len() == 5 && "error"@[0] == 'e',
        "source"@.len() == 6 && "source"@[1] == 'o',
        "status"@.len() == 6 && "status"@[1] == 't',
        "usage"@.len() == 5 && "usage"@[0] == 'u',
        "cost"@.len() == 4 && "cost"@[0] == 'c',
        "pace"@.len() == 4 && "pace"@[0] == 'p',
        "primary"@.len() == 7 && "secondary"@.len() == 9 && "level"@.len() == 5 && "description"@.len() == 11,
{
    reveal_strlit("provider");
    reveal_strlit("error");
    reveal_strlit("source");
    reveal_strlit("status");
    reveal_strlit("usage");
    reveal_strlit("cost");
    reveal_strlit("pace");
    reveal_strlit("primary");
    reveal_strlit("secondary");
    reveal_strlit("level");
    reveal_strlit("description");
}

/// The object that is printed for a result holds, under each key, what was handed in for it:
/// the snapshot under `usage`, the cost under `cost`, the paces under `pace` where there is one,
/// and the status under `status` where it is known.
pub proof fn law_results_hold_what_was_handed_in(
    provider: ProviderId,
    source: Seq<char>,
    usage: JsonTree,
    cost: JsonTree,
    primary: Option<UsagePace>,
    secondary: Option<UsagePace>,
    status: Option<StatusInfo>,
)
    ensures
        ({
            let r = JsonTree::Object(result_entries(provider, source, usage, cost, primary, secondary, status));
            &&& r.field("provider"@) == Some(JsonTree::Text(cli_name_of(provider)))
            &&& r.field("source"@) == Some(JsonTree::Text(source))
            &&& r.field("usage"@) == Some(usage)
            &&& r.field("cost"@) == Some(cost)
            &&& primary is None && secondary is None ==> r.field("pace"@) is None
            &&& primary is Some || secondary is Some ==> {
                let pace = r.field("pace"@);
                &&& pace is Some
                &&& primary is Some ==> pace->0.field("primary"@) == Some(pace_tree(primary->0))
                &&& primary is None ==> pace->0.field("primary"@) == Some(JsonTree::Null)
                &&& secondary is Some ==> pace->0.field("secondary"@) == Some(pace_tree(secondary->0))
                &&& secondary is None ==> pace->0.field("secondary"@) == Some(JsonTree::Null)
            }
            &&& status is None ==> r.field("status"@) is None
            &&& status is Some ==> {
                &&& r.field("status"@) is Some
                &&& r.field("status"@)->0.field("level"@) == Some(JsonTree::Text(level_name(status->0.level)))
                &&& r.field("status"@)->0.field("description"@) == Some(JsonTree::Text(status->0.description@))
            }
        }),
{
    lemma_result_keys();
    let entries = result_entries(provider, source, usage, cost, primary, secondary, status);
    let paced = primary is Some || secondary is Some;
    let pace = JsonTree::Object(
        seq![("primary"@, optional_pace_tree(primary)), ("secondary"@, optional_pace_tree(secondary))],
    );
    let told = JsonTree::Object(
        seq![
            ("level"@, JsonTree::Text(level_name(status->0.level))),
            ("description"@, JsonTree::Text(status->0.description@)),
        ],
    );
    assert(entries[0].0 == "provider"@ && entries[1].0 == "source"@ && entries[2].0 == "usage"@ && entries[3].0
        == "cost"@);
    assert(paced ==> entries[4] == ("pace"@, pace));
    assert(status is Some ==> entries[entries.len() - 1] == ("status"@, told));
    assert(entries.len() == 4 + (if paced { 1int } else { 0int }) + (if status is Some { 1int } else { 0int }));
    law_fields_are_found_by_their_keys(entries, "provider"@, 0);
    law_fields_are_found_by_their_keys(entries, "source"@, 1);
    law_fields_are_found_by_their_keys(entries, "usage"@, 2);
    law_fields_are_found_by_their_keys(entries, "cost"@, 3);
    law_fields_are_found_by_their_keys(entries, "pace"@, 4);
    law_fields_are_found_by_their_keys(entries, "status"@, entries.len() - 1);
    law_fields_are_found_by_their_keys(pace->Object_0, "primary"@, 0);
    law_fields_are_found_by_their_keys(pace->Object_0, "secondary"@, 1);
    law_fields_are_found_by_their_keys(told->Object_0, "level"@, 0);
    law_fields_are_found_by_their_keys(told->Object_0, "description"@, 1);
}

/// The object that is printed for a failure names provider and error.
pub proof fn law_failures_name_provider_and_error(provider: ProviderId, error: Seq<char>)
    ensures
        failure_tree(provider, error).field("provider"@) == Some(JsonTree::Text(cli_name_of(provider))),
        failure_tree(provider, error).field("error"@) == Some(JsonTree::Text(error)),
        failure_tree(provider, error).field("usage"@) is None,
{
    lemma_result_keys();
    let entries = failure_tree(provider, error)->Object_0;
    law_fields_are_found_by_their_keys(entries, "provider"@, 0);
    law_fields_are_found_by_their_keys(entries, "error"@, 1);
    law_fields_are_found_by_their_keys(entries, "usage"@, 0);
}

/// A pace is told by its stage, by how far it is off, by what was expected, and by whether it
/// lasts.
pub proof fn law_paces_hold_their_numbers(pace: UsagePace)
    ensures
        pace_tree(pace).field("stage"@) == Some(JsonTree::Text(stage_name(pace.stage))),
        pace.delta_percent.finite() ==> pace_tree(pace).field("deltaPercent"@) is Some && pace_tree(pace).field(
            "deltaPercent"@,
        )->0.double() == Some(pace.delta_percent),
        pace.expected_used_percent.finite() ==> pace_tree(pace).field("expectedUsedPercent"@) is Some && pace_tree(
            pace,
        ).field("expectedUsedPercent"@)->0.double() == Some(pace.expected_used_percent),
        pace_tree(pace).field("willLastToReset"@) == Some(JsonTree::Bool(pace.will_last_to_reset)),
        stage_name(PaceStage::OnTrack) == "ontrack"@,
        stage_name(PaceStage::SlightlyAhead) == "slightlyahead"@,
        stage_name(PaceStage::Ahead) == "ahead"@,
        stage_name(PaceStage::FarAhead) == "farahead"@,
        stage_name(PaceStage::SlightlyBehind) == "slightlybehind"@,
        stage_name(PaceStage::Behind) == "behind"@,
        stage_name(PaceStage::FarBehind) == "farbehind"@,
        level_name(StatusLevel::Operational) == "operational"@,
        level_name(StatusLevel::Degraded) == "degraded"@,
        level_name(StatusLevel::Partial) == "partial"@,
        level_name(StatusLevel::Major) == "major"@,
        level_name(StatusLevel::Unknown) == "unknown"@,
{
    reveal_strlit("stage");
    reveal_strlit("deltaPercent");
    reveal_strlit("expectedUsedPercent");
    reveal_strlit("willLastToReset");
    assert("stage"@.len() == 5 && "deltaPercent"@.len() == 12 && "expectedUsedPercent"@.len() == 19
        && "willLastToReset"@.len() == 15);
    let entries = pace_tree(pace)->Object_0;
    law_fields_are_found_by_their_keys(entries, "stage"@, 0);
    law_fields_are_found_by_their_keys(entries, "deltaPercent"@, 1);
    law_fields_are_found_by_their_keys(entries, "expectedUsedPercent"@, 2);
    law_fields_are_found_by_their_keys(entries, "willLastToReset"@, 3);
}

/// A percentage is written in whole numbers between 0 and 100, what is below one but more than
/// nothing as less than one, and what is no number as nothing.
pub proof fn law_percentages_are_written_whole(percent: Binary64)
    ensures
        !percent.finite() ==> percent_text(percent) == "0%"@,
        of_integer(0).less(percent) && percent.less(of_integer(1)) ==> percent_text(percent) == "<1%"@,
        percent.finite() && of_integer(1).at_most(percent) && percent.at_most(of_integer(100)) ==> percent_text(percent)
            == fixed_text(percent, 0) + "%"@,
        percent.finite() && of_integer(100).less(percent) ==> percent_text(percent) == fixed_text(of_integer(100), 0)
            + "%"@,
        percent.less(of_integer(0)) && percent.finite() ==> percent_text(percent) == fixed_text(of_integer(0), 0)
            + "%"@,
{
    lemma_integer_order(0, 1);
    lemma_integer_order(0, 100);
    lemma_integer_order(1, 100);
}

/// A window with a percentage is written with its bar, its percentage and the time until its
/// reset; one without is written with its description, or as unavailable.
pub proof fn law_windows_are_written_as_lines(
    label: Seq<char>,
    window: WindowModel,
    countdown: Option<Seq<char>>,
    use_color: bool,
)
    ensures
        ({
            let line = window_line(label, window, countdown, use_color);
            let head = "  "@ + padded_to(label + ":"@, 8) + " "@;
            let share = bar_text(window.used_percent, use_color) + " "@ + (percent_text(window.used_percent)
                + " used"@);
            &&& window.is_informational && window.reset_description is Some ==> line == head
                + window.reset_description->0
            &&& window.is_informational && window.reset_description is None ==> line == head + "unavailable"@
            &&& !window.is_informational && countdown is None ==> line == head + share
            &&& !window.is_informational && countdown is Some ==> line == head + share + " (resets in "@
                + countdown->0 + ")"@
        }),
        padded_to(label, 8).len() == (if label.len() < 8 { 8nat } else { label.len() }),
        label.is_prefix_of(padded_to(label, 8)),
{
    let head = "  "@ + padded_to(label + ":"@, 8) + " "@;
    let bar = bar_text(window.used_percent, use_color);
    let percent = percent_text(window.used_percent);
    let share = bar + " "@ + (percent + " used"@);
    reveal_strlit("");
    assert(""@ =~= Seq::<char>::empty());
    assert(head + bar + " "@ + (percent + " used"@ + ""@) =~= head + share);
    if countdown is Some {
        let reset = " (resets in "@ + countdown->0 + ")"@;
        assert(head + bar + " "@ + (percent + " used"@ + reset) =~= head + share + " (resets in "@ + countdown->0
            + ")"@);
    }
    assert(padded_to(label, 8).subrange(0, label.len() as int) =~= label);
}

/// A full bar is twenty cells and an empty one none; more is never shown as less.
pub proof fn law_bars_grow_with_the_percentage(a: Binary64, b: Binary64)
    requires
        a.finite() && b.finite(),
        a.at_most(b),
    ensures
        filled_cells(a) <= filled_cells(b),
{
    let unit = pow2(UNIT_BITS as nat);
    lemma_pow2_pos(UNIT_BITS as nat);
    lemma_integer_order(0, 100);
    lemma_integer_exact(100);
    lemma_integer_exact(20);
    let x = bounded(a);
    let y = bounded(b);
    let hundred = of_integer(100);
    let twenty = of_integer(20);
    assert(x.magnitude() <= y.magnitude());
    let ux = units(x.magnitude());
    let uy = units(y.magnitude());
    if x.magnitude() < y.magnitude() {
        lemma_units_increase(x.magnitude(), y.magnitude());
    }
    let uh = units(hundred.magnitude());
    assert(uh > 0) by (nonlinear_arith)
        requires
            uh == 100 * unit,
            unit > 0,
    ;
    assert(!hundred.zero()) by {
        assert(units(0) == 0);
    }
    crate::binary64::arith::law_quotients_are_nearest(x, hundred);
    crate::binary64::arith::law_quotients_are_nearest(y, hundred);
    let p = quotient_of(x, hundred);
    let q = quotient_of(y, hundred);
    assert((ux * unit) * uh <= (uy * unit) * uh) by (nonlinear_arith)
        requires
            ux <= uy,
    ;
    lemma_nearest_monotone(ux * unit, uh, uy * unit, uh);
    crate::binary64::rounding::lemma_nearest_unique(ux * unit, uh, p.magnitude());
    crate::binary64::rounding::lemma_nearest_unique(uy * unit, uh, q.magnitude());
    assert(p.magnitude() <= q.magnitude());
    lemma_share_bounds(a);
    lemma_share_bounds(b);
    let up = units(p.magnitude());
    let uq = units(q.magnitude());
    if p.magnitude() < q.magnitude() {
        lemma_units_increase(p.magnitude(), q.magnitude());
    }
    let ut = units(twenty.magnitude());
    lemma_ratio_is_finite(x);
    lemma_ratio_is_finite(y);
    crate::binary64::arith::law_products_are_nearest(p, twenty);
    crate::binary64::arith::law_products_are_nearest(q, twenty);
    let s = product_of(p, twenty);
    let t = product_of(q, twenty);
    assert((up * ut) * unit <= (uq * ut) * unit) by (nonlinear_arith)
        requires
            up <= uq,
    ;
    lemma_nearest_monotone(up * ut, unit, uq * ut, unit);
    crate::binary64::rounding::lemma_nearest_unique(up * ut, unit, s.magnitude());
    crate::binary64::rounding::lemma_nearest_unique(uq * ut, unit, t.magnitude());
    let us = units(s.magnitude());
    let vt = units(t.magnitude());
    if s.magnitude() < t.magnitude() {
        lemma_units_increase(s.magnitude(), t.magnitude());
    }
    lemma_half_up_monotone(us, vt, unit);
}

/// A hundredth of a percentage is finite.
proof fn lemma_ratio_is_finite(x: Binary64)
    requires
        x.finite(),
        of_integer(0).at_most(x),
        x.at_most(of_integer(100)),
    ensures
        quotient_of(x, of_integer(100)).finite(),
{
    let unit = pow2(UNIT_BITS as nat);
    lemma_pow2_pos(UNIT_BITS as nat);
    lemma_integer_order(0, 100);
    lemma_integer_exact(100);
    lemma_integer_exact(1);
    let hundred = of_integer(100);
    let one = of_integer(1).magnitude();
    let ux = units(x.magnitude());
    let uh = units(hundred.magnitude());
    if x.magnitude() < hundred.magnitude() {
        lemma_units_increase(x.magnitude(), hundred.magnitude());
    }
    assert(uh > 0) by (nonlinear_arith)
        requires
            uh == 100 * unit,
            unit > 0,
    ;
    assert(!hundred.zero()) by {
        assert(units(0) == 0);
    }
    crate::binary64::arith::law_quotients_are_nearest(x, hundred);
    assert((ux * unit) * 1 <= unit * uh) by (nonlinear_arith)
        requires
            ux <= uh,
    ;
    assert(1 * unit == unit);
    lemma_nearest_monotone(ux * unit, uh, unit, 1);
    lemma_nearest_exact(one);
    crate::binary64::rounding::lemma_nearest_unique(ux * unit, uh, quotient_of(x, hundred).magnitude());
}

proof fn lemma_half_up_monotone(a: nat, b: nat, den: nat)
    requires
        a <= b,
        den > 0,
    ensures
        half_up(a, den) <= half_up(b, den),
{
    vstd::arithmetic::div_mod::lemma_fundamental_div_mod(a as int, den as int);
    vstd::arithmetic::div_mod::lemma_fundamental_div_mod(b as int, den as int);
    vstd::arithmetic::div_mod::lemma_div_is_ordered(a as int, b as int, den as int);
    let q = a / den;
    let r = b / den;
    if q == r {
        assert(a % den <= b % den);
    }
}

/// A bar is its filled cells, then its empty ones, between brackets; its color tells how much
/// of the window is gone.
pub proof fn law_bars_are_filled_from_the_left(percent: Binary64)
    ensures
        ({
            let n = filled_cells(percent);
            let bar = "["@ + repeated('█', n) + repeated('░', (20 - n) as nat) + "]"@;
            &&& bar_text(percent, false) == bar
            &&& percent.finite() && of_integer(90).at_most(percent) ==> bar_text(percent, true) == "\x1b[31m"@ + bar
                + "\x1b[0m"@
            &&& percent.finite() && of_integer(70).at_most(percent) && percent.less(of_integer(90)) ==> bar_text(
                percent,
                true,
            ) == "\x1b[33m"@ + bar + "\x1b[0m"@
            &&& percent.finite() && percent.less(of_integer(70)) ==> bar_text(percent, true) == "\x1b[32m"@ + bar
                + "\x1b[0m"@
        }),
{
    lemma_integer_order(0, 100);
    lemma_integer_order(0, 70);
    lemma_integer_order(70, 90);
    lemma_integer_order(90, 100);
}

/// The first line names the provider, the source and how well the service is doing.
pub proof fn law_the_first_line_names_the_provider(
    metadata: ProviderMetadata,
    result: FetchModel,
    readings: Readings,
    status: Option<StatusInfo>,
)
    ensures
        ({
            let plain = result_lines(metadata, result, readings, status, false)[0];
            let bright = result_lines(metadata, result, readings, status, true)[0];
            let name = metadata.display_name@;
            let source = result.source_label;
            &&& status is None ==> plain == name + " ("@ + source + ")"@
            &&& status is None ==> bright == "\x1b[1m"@ + name + "\x1b[0m"@ + " ("@ + source + ")"@
            &&& status is Some ==> plain == name + " ("@ + source + (")"@ + (" "@ + (match status->0.level {
                StatusLevel::Operational => "●"@,
                StatusLevel::Degraded => "◐"@,
                StatusLevel::Partial => "◑"@,
                StatusLevel::Major => "○"@,
                StatusLevel::Unknown => "?"@,
            })))
        }),
{
    let name = metadata.display_name@;
    let source = result.source_label;
    assert(")"@ + Seq::<char>::empty() =~= ")"@);
}

/// The mark of a status is set off in green, yellow, red or gray.
pub proof fn law_marks_have_their_colors(status: StatusInfo)
    ensures
        ({
            let mark = status_mark(Some(status), true);
            &&& status.level == StatusLevel::Operational ==> mark == " "@ + "\x1b[32m"@ + "●"@ + "\x1b[0m"@
            &&& status.level == StatusLevel::Degraded ==> mark == " "@ + "\x1b[33m"@ + "◐"@ + "\x1b[0m"@
            &&& status.level == StatusLevel::Partial ==> mark == " "@ + "\x1b[33m"@ + "◑"@ + "\x1b[0m"@
            &&& status.level == StatusLevel::Major ==> mark == " "@ + "\x1b[31m"@ + "○"@ + "\x1b[0m"@
            &&& status.level == StatusLevel::Unknown ==> mark == " "@ + "\x1b[90m"@ + "?"@ + "\x1b[0m"@
        }),
{
}

/// Behind the first line come the status where it is worth a word, the account, the plan, the
/// windows and at last the cost.
pub proof fn law_lines_come_in_order(
    metadata: ProviderMetadata,
    result: FetchModel,
    readings: Readings,
    status: Option<StatusInfo>,
    use_color: bool,
)
    ensures
        ({
            let lines = result_lines(metadata, result, readings, status, use_color);
            let windows = usage_lines(result.usage, metadata, readings, use_color);
            let told = status is Some && status->0.level != StatusLevel::Operational && status->0.level
                != StatusLevel::Unknown;
            let a = if told { 1int } else { 0int };
            let b = if result.usage.account_email is Some { 1int } else { 0int };
            let c = if result.usage.login_method is Some { 1int } else { 0int };
            let d = if result.cost is Some { 1int } else { 0int };
            let first = 1 + a + b + c;
            &&& lines.len() == first + windows.len() + d
            &&& told ==> lines[1] == "  Status: "@ + status->0.description@
            &&& result.usage.account_email is Some ==> lines[1 + a] == "  Account: "@ + result.usage.account_email->0
            &&& result.usage.login_method is Some ==> lines[1 + a + b] == "  Plan:    "@ + result.usage.login_method->0
            &&& forall|i: int| 0 <= i < windows.len() ==> #[trigger] windows[i] == lines[first + i]
            &&& result.cost is Some && readings.cost_limit is None ==> lines.last() == "  Cost:    "@
                + readings.cost_used@ + " ("@ + (result.cost->0.period + ")"@)
            &&& result.cost is Some && readings.cost_limit is Some ==> lines.last() == "  Cost:    "@
                + readings.cost_used@ + " / "@ + (readings.cost_limit->0@ + " ("@ + result.cost->0.period + ")"@)
        }),
{
}

/// The windows come in order: the primary lane with its pace, the secondary lane with its pace,
/// the lane of one model, the third lane under the name of its length, and the further ones
/// under their titles.
pub proof fn law_windows_come_in_order(
    usage: UsageModel,
    metadata: ProviderMetadata,
    readings: Readings,
    use_color: bool,
)
    ensures
        ({
            let lines = usage_lines(usage, metadata, readings, use_color);
            let paced = usage.primary.window_minutes is Some && (usage.primary.window_minutes->0 == 300
                || usage.primary.window_minutes->0 >= 10_080) && readings.primary.pace is Some;
            let a = if paced { 1int } else { 0int };
            let b = if usage.secondary is Some { 1int } else { 0int };
            let c = if usage.secondary is Some && readings.secondary.pace is Some { 1int } else { 0int };
            let d = if usage.model_specific is Some { 1int } else { 0int };
            let e = if usage.tertiary is Some { 1int } else { 0int };
            let extra = extra_lines(
                usage.extra_rate_windows,
                readings,
                usage.extra_rate_windows.len() as int,
                use_color,
            );
            let third = usage.tertiary->0;
            &&& lines.len() == 1 + a + b + c + d + e + extra.len()
            &&& paced ==> lines[1] == "  Pace:    "@ + readings.primary.pace->0.emoji@ + " "@
                + readings.primary.pace->0.status@
            &&& c == 1 ==> lines[1 + a + b] == "  Pace:    "@ + readings.secondary.pace->0.emoji@ + " "@
                + readings.secondary.pace->0.status@
            &&& d == 1 ==> lines[1 + a + b + c] == "  Opus:    "@ + bar_text(
                usage.model_specific->0.used_percent,
                use_color,
            ) + " "@ + (percent_text(usage.model_specific->0.used_percent) + " used"@)
            &&& e == 1 && third.window_minutes == Some(43_200u32) ==> lines[1 + a + b + c + d] == window_line(
                "Monthly"@,
                third,
                text_view(readings.tertiary_countdown),
                use_color,
            )
            &&& e == 1 && third.window_minutes != Some(43_200u32) ==> lines[1 + a + b + c + d] == window_line(
                "Tertiary"@,
                third,
                text_view(readings.tertiary_countdown),
                use_color,
            )
            &&& forall|i: int| 0 <= i < extra.len() ==> #[trigger] extra[i] == lines[1 + a + b + c + d + e + i]
        }),
{
}

/// A further window is listed under its title behind those before it, where its usage is known.
pub proof fn law_further_windows_are_listed(extra: Seq<NamedWindowModel>, readings: Readings, n: int, use_color: bool)
    requires
        0 <= n < extra.len(),
    ensures
        extra_lines(extra, readings, 0, use_color).len() == 0,
        extra[n].usage_known ==> extra_lines(extra, readings, n + 1, use_color) == extra_lines(
            extra,
            readings,
            n,
            use_color,
        ).push(
            window_line(
                extra[n].title,
                extra[n].window,
                if n < readings.extra_countdowns@.len() {
                    text_view(readings.extra_countdowns@[n])
                } else {
                    None
                },
                use_color,
            ),
        ),
        !extra[n].usage_known ==> extra_lines(extra, readings, n + 1, use_color) == extra_lines(
            extra,
            readings,
            n,
            use_color,
        ),
{
}

/// The brief line: the primary lane, the secondary lane, when the first lane that can be shown
/// resets, and the plan.
pub proof fn law_brief_lines_come_in_order(metadata: ProviderMetadata, usage: UsageModel, readings: Readings)
    ensures
        ({
            let parts = brief_parts(metadata, usage, readings);
            let first = label_or(usage.primary_label, metadata.session_label@);
            let second = label_or(usage.secondary_label, metadata.weekly_label@);
            let b = if usage.secondary is Some { 1int } else { 0int };
            let c = if usage.login_method is Some { 1int } else { 0int };
            let reset = if usage.primary.is_informational && usage.secondary is Some {
                readings.secondary.countdown
            } else {
                readings.primary.countdown
            };
            &&& parts.len() == 2 + b + c
            &&& usage.primary.is_informational ==> parts[0] == first + " unavailable"@
            &&& !usage.primary.is_informational ==> parts[0] == first + " "@ + percent_text(usage.primary.used_percent)
            &&& usage.secondary is Some ==> parts[1] == second + " "@ + percent_text(usage.secondary->0.used_percent)
            &&& reset is Some ==> parts[1 + b] == "resets "@ + reset->0@
            &&& reset is None ==> parts[1 + b] == "resets "@ + "n/a"@
            &&& usage.login_method is Some ==> parts[2 + b] == usage.login_method->0
        }),
        usage.primary_label is Some ==> label_or(usage.primary_label, metadata.session_label@)
            == usage.primary_label->0,
        label_or(None, metadata.session_label@) == metadata.session_label@,
{
}

/// The pace of the primary window is taken over its own length, where that is five hours or at
/// least a week, in JSON only where it is five hours; that of the secondary window over its
/// length, or over a week where it says none.
pub proof fn law_paces_are_taken_over_the_window(usage: UsageModel, minutes: u32)
    ensures
        usage.primary.window_minutes == Some(minutes) && (minutes == 300 || minutes >= 10080)
            ==> primary_pace_minutes_of(usage) == Some(minutes),
        usage.primary.window_minutes == Some(minutes) && minutes != 300 && minutes < 10080
            ==> primary_pace_minutes_of(usage) is None,
        usage.primary.window_minutes is None ==> primary_pace_minutes_of(usage) is None,
        json_primary_pace_minutes_of(usage) is Some <==> usage.primary.window_minutes == Some(300u32),
        json_primary_pace_minutes_of(usage) is Some ==> json_primary_pace_minutes_of(usage) == Some(300u32),
        secondary_pace_minutes_of(usage) is Some <==> usage.secondary is Some,
        usage.secondary is Some && usage.secondary->0.window_minutes is Some ==> secondary_pace_minutes_of(usage)
            == usage.secondary->0.window_minutes,
        usage.secondary is Some && usage.secondary->0.window_minutes is None ==> secondary_pace_minutes_of(usage)
            == Some(10080u32),
{
}

} // verus!
