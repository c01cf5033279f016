//! Usage windows in the answers of the Codex backend.
use crate::binary64::parse::{double_of_text, parse_double};
use crate::binary64::{of_integer, Binary64};
use crate::json::{Json, JsonTree};
use crate::snapshot::{
    cadence_of, idle_session_window, window_view, RateWindow, RateWindowCadence, WindowModel,
};
use crate::text::{
    concat2, concat4, decimal, decimal_of, integer_of_text, parse_integer, trim, trimmed,
};
use crate::timestamp::{from_unix, seconds_between, unix_instant, whole_seconds, Timestamp};
use vstd::prelude::*;

verus! {

/// A number, written as a number or as a text.
pub open spec fn number_in(tree: JsonTree) -> Option<Binary64> {
    match tree.double() {
        Some(x) => Some(x),
        None => match tree.integer() {
            Some(n) => Some(of_integer(n as int)),
            None => match tree.text() {
                Some(s) => double_of_text(trimmed(s)),
                None => None,
            },
        },
    }
}

pub fn json_double(value: &Json) -> (r: Option<Binary64>)
    ensures
        r == number_in(value.tree()),
{
    if let Some(x) = value.as_double() {
        return Some(x);
    }
    if let Some(n) = value.as_i64() {
        return Some(Binary64::from_integer(n));
    }
    match value.as_str() {
        Some(s) => {
            let t = trim(s);
            parse_double(t.as_str())
        },
        None => None,
    }
}

/// An integer, written as a number or as a text.
pub open spec fn integer_in(tree: JsonTree) -> Option<i64> {
    match tree.integer() {
        Some(n) => Some(n),
        None => match tree.text() {
            Some(s) => integer_of_text(trimmed(s)),
            None => None,
        },
    }
}

pub fn json_i64(value: &Json) -> (r: Option<i64>)
    ensures
        r == integer_in(value.tree()),
{
    if let Some(n) = value.as_i64() {
        return Some(n);
    }
    match value.as_str() {
        Some(s) => {
            let t = trim(s);
            parse_integer(t.as_str())
        },
        None => None,
    }
}

/// The used percentage that a window states.
pub open spec fn stated_percent(window: JsonTree) -> Option<Binary64> {
    let field = match window.field("used_percent"@) {
        Some(field) => Some(field),
        None => window.field("usage_percent"@),
    };
    match field {
        Some(field) => number_in(field),
        None => None,
    }
}

/// The integer that a field of a window states.
pub open spec fn stated_integer(window: JsonTree, name: Seq<char>) -> Option<i64> {
    match window.field(name) {
        Some(field) => integer_in(field),
        None => None,
    }
}

fn percent_field(window: &Json) -> (r: Option<Binary64>)
    ensures
        r == stated_percent(window.tree()),
{
    let field = match window.get("used_percent") {
        Some(field) => Some(field),
        None => window.get("usage_percent"),
    };
    match field {
        Some(field) => json_double(field),
        None => None,
    }
}

fn integer_field(window: &Json, name: &str) -> (r: Option<i64>)
    ensures
        r == stated_integer(window.tree(), name@),
{
    match window.get(name) {
        Some(field) => json_i64(field),
        None => None,
    }
}

/// Whole minutes, rounded toward zero, where they are a 32-bit count.
pub open spec fn minutes_in(seconds: i64) -> Option<u32> {
    let minutes = if seconds >= 0 {
        seconds as int / 60
    } else {
        -((-seconds) / 60)
    };
    if 0 <= minutes <= u32::MAX {
        Some(minutes as u32)
    } else {
        None
    }
}

pub fn minutes_of_seconds(seconds: i64) -> (r: Option<u32>)
    ensures
        r == minutes_in(seconds),
{
    if seconds < 0 {
        if seconds > -60 {
            Some(0)
        } else {
            None
        }
    } else if seconds / 60 <= 0xffff_ffff {
        Some((seconds / 60) as u32)
    } else {
        None
    }
}

/// The time left until a reset, in its two largest units.
pub open spec fn countdown(reset_at: Timestamp, now: Timestamp) -> Seq<char> {
    let span = whole_seconds(reset_at.total_nanos() - now.total_nanos());
    let seconds: nat = if span > 0 { span as nat } else { 0 };
    let hours = seconds / 3600;
    let minutes = seconds / 60 % 60;
    if !now.before(reset_at) {
        "now"@
    } else if hours >= 24 {
        if hours % 24 == 0 {
            decimal(hours / 24) + "d"@
        } else {
            decimal(hours / 24) + "d "@ + decimal(hours % 24) + "h"@
        }
    } else if hours > 0 {
        if minutes == 0 {
            decimal(hours) + "h"@
        } else {
            decimal(hours) + "h "@ + decimal(minutes) + "m"@
        }
    } else {
        decimal(minutes) + "m"@
    }
}

pub open spec fn countdown_view(reset_at: Option<Timestamp>, now: Timestamp) -> Option<Seq<char>> {
    match reset_at {
        Some(t) => Some(countdown(t, now)),
        None => None,
    }
}

/// The time left until a reset.
pub fn format_reset_countdown(reset_at: Option<Timestamp>, now: Timestamp) -> (r: Option<String>)
    ensures
        crate::json::text_view(r) == countdown_view(reset_at, now),
{
    let t = match reset_at {
        Some(t) => t,
        None => return None,
    };
    if !now.is_before(t) {
        return Some("now".to_string());
    }
    let span: i128 = seconds_between(t, now);
    let seconds: u128 = if span > 0 { span as u128 } else { 0 };
    let hours: u128 = seconds / 3600;
    let minutes: u128 = seconds / 60 % 60;
    if hours >= 24 {
        let days = decimal_of(hours / 24);
        if hours % 24 == 0 {
            Some(concat2(days.as_str(), "d"))
        } else {
            let rest = decimal_of(hours % 24);
            Some(concat4(days.as_str(), "d ", rest.as_str(), "h"))
        }
    } else if hours > 0 {
        let h = decimal_of(hours);
        if minutes == 0 {
            Some(concat2(h.as_str(), "h"))
        } else {
            let m = decimal_of(minutes);
            Some(concat4(h.as_str(), "h ", m.as_str(), "m"))
        }
    } else {
        let m = decimal_of(minutes);
        Some(concat2(m.as_str(), "m"))
    }
}

/// The window that an object describes.
pub open spec fn window_of(window: JsonTree, now: Timestamp) -> WindowModel {
    let resets_at = match stated_integer(window, "reset_at"@) {
        Some(secs) => unix_instant(secs),
        None => None,
    };
    WindowModel {
        used_percent: match stated_percent(window) {
            Some(x) => x,
            None => of_integer(0),
        },
        window_minutes: match stated_integer(window, "limit_window_seconds"@) {
            Some(seconds) => minutes_in(seconds),
            None => None,
        },
        resets_at,
        reset_description: countdown_view(resets_at, now),
        is_informational: false,
    }
}

pub fn parse_window(window: &Json, now: Timestamp) -> (r: RateWindow)
    ensures
        r@ == window_of(window.tree(), now),
{
    let used_percent = match percent_field(window) {
        Some(x) => x,
        None => Binary64::from_integer(0),
    };
    let window_minutes = match integer_field(window, "limit_window_seconds") {
        Some(seconds) => minutes_of_seconds(seconds),
        None => None,
    };
    let resets_at = match integer_field(window, "reset_at") {
        Some(secs) => from_unix(secs),
        None => None,
    };
    RateWindow::with_details(used_percent, window_minutes, resets_at, format_reset_countdown(resets_at, now))
}

/// A window that states neither usage, nor length, nor reset.
pub open spec fn is_placeholder(window: JsonTree) -> bool {
    &&& stated_percent(window) is None
    &&& stated_integer(window, "limit_window_seconds"@) is None
    &&& stated_integer(window, "reset_at"@) is None
}

pub fn is_placeholder_window(window: &Json) -> (r: bool)
    ensures
        r == is_placeholder(window.tree()),
{
    percent_field(window).is_none() && integer_field(window, "limit_window_seconds").is_none() && integer_field(
        window,
        "reset_at",
    ).is_none()
}

/// The window that a value describes, unless it is null or a placeholder.
pub open spec fn present_window(window: JsonTree, now: Timestamp) -> Option<WindowModel> {
    if window == JsonTree::Null || is_placeholder(window) {
        None
    } else {
        Some(window_of(window, now))
    }
}

pub fn parse_window_if_present(window: &Json, now: Timestamp) -> (r: Option<RateWindow>)
    ensures
        window_view(r) == present_window(window.tree(), now),
{
    if window.is_null() || is_placeholder_window(window) {
        None
    } else {
        Some(parse_window(window, now))
    }
}

/// What a window stands for.
#[derive(Clone, Copy, PartialEq, Eq, Structural, Debug)]
pub enum CodexWindowRole {
    Session,
    Weekly,
    Monthly,
    Unknown,
}

/// The role that the length of a window gives it.
pub open spec fn role_of(window: WindowModel) -> CodexWindowRole {
    match window.window_minutes {
        Some(minutes) => match cadence_of(minutes) {
            RateWindowCadence::Session => CodexWindowRole::Session,
            RateWindowCadence::Weekly => CodexWindowRole::Weekly,
            RateWindowCadence::Monthly => CodexWindowRole::Monthly,
            RateWindowCadence::Unknown => CodexWindowRole::Unknown,
        },
        None => CodexWindowRole::Unknown,
    }
}

pub fn codex_window_role(window: &RateWindow) -> (r: CodexWindowRole)
    ensures
        r == role_of(window@),
{
    match window.window_minutes {
        Some(minutes) => match RateWindowCadence::from_minutes(minutes) {
            RateWindowCadence::Session => CodexWindowRole::Session,
            RateWindowCadence::Weekly => CodexWindowRole::Weekly,
            RateWindowCadence::Monthly => CodexWindowRole::Monthly,
            RateWindowCadence::Unknown => CodexWindowRole::Unknown,
        },
        None => CodexWindowRole::Unknown,
    }
}

/// Session and weekly lane for the two named windows, by their length. They keep their
/// places unless one of them is known to belong elsewhere: a weekly window makes room for
/// one that is a session or of unknown length, and one of unknown length for a session.
pub open spec fn named_lanes(primary: Option<WindowModel>, secondary: Option<WindowModel>) -> (
    WindowModel,
    Option<WindowModel>,
) {
    match (primary, secondary) {
        (None, None) => (idle_session_window(), None),
        (Some(window), None) => single_lane(window),
        (None, Some(window)) => single_lane(window),
        (Some(first), Some(second)) => if role_of(first) == CodexWindowRole::Weekly && role_of(second)
            == CodexWindowRole::Unknown {
            (idle_session_window(), Some(first))
        } else if role_of(second) == CodexWindowRole::Session && (role_of(first) == CodexWindowRole::Weekly
            || role_of(first) == CodexWindowRole::Unknown) {
            (second, Some(first))
        } else {
            (first, Some(second))
        },
    }
}

pub open spec fn single_lane(window: WindowModel) -> (WindowModel, Option<WindowModel>) {
    if role_of(window) == CodexWindowRole::Weekly {
        (idle_session_window(), Some(window))
    } else {
        (window, None)
    }
}

pub open spec fn lanes_view(r: (RateWindow, Option<RateWindow>)) -> (WindowModel, Option<WindowModel>) {
    (r.0@, window_view(r.1))
}

fn place_single(window: RateWindow) -> (r: (RateWindow, Option<RateWindow>))
    ensures
        lanes_view(r) == single_lane(window@),
{
    if codex_window_role(&window) == CodexWindowRole::Weekly {
        (RateWindow::no_active_session(), Some(window))
    } else {
        (window, None)
    }
}

/// Places the named windows by their length.
pub fn normalize_named_windows(primary: Option<RateWindow>, secondary: Option<RateWindow>) -> (r: (
    RateWindow,
    Option<RateWindow>,
))
    ensures
        lanes_view(r) == named_lanes(window_view(primary), window_view(secondary)),
{
    match (primary, secondary) {
        (None, None) => (RateWindow::no_active_session(), None),
        (Some(window), None) => place_single(window),
        (None, Some(window)) => place_single(window),
        (Some(first), Some(second)) => {
            match (codex_window_role(&first), codex_window_role(&second)) {
                (CodexWindowRole::Weekly, CodexWindowRole::Session) => (second, Some(first)),
                (CodexWindowRole::Weekly, CodexWindowRole::Unknown) => (RateWindow::no_active_session(), Some(first)),
                (CodexWindowRole::Unknown, CodexWindowRole::Session) => (second, Some(first)),
                _ => (first, Some(second)),
            }
        },
    }
}

/// The lanes of a snapshot.
pub ghost struct Lanes {
    pub primary: WindowModel,
    pub secondary: Option<WindowModel>,
    pub monthly: Option<WindowModel>,
    pub code_review: Option<WindowModel>,
}

pub type LaneWindows = (RateWindow, Option<RateWindow>, Option<RateWindow>, Option<RateWindow>);

pub open spec fn lane_windows_view(r: LaneWindows) -> Lanes {
    Lanes {
        primary: r.0@,
        secondary: window_view(r.1),
        monthly: window_view(r.2),
        code_review: window_view(r.3),
    }
}

pub open spec fn windows_view(windows: Seq<RateWindow>) -> Seq<WindowModel> {
    windows.map_values(|w: RateWindow| w@)
}

/// The first of some windows with a role.
pub open spec fn first_with(windows: Seq<WindowModel>, role: CodexWindowRole) -> Option<WindowModel>
    decreases windows.len(),
{
    if windows.len() == 0 {
        None
    } else {
        match first_with(windows.drop_last(), role) {
            Some(window) => Some(window),
            None => if role_of(windows.last()) == role {
                Some(windows.last())
            } else {
                None
            },
        }
    }
}

/// The first window that finds no lane: its role is unknown, or an earlier window
/// has the same role.
pub open spec fn first_spare(windows: Seq<WindowModel>) -> Option<WindowModel>
    decreases windows.len(),
{
    if windows.len() == 0 {
        None
    } else {
        match first_spare(windows.drop_last()) {
            Some(window) => Some(window),
            None => if role_of(windows.last()) == CodexWindowRole::Unknown || first_with(
                windows.drop_last(),
                role_of(windows.last()),
            ) is Some {
                Some(windows.last())
            } else {
                None
            },
        }
    }
}

/// No window has a role.
pub open spec fn all_unknown(windows: Seq<WindowModel>) -> bool {
    forall|i: int| 0 <= i < windows.len() ==> role_of(#[trigger] windows[i]) == CodexWindowRole::Unknown
}

pub open spec fn at(windows: Seq<WindowModel>, i: int) -> Option<WindowModel> {
    if 0 <= i < windows.len() {
        Some(windows[i])
    } else {
        None
    }
}

/// The lanes of a list of windows, whatever their order. Only a list without any
/// known role is read by position.
pub open spec fn array_lanes(windows: Seq<WindowModel>) -> Lanes {
    if windows.len() == 0 {
        Lanes { primary: idle_session_window(), secondary: None, monthly: None, code_review: None }
    } else if all_unknown(windows) {
        Lanes {
            primary: windows[0],
            secondary: at(windows, 1),
            monthly: at(windows, 2),
            code_review: at(windows, 3),
        }
    } else {
        Lanes {
            primary: match first_with(windows, CodexWindowRole::Session) {
                Some(window) => window,
                None => idle_session_window(),
            },
            secondary: first_with(windows, CodexWindowRole::Weekly),
            monthly: first_with(windows, CodexWindowRole::Monthly),
            code_review: first_spare(windows),
        }
    }
}

fn has_known_role(windows: &Vec<RateWindow>) -> (r: bool)
    ensures
        r == !all_unknown(windows_view(windows@)),
{
    let mut i: usize = 0;
    while i < windows.len()
        invariant
            i <= windows@.len(),
            forall|k: int| 0 <= k < i ==> role_of((#[trigger] windows@[k])@) == CodexWindowRole::Unknown,
        decreases windows@.len() - i,
    {
        if codex_window_role(&windows[i]) != CodexWindowRole::Unknown {
            assert(role_of(windows_view(windows@)[i as int]) != CodexWindowRole::Unknown);
            return true;
        }
        i = i + 1;
    }
    proof {
        assert forall|k: int| 0 <= k < windows_view(windows@).len() implies role_of(
            #[trigger] windows_view(windows@)[k],
        ) == CodexWindowRole::Unknown by {
            assert(role_of(windows@[k]@) == CodexWindowRole::Unknown);
        }
    }
    false
}

fn duplicate_at(windows: &Vec<RateWindow>, i: usize) -> (r: Option<RateWindow>)
    ensures
        window_view(r) == at(windows_view(windows@), i as int),
{
    if i < windows.len() {
        Some(windows[i].duplicate())
    } else {
        None
    }
}

/// Places a list of windows by their length.
pub fn normalize_array_windows(windows: Vec<RateWindow>) -> (r: LaneWindows)
    ensures
        lane_windows_view(r) == array_lanes(windows_view(windows@)),
{
    if windows.len() == 0 {
        return (RateWindow::no_active_session(), None, None, None);
    }
    let ghost all = windows_view(windows@);
    if !has_known_role(&windows) {
        return (
            windows[0].duplicate(),
            duplicate_at(&windows, 1),
            duplicate_at(&windows, 2),
            duplicate_at(&windows, 3),
        );
    }
    let mut session: Option<RateWindow> = None;
    let mut weekly: Option<RateWindow> = None;
    let mut monthly: Option<RateWindow> = None;
    let mut spare: Option<RateWindow> = None;
    let mut i: usize = 0;
    while i < windows.len()
        invariant
            i <= windows@.len(),
            all == windows_view(windows@),
            window_view(session) == first_with(all.take(i as int), CodexWindowRole::Session),
            window_view(weekly) == first_with(all.take(i as int), CodexWindowRole::Weekly),
            window_view(monthly) == first_with(all.take(i as int), CodexWindowRole::Monthly),
            window_view(spare) == first_spare(all.take(i as int)),
        decreases windows@.len() - i,
    {
        let window = windows[i].duplicate();
        proof {
            assert(all.take(i + 1).drop_last() =~= all.take(i as int));
            assert(all.take(i + 1).last() == windows@[i as int]@);
        }
        match codex_window_role(&window) {
            CodexWindowRole::Session if session.is_none() => {
                session = Some(window);
            },
            CodexWindowRole::Weekly if weekly.is_none() => {
                weekly = Some(window);
            },
            CodexWindowRole::Monthly if monthly.is_none() => {
                monthly = Some(window);
            },
            _ => {
                if spare.is_none() {
                    spare = Some(window);
                }
            },
        }
        i = i + 1;
    }
    proof {
        assert(all.take(i as int) =~= all);
    }
    let primary = match session {
        Some(window) => window,
        None => RateWindow::no_active_session(),
    };
    (primary, weekly, monthly, spare)
}

/// A weekly window takes the session lane only where the window beside it is weekly or
/// monthly too.
pub proof fn law_weekly_windows_leave_the_session_lane(primary: Option<WindowModel>, secondary: Option<WindowModel>)
    requires
        !(primary is Some && secondary is Some && role_of(primary->0) == CodexWindowRole::Weekly && (role_of(
            secondary->0,
        ) == CodexWindowRole::Weekly || role_of(secondary->0) == CodexWindowRole::Monthly)),
    ensures
        role_of(named_lanes(primary, secondary).0) != CodexWindowRole::Weekly,
{
}

proof fn lemma_first_with(windows: Seq<WindowModel>, role: CodexWindowRole)
    ensures
        match first_with(windows, role) {
            Some(window) => role_of(window) == role && windows.contains(window),
            None => forall|i: int| 0 <= i < windows.len() ==> role_of(#[trigger] windows[i]) != role,
        },
    decreases windows.len(),
{
    if windows.len() > 0 {
        let rest = windows.drop_last();
        lemma_first_with(rest, role);
        match first_with(rest, role) {
            Some(window) => {
                let i = choose|i: int| 0 <= i < rest.len() && rest[i] == window;
                assert(windows[i] == window);
            },
            None => {
                assert(windows.contains(windows.last()));
                assert forall|i: int| 0 <= i < windows.len() - 1 implies role_of(#[trigger] windows[i]) != role by {
                    assert(windows[i] == rest[i]);
                }
            },
        }
    }
}

/// In a list where any role is known, each lane holds only windows of its own role.
pub proof fn law_lanes_hold_their_own_role(windows: Seq<WindowModel>)
    requires
        !all_unknown(windows),
    ensures
        role_of(array_lanes(windows).primary) == CodexWindowRole::Session,
        array_lanes(windows).secondary is Some ==> role_of(array_lanes(windows).secondary->0)
            == CodexWindowRole::Weekly,
        array_lanes(windows).monthly is Some ==> role_of(array_lanes(windows).monthly->0)
            == CodexWindowRole::Monthly,
{
    lemma_first_with(windows, CodexWindowRole::Session);
    lemma_first_with(windows, CodexWindowRole::Weekly);
    lemma_first_with(windows, CodexWindowRole::Monthly);
}

/// No two of the windows have the same role.
pub open spec fn distinct_roles(windows: Seq<WindowModel>) -> bool {
    forall|i: int, j: int| 0 <= i < j < windows.len() ==> role_of(#[trigger] windows[i]) != role_of(#[trigger] windows[j])
}

proof fn lemma_spare_is_unknown(windows: Seq<WindowModel>)
    requires
        distinct_roles(windows),
    ensures
        first_spare(windows) == first_with(windows, CodexWindowRole::Unknown),
    decreases windows.len(),
{
    if windows.len() > 0 {
        let rest = windows.drop_last();
        assert(distinct_roles(rest)) by {
            assert forall|i: int, j: int| 0 <= i < j < rest.len() implies role_of(#[trigger] rest[i]) != role_of(
                #[trigger] rest[j],
            ) by {
                assert(rest[i] == windows[i] && rest[j] == windows[j]);
            }
        }
        lemma_spare_is_unknown(rest);
        let role = role_of(windows.last());
        lemma_first_with(rest, role);
        if first_with(rest, role) is Some {
            let i = choose|i: int| 0 <= i < rest.len() && rest[i] == first_with(rest, role)->0;
            assert(role_of(windows[i]) != role_of(windows[windows.len() - 1]));
        }
    }
}

proof fn lemma_same_first(a: Seq<WindowModel>, b: Seq<WindowModel>, role: CodexWindowRole)
    requires
        distinct_roles(a),
        distinct_roles(b),
        forall|w: WindowModel| a.contains(w) == b.contains(w),
    ensures
        first_with(a, role) == first_with(b, role),
{
    lemma_first_with(a, role);
    lemma_first_with(b, role);
    if first_with(a, role) is Some {
        let w = first_with(a, role)->0;
        assert(b.contains(w));
        let i = choose|i: int| 0 <= i < b.len() && b[i] == w;
        assert(role_of(b[i]) == role);
        let v = first_with(b, role)->0;
        let j = choose|j: int| 0 <= j < b.len() && b[j] == v;
        assert(i == j) by {
            if i < j {
                assert(role_of(b[i]) != role_of(b[j]));
            } else if j < i {
                assert(role_of(b[j]) != role_of(b[i]));
            }
        }
    } else if first_with(b, role) is Some {
        let w = first_with(b, role)->0;
        assert(a.contains(w));
        let i = choose|i: int| 0 <= i < a.len() && a[i] == w;
        assert(role_of(a[i]) == role);
    }
}

/// Where every role occurs at most once and one of them is known, the lanes do not depend
/// on the order of the list.
pub proof fn law_lanes_do_not_depend_on_the_order(a: Seq<WindowModel>, b: Seq<WindowModel>)
    requires
        distinct_roles(a),
        distinct_roles(b),
        forall|w: WindowModel| a.contains(w) == b.contains(w),
        !all_unknown(a),
    ensures
        array_lanes(a) == array_lanes(b),
{
    let i = choose|i: int| 0 <= i < a.len() && role_of(#[trigger] a[i]) != CodexWindowRole::Unknown;
    assert(a.contains(a[i]));
    let j = choose|j: int| 0 <= j < b.len() && b[j] == a[i];
    assert(role_of(b[j]) != CodexWindowRole::Unknown);
    lemma_same_first(a, b, CodexWindowRole::Session);
    lemma_same_first(a, b, CodexWindowRole::Weekly);
    lemma_same_first(a, b, CodexWindowRole::Monthly);
    lemma_same_first(a, b, CodexWindowRole::Unknown);
    lemma_spare_is_unknown(a);
    lemma_spare_is_unknown(b);
}

/// A number counts as it is, and a text counts as the number that it spells; nothing else counts.
pub proof fn law_numbers_may_be_texts(n: crate::json::NumberModel, s: Seq<char>, b: bool)
    ensures
        n.double is Some ==> number_in(JsonTree::Number(n)) == n.double,
        number_in(JsonTree::Text(s)) == double_of_text(trimmed(s)),
        number_in(JsonTree::Null) is None && number_in(JsonTree::Bool(b)) is None,
        n.integer is Some ==> integer_in(JsonTree::Number(n)) == n.integer,
        integer_in(JsonTree::Text(s)) == integer_of_text(trimmed(s)),
        integer_in(JsonTree::Null) is None && integer_in(JsonTree::Bool(b)) is None,
{
}

/// A window states its percentage under `used_percent`, or else under `usage_percent`; its
/// length in minutes is the sixtieth part of `limit_window_seconds`; and it resets at the Unix
/// time under `reset_at`.
pub proof fn law_windows_state_their_fields(window: JsonTree, now: Timestamp)
    ensures
        ({
            let w = window_of(window, now);
            let percent = window.field("used_percent"@);
            let seconds = window.field("limit_window_seconds"@);
            let reset = window.field("reset_at"@);
            &&& !w.is_informational
            &&& percent is Some && number_in(percent->0) is Some ==> w.used_percent == number_in(percent->0)->0
            &&& percent is None && window.field("usage_percent"@) is Some && number_in(
                window.field("usage_percent"@)->0,
            ) is Some ==> w.used_percent == number_in(window.field("usage_percent"@)->0)->0
            &&& percent is None && window.field("usage_percent"@) is None ==> w.used_percent == of_integer(0)
            &&& seconds is None || integer_in(seconds->0) is None ==> w.window_minutes is None
            &&& seconds is Some && integer_in(seconds->0) is Some ==> {
                let s = integer_in(seconds->0)->0;
                &&& 0 <= s && s / 60 <= u32::MAX ==> w.window_minutes == Some((s / 60) as u32)
                &&& s / 60 > u32::MAX || s <= -60 ==> w.window_minutes is None
            }
            &&& reset is None || integer_in(reset->0) is None ==> w.resets_at is None && w.reset_description is None
            &&& reset is Some && integer_in(reset->0) is Some ==> {
                &&& w.resets_at == unix_instant(integer_in(reset->0)->0)
                &&& w.resets_at is Some ==> w.reset_description == Some(countdown(w.resets_at->0, now))
            }
        }),
{
}

/// A window says nothing where it states neither percentage, nor length, nor reset; only such
/// a window, or none at all, is left out.
pub proof fn law_only_empty_windows_are_left_out(window: JsonTree, now: Timestamp)
    ensures
        present_window(JsonTree::Null, now) is None,
        present_window(window, now) is Some ==> present_window(window, now)->0 == window_of(window, now),
        window is Object && window.field("used_percent"@) is Some && number_in(
            window.field("used_percent"@)->0,
        ) is Some ==> present_window(window, now) is Some,
        window is Object && window.field("limit_window_seconds"@) is Some && integer_in(
            window.field("limit_window_seconds"@)->0,
        ) is Some ==> present_window(window, now) is Some,
        window is Object && window.field("reset_at"@) is Some && integer_in(window.field("reset_at"@)->0) is Some
            ==> present_window(window, now) is Some,
        window.field("used_percent"@) is None && window.field("usage_percent"@) is None && window.field(
            "limit_window_seconds"@,
        ) is None && window.field("reset_at"@) is None ==> present_window(window, now) is None,
{
}

/// Five hours are a session, seven days a week and thirty days a month; any other length has
/// no role.
pub proof fn law_lengths_give_roles(window: WindowModel)
    ensures
        role_of(window) == CodexWindowRole::Session <==> window.window_minutes == Some(300u32),
        role_of(window) == CodexWindowRole::Weekly <==> window.window_minutes == Some(10_080u32),
        role_of(window) == CodexWindowRole::Monthly <==> window.window_minutes == Some(43_200u32),
{
}

/// A countdown names the two largest of days, hours and minutes that are left, and no smaller
/// one; what has passed is `now`.
pub proof fn law_countdowns_name_what_is_left(
    reset_at: Timestamp,
    now: Timestamp,
    days: nat,
    hours: nat,
    minutes: nat,
    nanos: nat,
)
    requires
        hours < 24,
        minutes < 60,
        nanos < 60_000_000_000,
        reset_at.nanos < 1_000_000_000 && now.nanos < 1_000_000_000,
        reset_at.total_nanos() - now.total_nanos() == ((days * 24 + hours) * 60 + minutes) * 60_000_000_000 + nanos,
    ensures
        days == 0 && hours == 0 && minutes == 0 && nanos == 0 ==> countdown(reset_at, now) == "now"@,
        days == 0 && hours == 0 && minutes + nanos > 0 ==> countdown(reset_at, now) == decimal(minutes) + "m"@,
        days == 0 && hours > 0 && minutes == 0 ==> countdown(reset_at, now) == decimal(hours) + "h"@,
        days == 0 && hours > 0 && minutes > 0 ==> countdown(reset_at, now) == decimal(hours) + "h "@ + decimal(minutes)
            + "m"@,
        days > 0 && hours == 0 ==> countdown(reset_at, now) == decimal(days) + "d"@,
        days > 0 && hours > 0 ==> countdown(reset_at, now) == decimal(days) + "d "@ + decimal(hours) + "h"@,
{
    let span = reset_at.total_nanos() - now.total_nanos();
    let total = (days * 24 + hours) * 60 + minutes;
    let seconds = span / 1_000_000_000;
    assert(seconds == total * 60 + nanos / 1_000_000_000);
    assert(nanos / 1_000_000_000 < 60);
    assert(seconds / 60 == total);
    assert(seconds / 3600 == days * 24 + hours);
    assert(total % 60 == minutes);
    assert((days * 24 + hours) / 24 == days);
    assert((days * 24 + hours) % 24 == hours);
}

/// A reset that has come or passed is `now`.
pub proof fn law_passed_resets_are_now(reset_at: Timestamp, now: Timestamp)
    requires
        !now.before(reset_at),
    ensures
        countdown(reset_at, now) == "now"@,
{
}

/// The two named windows: each that is known to be a session or a week stands in its own lane,
/// whichever of the two names it came under, and nothing that is known is lost.
pub proof fn law_named_windows_reach_their_lanes(a: WindowModel, b: WindowModel)
    ensures
        role_of(a) == CodexWindowRole::Session && role_of(b) == CodexWindowRole::Weekly ==> {
            &&& named_lanes(Some(a), Some(b)) == (a, Some(b))
            &&& named_lanes(Some(b), Some(a)) == (a, Some(b))
        },
        role_of(a) == CodexWindowRole::Session ==> {
            &&& named_lanes(Some(a), None) == (a, None::<WindowModel>)
            &&& named_lanes(None, Some(a)) == (a, None::<WindowModel>)
        },
        role_of(b) == CodexWindowRole::Weekly ==> {
            &&& named_lanes(Some(b), None) == (idle_session_window(), Some(b))
            &&& named_lanes(None, Some(b)) == (idle_session_window(), Some(b))
        },
        role_of(a) == CodexWindowRole::Session && role_of(b) == CodexWindowRole::Unknown ==> named_lanes(
            Some(b),
            Some(a),
        ) == (a, Some(b)) && named_lanes(Some(a), Some(b)) == (a, Some(b)),
        role_of(a) == CodexWindowRole::Unknown && role_of(b) == CodexWindowRole::Weekly ==> named_lanes(
            Some(a),
            Some(b),
        ) == (a, Some(b)) && named_lanes(Some(b), Some(a)) == (idle_session_window(), Some(b)),
        named_lanes(None, None) == (idle_session_window(), None::<WindowModel>),
        idle_session_window().is_informational,
        idle_session_window().used_percent == of_integer(0),
        idle_session_window().reset_description == Some("No active 5h session"@),
{
}

/// In a list the first window of each known role takes the lane of that role.
pub proof fn law_listed_windows_reach_their_lanes(windows: Seq<WindowModel>, i: int)
    requires
        0 <= i < windows.len(),
        role_of(windows[i]) != CodexWindowRole::Unknown,
        forall|j: int| 0 <= j < i ==> role_of(#[trigger] windows[j]) != role_of(windows[i]),
    ensures
        role_of(windows[i]) == CodexWindowRole::Session ==> array_lanes(windows).primary == windows[i],
        role_of(windows[i]) == CodexWindowRole::Weekly ==> array_lanes(windows).secondary == Some(windows[i]),
        role_of(windows[i]) == CodexWindowRole::Monthly ==> array_lanes(windows).monthly == Some(windows[i]),
{
    assert(!all_unknown(windows));
    lemma_first_is(windows, i);
}

proof fn lemma_first_is(windows: Seq<WindowModel>, i: int)
    requires
        0 <= i < windows.len(),
        forall|j: int| 0 <= j < i ==> role_of(#[trigger] windows[j]) != role_of(windows[i]),
    ensures
        first_with(windows, role_of(windows[i])) == Some(windows[i]),
    decreases windows.len(),
{
    let rest = windows.drop_last();
    if i < windows.len() - 1 {
        assert(rest[i] == windows[i]);
        assert forall|j: int| 0 <= j < i implies role_of(#[trigger] rest[j]) != role_of(rest[i]) by {
            assert(rest[j] == windows[j]);
        }
        lemma_first_is(rest, i);
    } else {
        lemma_first_with(rest, role_of(windows[i]));
        if first_with(rest, role_of(windows[i])) is Some {
            let w = first_with(rest, role_of(windows[i]))->0;
            let j = choose|j: int| 0 <= j < rest.len() && rest[j] == w;
            assert(windows[j] == w);
        }
    }
}

/// A list without a window of a role leaves the lane of that role empty.
pub proof fn law_missing_roles_leave_their_lanes_empty(windows: Seq<WindowModel>, role: CodexWindowRole)
    requires
        !all_unknown(windows),
        forall|j: int| 0 <= j < windows.len() ==> role_of(#[trigger] windows[j]) != role,
    ensures
        role == CodexWindowRole::Session ==> array_lanes(windows).primary == idle_session_window(),
        role == CodexWindowRole::Weekly ==> array_lanes(windows).secondary is None,
        role == CodexWindowRole::Monthly ==> array_lanes(windows).monthly is None,
{
    lemma_first_with(windows, role);
    if first_with(windows, role) is Some {
        let w = first_with(windows, role)->0;
        let j = choose|j: int| 0 <= j < windows.len() && windows[j] == w;
        assert(role_of(windows[j]) == role);
    }
}

/// Where every role occurs at most once and one is known, the window without a role takes the
/// lane of code reviews.
pub proof fn law_the_odd_window_is_the_code_review(windows: Seq<WindowModel>, i: int)
    requires
        distinct_roles(windows),
        !all_unknown(windows),
        0 <= i < windows.len(),
        role_of(windows[i]) == CodexWindowRole::Unknown,
    ensures
        array_lanes(windows).code_review == Some(windows[i]),
{
    lemma_spare_is_unknown(windows);
    assert forall|j: int| 0 <= j < i implies role_of(#[trigger] windows[j]) != role_of(windows[i]) by {}
    lemma_first_is(windows, i);
}

/// A list without any known role is read by position.
pub proof fn law_unknown_windows_keep_their_places(windows: Seq<WindowModel>)
    requires
        all_unknown(windows),
    ensures
        windows.len() == 0 ==> array_lanes(windows).primary == idle_session_window(),
        windows.len() > 0 ==> array_lanes(windows).primary == windows[0],
        windows.len() > 1 ==> array_lanes(windows).secondary == Some(windows[1]),
        windows.len() > 2 ==> array_lanes(windows).monthly == Some(windows[2]),
        windows.len() > 3 ==> array_lanes(windows).code_review == Some(windows[3]),
        windows.len() <= 1 ==> array_lanes(windows).secondary is None,
        windows.len() <= 2 ==> array_lanes(windows).monthly is None,
        windows.len() <= 3 ==> array_lanes(windows).code_review is None,
{
}

} // verus!
