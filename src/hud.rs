//! The text of the heads-up display: gauges drawn with characters, and the
//! lines of the status, equipment and upgrade panels.
use vstd::prelude::*;
use crate::text::{
    decimal, decimal_spec, pad_left, pad_left_spec, pad_right, pad_right_spec, push_char,
    push_repeated, push_text, repeat_spec, repeated,
};

verus! {

/// Width in characters of every gauge on the display.
pub const GAUGE_WIDTH: usize = 10;

/// Width of the column that labels are left-aligned in.
pub const LABEL_WIDTH: usize = 8;

/// Width of the column that equipment names are right-aligned in.
pub const EQUIPMENT_NAME_WIDTH: usize = 16;

/// Number of lines in the status panel.
pub const STATUS_LINES: usize = 5;

/// Number of lines in the equipment and upgrade panels.
pub const LIST_LINES: usize = 10;

/// The panels of the heads-up display.
#[derive(Clone, Copy, Debug, PartialEq, Eq, Structural)]
pub enum UINode {
    Status,
    Equipment,
    Upgrades,
}

impl UINode {
    pub open spec fn slots_spec(self) -> nat {
        match self {
            UINode::Status => STATUS_LINES as nat,
            UINode::Equipment => LIST_LINES as nat,
            UINode::Upgrades => LIST_LINES as nat,
        }
    }

    /// How many lines of text the panel has.
    pub fn slots(&self) -> (r: usize)
        ensures
            r == self.slots_spec(),
    {
        match self {
            UINode::Status => STATUS_LINES,
            UINode::Equipment => LIST_LINES,
            UINode::Upgrades => LIST_LINES,
        }
    }
}

/// How many of the `width` cells of a gauge are filled: the share of
/// `current` (capped at `max`) in `max`, rounded down.
pub open spec fn filled_spec(current: nat, max: nat, width: nat) -> nat
    recommends
        max > 0,
{
    let c = if current < max { current } else { max };
    (c * width / max) as nat
}

/// A gauge of `width` characters: filled cells `|`, then empty cells `.`.
/// With no maximum there is nothing to measure and the gauge is blank.
pub open spec fn bar_spec(current: nat, max: nat, width: nat) -> Seq<char> {
    if max == 0 {
        repeat_spec(' ', width)
    } else {
        let filled = filled_spec(current, max, width);
        repeat_spec('|', filled) + repeat_spec('.', (width - filled) as nat)
    }
}

proof fn lemma_filled_bounded(c: nat, max: nat, width: nat)
    requires
        0 < max,
        c <= max,
    ensures
        c * width / max <= width,
{
    assert(c * width <= max * width) by (nonlinear_arith)
        requires
            c <= max,
    ;
    assert(max * width / max == width) by (nonlinear_arith)
        requires
            0 < max,
    ;
    assert(c * width / max <= max * width / max) by (nonlinear_arith)
        requires
            c * width <= max * width,
            0 < max,
    ;
}

/// Draws a gauge of `width` characters for `current` out of `max`.
pub fn bar(current: usize, max: usize, width: usize) -> (r: String)
    ensures
        r@ == bar_spec(current as nat, max as nat, width as nat),
{
    if max == 0 {
        return repeated(' ', width);
    }
    let c: usize = if current < max { current } else { max };
    assert((c as nat) * (width as nat) <= u128::MAX) by (nonlinear_arith)
        requires
            c <= usize::MAX,
            width <= usize::MAX,
            usize::MAX <= u64::MAX,
    ;
    let product: u128 = (c as u128) * (width as u128);
    let filled128: u128 = product / (max as u128);
    proof {
        lemma_filled_bounded(c as nat, max as nat, width as nat);
    }
    let filled: usize = filled128 as usize;
    assert(filled == filled_spec(current as nat, max as nat, width as nat));
    let mut r = String::new();
    push_repeated(&mut r, '|', filled);
    push_repeated(&mut r, '.', width - filled);
    assert(r@ =~= bar_spec(current as nat, max as nat, width as nat));
    r
}

/// A label in its column, a gauge and a figure: `"Armor    ||||...... 40"`.
pub open spec fn status_line_spec(label: Seq<char>, current: nat, max: nat, value: nat) -> Seq<
    char,
> {
    pad_right_spec(label, LABEL_WIDTH as nat) + seq![' '] + bar_spec(
        current,
        max,
        GAUGE_WIDTH as nat,
    ) + seq![' '] + decimal_spec(value)
}

/// The line of a gauge with the figure it measures (armor, shield).
pub fn status_line(label: &str, current: usize, max: usize, value: usize) -> (r: String)
    ensures
        r@ == status_line_spec(label@, current as nat, max as nat, value as nat),
{
    let mut r = pad_right(label, LABEL_WIDTH);
    push_char(&mut r, ' ');
    let gauge = bar(current, max, GAUGE_WIDTH);
    push_text(&mut r, gauge.as_str());
    push_char(&mut r, ' ');
    let figure = decimal(value as u64);
    push_text(&mut r, figure.as_str());
    assert(r@ =~= status_line_spec(label@, current as nat, max as nat, value as nat));
    r
}

/// A number written with at least two digits, zeros in front.
pub open spec fn two_digits_spec(n: nat) -> Seq<char> {
    pad_left_spec(decimal_spec(n), '0', 2)
}

fn two_digits(n: u64) -> (r: String)
    ensures
        r@ == two_digits_spec(n as nat),
{
    let d = decimal(n);
    pad_left(d.as_str(), '0', 2)
}

/// The level line: a gauge of the cargo gathered toward the next level,
/// then the level in two digits.
pub open spec fn level_line_spec(label: Seq<char>, cargo: nat, required: nat, level: nat) -> Seq<
    char,
> {
    pad_right_spec(label, LABEL_WIDTH as nat) + seq![' '] + bar_spec(
        cargo,
        required,
        GAUGE_WIDTH as nat,
    ) + seq![' '] + two_digits_spec(level)
}

/// The line of the player's level and the progress toward the next one.
pub fn level_line(label: &str, cargo: usize, required: usize, level: u64) -> (r: String)
    ensures
        r@ == level_line_spec(label@, cargo as nat, required as nat, level as nat),
{
    let mut r = pad_right(label, LABEL_WIDTH);
    push_char(&mut r, ' ');
    let gauge = bar(cargo, required, GAUGE_WIDTH);
    push_text(&mut r, gauge.as_str());
    push_char(&mut r, ' ');
    let lv = two_digits(level);
    push_text(&mut r, lv.as_str());
    assert(r@ =~= level_line_spec(label@, cargo as nat, required as nat, level as nat));
    r
}

/// The speed line: the label in its column, the speed as written by the
/// caller, and the unit.
pub open spec fn speed_line_spec(label: Seq<char>, speed: Seq<char>) -> Seq<char> {
    pad_right_spec(label, LABEL_WIDTH as nat) + seq![' '] + speed + seq![' ', 'm', '/', 's']
}

/// The line of the ship's speed, `speed` being its figure already written
/// out.
pub fn speed_line(label: &str, speed: &str) -> (r: String)
    ensures
        r@ == speed_line_spec(label@, speed@),
{
    let mut r = pad_right(label, LABEL_WIDTH);
    push_char(&mut r, ' ');
    push_text(&mut r, speed);
    push_char(&mut r, ' ');
    push_char(&mut r, 'm');
    push_char(&mut r, '/');
    push_char(&mut r, 's');
    assert(r@ =~= speed_line_spec(label@, speed@));
    r
}

/// The clock line: whole minutes and the seconds past them, two digits
/// each, as `mm:ss`.
pub open spec fn time_line_spec(label: Seq<char>, elapsed_secs: nat) -> Seq<char> {
    pad_right_spec(label, LABEL_WIDTH as nat) + seq![' '] + two_digits_spec(elapsed_secs / 60)
        + seq![':'] + two_digits_spec(elapsed_secs % 60)
}

/// The line of the time played, from the whole seconds elapsed.
pub fn time_line(label: &str, elapsed_secs: u64) -> (r: String)
    ensures
        r@ == time_line_spec(label@, elapsed_secs as nat),
{
    let mut r = pad_right(label, LABEL_WIDTH);
    push_char(&mut r, ' ');
    let minutes = two_digits(elapsed_secs / 60);
    push_text(&mut r, minutes.as_str());
    push_char(&mut r, ':');
    let seconds = two_digits(elapsed_secs % 60);
    push_text(&mut r, seconds.as_str());
    assert(r@ =~= time_line_spec(label@, elapsed_secs as nat));
    r
}

/// The key under which an equipment class name is looked up for display:
/// the name right-aligned in its column.
pub fn equipment_key(class_name: &str) -> (r: String)
    ensures
        r@ == pad_left_spec(class_name@, ' ', EQUIPMENT_NAME_WIDTH as nat),
{
    pad_left(class_name, ' ', EQUIPMENT_NAME_WIDTH)
}

/// An equipment line: how far the weapon has recharged, in tenths, as a
/// gauge, then its name right-aligned.
pub open spec fn equipment_line_spec(charge_tenths: nat, name: Seq<char>) -> Seq<char> {
    bar_spec(charge_tenths, 10, GAUGE_WIDTH as nat) + seq![' '] + pad_left_spec(
        name,
        ' ',
        EQUIPMENT_NAME_WIDTH as nat,
    )
}

/// The line of one weapon, its recharge given in tenths.
pub fn equipment_line(charge_tenths: usize, name: &str) -> (r: String)
    ensures
        r@ == equipment_line_spec(charge_tenths as nat, name@),
{
    let mut r = bar(charge_tenths, 10, GAUGE_WIDTH);
    push_char(&mut r, ' ');
    let n = pad_left(name, ' ', EQUIPMENT_NAME_WIDTH);
    push_text(&mut r, n.as_str());
    assert(r@ =~= equipment_line_spec(charge_tenths as nat, name@));
    r
}

/// Fits a list of lines to a panel of `n` lines: the first `n` lines are
/// kept, and blank lines fill up what is missing.
pub fn fit_lines(lines: Vec<String>, n: usize) -> (r: Vec<String>)
    ensures
        r@.len() == n,
        forall|i: int| 0 <= i < n && i < lines@.len() ==> #[trigger] r@[i]@ == lines@[i]@,
        forall|i: int| lines@.len() <= i < n ==> #[trigger] r@[i]@.len() == 0,
{
    let mut r = lines;
    r.truncate(n);
    let ghost kept = r@;
    while r.len() < n
        invariant
            r@.len() <= n,
            kept.len() <= r@.len(),
            kept.len() == if lines@.len() < n { lines@.len() } else { n as nat },
            forall|i: int| 0 <= i < kept.len() ==> #[trigger] r@[i] == lines@[i],
            forall|i: int| kept.len() <= i < r@.len() ==> #[trigger] r@[i]@.len() == 0,
        decreases n - r@.len(),
    {
        r.push(String::new());
    }
    r
}

} // verus!
