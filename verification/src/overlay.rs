//! Layout of the timing overlay: one bar graph per rolling series.
//!
//! Positions are whole pixels relative to the top left corner of a graph's
//! panel; the host adds the panel's place on the screen and paints.

use vstd::prelude::*;
use crate::samples::{mean, RollingSamples, CAPACITY};

verus! {

/// A sample longer than this many microseconds is past the budget of a loop
/// that runs sixty times a second.
pub const WARNING_MICROS: u64 = 16_000;

/// A sample longer than this many microseconds is past the budget of a loop
/// that runs thirty times a second.
pub const CRITICAL_MICROS: u64 = 33_000;

/// Bar height in pixels per millisecond.
pub const PIXELS_PER_MILLI: u64 = 3;

/// Width of one bar in pixels.
pub const BAR_WIDTH: i64 = 3;

/// Space in pixels between the panel's edge and the bars.
pub const MARGIN: i64 = 10;

/// Height of a graph's panel in pixels.
pub const PANEL_HEIGHT: i64 = 180;

/// How a duration compares with the two frame budgets.
#[derive(Clone, Copy, Debug, PartialEq, Eq, Structural)]
pub enum Tier {
    Nominal,
    Warning,
    Critical,
}

/// One bar of a graph.
#[derive(Clone, Copy, Debug, PartialEq, Eq, Structural)]
pub struct Bar {
    pub left: i64,
    pub top: i64,
    pub width: i64,
    pub height: i64,
    pub tier: Tier,
}

/// A horizontal reference line across a graph, at the height of a budget.
#[derive(Clone, Copy, Debug, PartialEq, Eq, Structural)]
pub struct Rule {
    pub left: i64,
    pub right: i64,
    pub top: i64,
    pub tier: Tier,
}

/// A laid-out graph: the panel's size, one bar per sample from the oldest
/// to the newest, and the reference lines.
#[derive(Clone, Debug, PartialEq, Eq)]
pub struct Graph {
    pub width: i64,
    pub height: i64,
    pub bars: Vec<Bar>,
    pub rules: Vec<Rule>,
}

/// The tier of a duration: critical above `CRITICAL_MICROS`, warning above
/// `WARNING_MICROS`, nominal otherwise.
pub open spec fn tier_of(micros: u64) -> Tier {
    if micros > CRITICAL_MICROS {
        Tier::Critical
    } else if micros > WARNING_MICROS {
        Tier::Warning
    } else {
        Tier::Nominal
    }
}

/// The height of the bar for a duration, rounded down to whole pixels.
pub open spec fn bar_height(micros: u64) -> int {
    micros * PIXELS_PER_MILLI / 1000
}

/// The bar for the sample at `index` of a series.
pub open spec fn bar_at(index: int, micros: u64) -> Bar {
    Bar {
        left: (MARGIN + BAR_WIDTH * index) as i64,
        top: (PANEL_HEIGHT - MARGIN - bar_height(micros)) as i64,
        width: BAR_WIDTH,
        height: bar_height(micros) as i64,
        tier: tier_of(micros),
    }
}

/// The width of the panel for a series of `count` samples.
pub open spec fn panel_width(count: nat) -> int {
    BAR_WIDTH * count + 2 * MARGIN
}

/// The threshold, in microseconds, that a reference line of tier `tier`
/// marks; nominal has none and counts as zero.
pub open spec fn threshold(tier: Tier) -> u64 {
    match tier {
        Tier::Nominal => 0,
        Tier::Warning => WARNING_MICROS,
        Tier::Critical => CRITICAL_MICROS,
    }
}

/// The reference line of `tier` across a graph of `count` samples: it runs
/// over the bars at the height a bar of exactly the threshold would reach.
pub open spec fn rule_at(tier: Tier, count: nat) -> Rule {
    Rule {
        left: MARGIN,
        right: (MARGIN + BAR_WIDTH * count) as i64,
        top: (PANEL_HEIGHT - MARGIN - bar_height(threshold(tier))) as i64,
        tier,
    }
}

/// The reference lines of a graph: warning, then critical, or none.
pub open spec fn rules_of(count: nat, with_rules: bool) -> Seq<Rule> {
    if with_rules {
        seq![rule_at(Tier::Warning, count), rule_at(Tier::Critical, count)]
    } else {
        Seq::<Rule>::empty()
    }
}

/// Whether `graph` is the layout of `series`: a panel wide enough for its
/// bars, one bar per sample in the order of the series, and the reference
/// lines if `with_rules` asks for them.
pub open spec fn is_graph_of(graph: Graph, series: Seq<u64>, with_rules: bool) -> bool {
    &&& graph.width == panel_width(series.len())
    &&& graph.height == PANEL_HEIGHT
    &&& graph.bars@.len() == series.len()
    &&& forall|i: int| 0 <= i < series.len() ==> graph.bars@[i] == bar_at(i, series[i])
    &&& graph.rules@ == rules_of(series.len(), with_rules)
}

/// The frames per second that a frame time amounts to, rounded down; a
/// frame that took no time at all has none.
pub open spec fn rate_of(frame_micros: u64) -> Option<u64> {
    if frame_micros == 0 {
        None
    } else {
        Some((1_000_000u64 / frame_micros) as u64)
    }
}

/// The frames per second at the newest frame of a series.
pub open spec fn latest_rate(frame_times: Seq<u64>) -> Option<u64> {
    if frame_times.len() == 0 {
        None
    } else {
        rate_of(frame_times.last())
    }
}

/// Classifies a duration against the two frame budgets.
pub fn classify(micros: u64) -> (tier: Tier)
    ensures
        tier == tier_of(micros),
{
    if micros > CRITICAL_MICROS {
        Tier::Critical
    } else if micros > WARNING_MICROS {
        Tier::Warning
    } else {
        Tier::Nominal
    }
}

/// Lays out the bar for the sample at `index`.
pub fn bar(index: usize, micros: u64) -> (out: Bar)
    requires
        index < CAPACITY,
    ensures
        out == bar_at(index as int, micros),
{
    let scaled: u128 = (micros as u128) * (PIXELS_PER_MILLI as u128) / 1000;
    let height: i64 = scaled as i64;
    Bar {
        left: MARGIN + BAR_WIDTH * (index as i64),
        top: PANEL_HEIGHT - MARGIN - height,
        width: BAR_WIDTH,
        height,
        tier: classify(micros),
    }
}

/// Lays out the reference line of `tier` for a graph of `count` samples.
pub fn rule(tier: Tier, count: usize) -> (out: Rule)
    requires
        count <= CAPACITY,
    ensures
        out == rule_at(tier, count as nat),
{
    let micros: u64 = match tier {
        Tier::Nominal => 0,
        Tier::Warning => WARNING_MICROS,
        Tier::Critical => CRITICAL_MICROS,
    };
    let height: i64 = (micros * PIXELS_PER_MILLI / 1000) as i64;
    Rule {
        left: MARGIN,
        right: MARGIN + BAR_WIDTH * (count as i64),
        top: PANEL_HEIGHT - MARGIN - height,
        tier,
    }
}

/// Lays out the graph of a series: a panel wide enough for its bars, one bar
/// per sample in the order of the series, and, if asked for, the two
/// reference lines. The series itself is left as it is.
pub fn graph(series: &RollingSamples, with_rules: bool) -> (out: Graph)
    requires
        series.wf(),
    ensures
        is_graph_of(out, series@, with_rules),
{
    let count: usize = series.len();
    let mut bars: Vec<Bar> = Vec::new();
    let mut index: usize = 0;
    while index < count
        invariant
            index <= count,
            count == series@.len(),
            count <= CAPACITY,
            bars@.len() == index,
            forall|i: int| 0 <= i < index ==> bars@[i] == bar_at(i, series@[i]),
        decreases count - index,
    {
        if let Some(micros) = series.get(index) {
            bars.push(bar(index, micros));
        }
        index = index + 1;
    }
    let mut rules: Vec<Rule> = Vec::new();
    if with_rules {
        rules.push(rule(Tier::Warning, count));
        rules.push(rule(Tier::Critical, count));
    }
    assert(rules@ =~= rules_of(series@.len(), with_rules));
    Graph { width: BAR_WIDTH * (count as i64) + 2 * MARGIN, height: PANEL_HEIGHT, bars, rules }
}

/// All that the overlay shows.
#[derive(Clone, Debug, PartialEq, Eq)]
pub struct Overlay {
    /// Frames per second at the newest frame.
    pub rate: Option<u64>,
    /// How long loading the script took, in microseconds.
    pub load_micros: u64,
    /// How long the script's `init` took, in microseconds.
    pub init_micros: u64,
    /// The mean time of `update` over the series.
    pub update_mean: Option<u64>,
    /// The mean time of `draw` over the series.
    pub draw_mean: Option<u64>,
    /// The graph of frame times, with the reference lines.
    pub frames: Graph,
    /// The graph of `update` times.
    pub updates: Graph,
    /// The graph of `draw` times.
    pub draws: Graph,
}

/// Whether `overlay` shows these three series and these two startup times.
pub open spec fn is_overlay_of(
    overlay: Overlay,
    frame_times: Seq<u64>,
    update_times: Seq<u64>,
    draw_times: Seq<u64>,
    load_micros: u64,
    init_micros: u64,
) -> bool {
    &&& overlay.rate == latest_rate(frame_times)
    &&& overlay.load_micros == load_micros
    &&& overlay.init_micros == init_micros
    &&& overlay.update_mean == mean(update_times)
    &&& overlay.draw_mean == mean(draw_times)
    &&& is_graph_of(overlay.frames, frame_times, true)
    &&& is_graph_of(overlay.updates, update_times, false)
    &&& is_graph_of(overlay.draws, draw_times, false)
}

/// The frames per second at the newest frame of a series.
pub fn rate(frame_times: &RollingSamples) -> (out: Option<u64>)
    ensures
        out == latest_rate(frame_times@),
{
    let count: usize = frame_times.len();
    if count == 0 {
        return None;
    }
    match frame_times.get(count - 1) {
        Some(micros) => {
            if micros == 0 {
                None
            } else {
                Some(1_000_000 / micros)
            }
        },
        None => None,
    }
}

/// Composes the overlay from the three series and the two startup times.
/// It only reads them.
pub fn compose(
    frame_times: &RollingSamples,
    update_times: &RollingSamples,
    draw_times: &RollingSamples,
    load_micros: u64,
    init_micros: u64,
) -> (out: Overlay)
    requires
        frame_times.wf(),
        update_times.wf(),
        draw_times.wf(),
    ensures
        is_overlay_of(out, frame_times@, update_times@, draw_times@, load_micros, init_micros),
{
    Overlay {
        rate: rate(frame_times),
        load_micros,
        init_micros,
        update_mean: update_times.average(),
        draw_mean: draw_times.average(),
        frames: graph(frame_times, true),
        updates: graph(update_times, false),
        draws: graph(draw_times, false),
    }
}

} // verus!
