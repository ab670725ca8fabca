use vstd::prelude::*;
use crate::click_filter::{ClickFilter, ClickState, click_step, held, state_from, lemma_holding_arms};

verus! {

/// Half the range of the 16-bit quadrature counter: a jump between two
/// samples larger than this is taken as the counter wrapping around.
pub const HALF_COUNTER_RANGE: i32 = 32767;

/// The turn of the encoder between two samples of its counter, with the
/// wrap-around correction the panel applies.
pub open spec fn wrapped_delta(count: u16, last: u16) -> int {
    let d = count - last;
    if d > 32767 {
        65535 - d
    } else if d < -32767 {
        d + 65535
    } else {
        d
    }
}

/// Counter steps from `last` to `count`. A jump of more than half the
/// counter range is folded back: a positive jump `d` becomes `65535 - d`, a
/// negative one becomes `d + 65535`.
pub fn encoder_delta(count: u16, last: u16) -> (delta: i32)
    ensures
        delta == wrapped_delta(count, last),
{
    let mut delta_count: i32 = count as i32 - last as i32;
    if delta_count > HALF_COUNTER_RANGE || delta_count < -HALF_COUNTER_RANGE {
        if delta_count > 0 {
            delta_count = 65535 - delta_count;
        } else {
            delta_count += 65535;
        }
    }
    delta_count
}

/// A folded encoder step never exceeds half the counter range.
pub proof fn lemma_delta_bounded(count: u16, last: u16)
    ensures
        -32767 <= wrapped_delta(count, last) <= 32767,
{
}

/// Without a wrap-around the step is the plain difference of the samples;
/// in particular an encoder that did not move gives zero.
pub proof fn lemma_delta_exact_without_wrap(count: u16, last: u16)
    requires
        -32767 <= count - last <= 32767,
    ensures
        wrapped_delta(count, last) == count - last,
        count == last ==> wrapped_delta(count, last) == 0,
{
}

/// What the front panel shows.
#[derive(Clone, Copy, Debug, PartialEq, Eq, Structural)]
pub enum PanelMode {
    /// The target height is being edited with the encoder.
    EditHeight,
    /// The target height is shown; the flag tells whether the display still
    /// has to be drawn once.
    Idle(bool),
}

/// What the display has to do after one panel update.
#[derive(Clone, Copy, Debug, PartialEq, Eq, Structural)]
pub enum Redraw {
    /// Leave the display as it is.
    Keep,
    /// Redraw the target height without the edit marker.
    Show,
    /// Add the given encoder steps to the target height and redraw it with
    /// the edit marker.
    Edit(i32),
}

/// The panel as a value: debouncer state, mode and last encoder sample.
pub struct PanelView {
    pub click: ClickState,
    pub mode: PanelMode,
    pub last_count: u16,
}

/// One panel update. `button_low` is the button level; the counter is
/// sampled three times, as the panel reads it: on entering edit mode
/// (`count_at_click`), for the step (`count_for_delta`) and to remember it
/// (`count_after`).
pub open spec fn panel_step(
    p: PanelView,
    button_low: bool,
    count_at_click: u16,
    count_for_delta: u16,
    count_after: u16,
) -> (PanelView, Redraw) {
    let (click, clicked) = click_step(p.click, button_low);
    let (mode, last) = if clicked {
        match p.mode {
            PanelMode::EditHeight => (PanelMode::Idle(true), p.last_count),
            PanelMode::Idle(_) => (PanelMode::EditHeight, count_at_click),
        }
    } else {
        (p.mode, p.last_count)
    };
    match mode {
        PanelMode::EditHeight => (
            PanelView { click, mode, last_count: count_after },
            Redraw::Edit(wrapped_delta(count_for_delta, last) as i32),
        ),
        PanelMode::Idle(once) => {
            if once {
                (PanelView { click, mode: PanelMode::Idle(false), last_count: last }, Redraw::Show)
            } else {
                (PanelView { click, mode, last_count: last }, Redraw::Keep)
            }
        },
    }
}

/// The decisions of the front panel: a click on the encoder button toggles
/// between showing and editing the target height; while editing, each
/// update reports the encoder steps since the previous sample.
pub struct Interface {
    last_count: u16,
    click_filter: ClickFilter,
    state: PanelMode,
}

impl View for Interface {
    type V = PanelView;

    closed spec fn view(&self) -> PanelView {
        PanelView { click: self.click_filter@, mode: self.state, last_count: self.last_count }
    }
}

impl Interface {
    /// A panel showing the target height (to be drawn once), with the
    /// encoder counter at `count`.
    pub fn new(count: u16) -> (i: Self)
        ensures
            i@ == (PanelView { click: ClickState::Release, mode: PanelMode::Idle(true), last_count: count }),
    {
        Interface { last_count: count, click_filter: ClickFilter::new(), state: PanelMode::Idle(true) }
    }

    /// The mode the panel is in.
    pub fn mode(&self) -> (m: PanelMode)
        ensures
            m == self@.mode,
    {
        self.state
    }

    /// The encoder sample the next step is measured from.
    pub fn last_count(&self) -> (c: u16)
        ensures
            c == self@.last_count,
    {
        self.last_count
    }

    /// One periodic update of the panel; see [`panel_step`].
    pub fn update(
        &mut self,
        button_low: bool,
        count_at_click: u16,
        count_for_delta: u16,
        count_after: u16,
    ) -> (r: Redraw)
        ensures
            (final(self)@, r) == panel_step(old(self)@, button_low, count_at_click, count_for_delta, count_after),
            final(self)@.click == click_step(old(self)@.click, button_low).0,
            click_step(old(self)@.click, button_low).1 ==> ((old(self)@.mode is Idle)
                <==> final(self)@.mode == PanelMode::EditHeight),
            !click_step(old(self)@.click, button_low).1 ==> ((old(self)@.mode is Idle)
                <==> (final(self)@.mode is Idle)),
    {
        if self.click_filter.update(button_low) {
            self.state = match self.state {
                PanelMode::EditHeight => PanelMode::Idle(true),
                PanelMode::Idle(_) => {
                    self.last_count = count_at_click;
                    PanelMode::EditHeight
                },
            };
        }
        match self.state {
            PanelMode::EditHeight => {
                let delta_count = encoder_delta(count_for_delta, self.last_count);
                self.last_count = count_after;
                Redraw::Edit(delta_count)
            },
            PanelMode::Idle(once) => {
                if once {
                    self.state = PanelMode::Idle(false);
                    Redraw::Show
                } else {
                    Redraw::Keep
                }
            },
        }
    }
}

/// A click toggles the panel: from showing the height it enters edit mode
/// and reports the encoder steps since the click; from edit mode it goes
/// back to showing the height and redraws it.
pub proof fn lemma_click_toggles_mode(p: PanelView, button_low: bool, c1: u16, c2: u16, c3: u16)
    requires
        click_step(p.click, button_low).1,
    ensures
        ({
            let (q, r) = panel_step(p, button_low, c1, c2, c3);
            &&& (p.mode is Idle) ==> q.mode == PanelMode::EditHeight && r == Redraw::Edit(
                wrapped_delta(c2, c1) as i32,
            ) && q.last_count == c3
            &&& (p.mode == PanelMode::EditHeight) ==> q.mode == PanelMode::Idle(false) && r
                == Redraw::Show
        }),
{
}

/// Without a click the mode stays: an idle panel reports no encoder steps,
/// and an editing panel keeps reporting them, measured from the previous
/// sample.
pub proof fn lemma_no_click_keeps_mode(p: PanelView, button_low: bool, c1: u16, c2: u16, c3: u16)
    requires
        !click_step(p.click, button_low).1,
    ensures
        ({
            let (q, r) = panel_step(p, button_low, c1, c2, c3);
            &&& (p.mode is Idle) ==> (q.mode is Idle) && !(r is Edit)
            &&& (p.mode == PanelMode::EditHeight) ==> q.mode == PanelMode::EditHeight && r
                == Redraw::Edit(wrapped_delta(c2, p.last_count) as i32) && q.last_count == c3
        }),
{
}

/// The idle display is drawn once: after an update that redraws it, the
/// next update without a click leaves the display alone.
pub proof fn lemma_show_drawn_once(
    p: PanelView,
    b1: bool,
    c1: u16,
    c2: u16,
    c3: u16,
    b2: bool,
    d1: u16,
    d2: u16,
    d3: u16,
)
    requires
        panel_step(p, b1, c1, c2, c3).1 == Redraw::Show,
        !click_step(panel_step(p, b1, c1, c2, c3).0.click, b2).1,
    ensures
        panel_step(panel_step(p, b1, c1, c2, c3).0, b2, d1, d2, d3).1 == Redraw::Keep,
{
}

/// An edit step is always within half the counter range.
pub proof fn lemma_edit_step_bounded(p: PanelView, button_low: bool, c1: u16, c2: u16, c3: u16)
    ensures
        panel_step(p, button_low, c1, c2, c3).1 matches Redraw::Edit(d) ==> -32767 <= d <= 32767,
{
}

/// The panel after a run of updates: `buttons[i]` is the button level of
/// update `i` and `counts[i]` its three counter samples.
pub open spec fn panel_run(p: PanelView, buttons: Seq<bool>, counts: Seq<(u16, u16, u16)>) -> PanelView
    decreases buttons.len(),
{
    if buttons.len() == 0 || counts.len() == 0 {
        p
    } else {
        let q = panel_run(p, buttons.drop_last(), counts.drop_last());
        let c = counts.last();
        panel_step(q, buttons.last(), c.0, c.1, c.2).0
    }
}

/// The panel's debouncer sees every button sample: over any run of updates
/// its state is the one a lone debouncer reaches on the same samples.
pub proof fn lemma_panel_debounces_every_sample(
    p: PanelView,
    buttons: Seq<bool>,
    counts: Seq<(u16, u16, u16)>,
)
    requires
        buttons.len() == counts.len(),
    ensures
        panel_run(p, buttons, counts).click == state_from(p.click, buttons),
    decreases buttons.len(),
{
    if buttons.len() > 0 {
        lemma_panel_debounces_every_sample(p, buttons.drop_last(), counts.drop_last());
    }
}

/// Holding the button keeps the panel in its mode kind: an idle panel stays
/// idle and an editing panel keeps editing.
proof fn lemma_holding_keeps_mode(p: PanelView, k: nat, counts: Seq<(u16, u16, u16)>)
    requires
        counts.len() == k,
    ensures
        (p.mode is Idle) <==> (panel_run(p, held(k), counts).mode is Idle),
    decreases k,
{
    if k > 0 {
        lemma_holding_keeps_mode(p, (k - 1) as nat, counts.drop_last());
        assert(held(k).drop_last() =~= held((k - 1) as nat));
    }
}

/// Liveness of the panel: from any panel state, a button held down for two
/// or more updates and then released toggles the mode on the release: an
/// idle panel enters edit mode, an editing panel goes back to showing the
/// height.
pub proof fn lemma_press_and_release_toggles(p: PanelView, k: nat, counts: Seq<(u16, u16, u16)>)
    requires
        k >= 2,
        counts.len() == k + 1,
    ensures
        ({
            let q = panel_run(p, held(k).push(false), counts);
            &&& (p.mode is Idle) ==> q.mode == PanelMode::EditHeight
            &&& (p.mode == PanelMode::EditHeight) ==> q.mode == PanelMode::Idle(false)
        }),
{
    let buttons = held(k).push(false);
    assert(buttons.drop_last() =~= held(k));
    lemma_panel_debounces_every_sample(p, held(k), counts.drop_last());
    lemma_holding_arms(p.click, k);
    lemma_holding_keeps_mode(p, k, counts.drop_last());
}

} // verus!
