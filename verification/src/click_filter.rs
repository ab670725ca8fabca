use vstd::prelude::*;

verus! {

/// Where the debouncer stands between two samples of the button.
#[derive(Clone, Copy, Debug, PartialEq, Eq, Structural)]
pub enum ClickState {
    /// The button is up: waiting for it to go down.
    Release,
    /// The button went down; the flag tells whether it was seen down on a
    /// second sample as well, which arms the click.
    Trig(bool),
}

/// One sample of the debouncer: the state it moves to and whether a click
/// is reported.
pub open spec fn click_step(state: ClickState, trig: bool) -> (ClickState, bool) {
    match state {
        ClickState::Release => {
            if trig {
                (ClickState::Trig(false), false)
            } else {
                (ClickState::Release, false)
            }
        },
        ClickState::Trig(armed) => {
            if armed {
                if trig {
                    (ClickState::Trig(true), false)
                } else {
                    (ClickState::Release, true)
                }
            } else {
                if trig {
                    (ClickState::Trig(true), false)
                } else {
                    (ClickState::Trig(false), false)
                }
            }
        },
    }
}

/// Turns the sampled level of a push button into clicks: a click is
/// reported once, on the sample where the button comes up after it has been
/// seen down on two samples.
#[derive(Clone, Copy, Debug)]
pub struct ClickFilter {
    state: ClickState,
}

impl View for ClickFilter {
    type V = ClickState;

    closed spec fn view(&self) -> ClickState {
        self.state
    }
}

impl ClickFilter {
    /// A debouncer that waits for the button to go down.
    pub fn new() -> (f: Self)
        ensures
            f@ == ClickState::Release,
    {
        ClickFilter { state: ClickState::Release }
    }

    /// The state the debouncer stands in.
    pub fn state(&self) -> (s: ClickState)
        ensures
            s == self@,
    {
        self.state
    }

    /// Feeds one sample (`trig`: the button is down) and returns whether a
    /// click completes on it.
    pub fn update(&mut self, trig: bool) -> (clicked: bool)
        ensures
            (final(self)@, clicked) == click_step(old(self)@, trig),
            clicked ==> !trig && old(self)@ == ClickState::Trig(true),
            clicked ==> final(self)@ == ClickState::Release,
            trig ==> !clicked,
            trig && old(self)@ == ClickState::Release ==> final(self)@ == ClickState::Trig(false),
            trig && old(self)@ != ClickState::Release ==> final(self)@ == ClickState::Trig(true),
            !trig && old(self)@ == ClickState::Trig(true) ==> clicked,
            !trig && old(self)@ != ClickState::Trig(true) ==> !clicked && final(self)@ == old(
                self,
            )@,
    {
        match self.state {
            ClickState::Release => {
                if trig {
                    self.state = ClickState::Trig(false);
                }
                false
            },
            ClickState::Trig(trigged) => {
                if trigged {
                    if !trig {
                        self.state = ClickState::Release;
                        true
                    } else {
                        false
                    }
                } else {
                    if trig {
                        self.state = ClickState::Trig(true);
                    }
                    false
                }
            },
        }
    }
}

/// No two samples in a row report a click: after a click the debouncer
/// waits for a new press.
pub proof fn lemma_no_consecutive_clicks(state: ClickState, first: bool, second: bool)
    requires
        click_step(state, first).1,
    ensures
        !click_step(click_step(state, first).0, second).1,
{
}

/// From the released state no click can complete within two samples: a click
/// takes the button seen down twice and then up.
pub proof fn lemma_click_needs_three_samples(first: bool, second: bool)
    ensures
        !click_step(ClickState::Release, first).1,
        !click_step(click_step(ClickState::Release, first).0, second).1,
{
}

/// Holding the button down never reports a click, whatever state the
/// debouncer is in.
pub proof fn lemma_held_button_never_clicks(state: ClickState)
    ensures
        !click_step(state, true).1,
{
}

/// The state of a debouncer created with [`ClickFilter::new`] after it has
/// been fed the samples `inputs`, in order.
pub open spec fn state_after(inputs: Seq<bool>) -> ClickState
    decreases inputs.len(),
{
    if inputs.len() == 0 {
        ClickState::Release
    } else {
        click_step(state_after(inputs.drop_last()), inputs.last()).0
    }
}

/// Feeding one more sample moves the debouncer by one [`click_step`]: a
/// fresh [`ClickFilter`] fed `inputs` through [`ClickFilter::update`] stands
/// in `state_after(inputs)`.
pub proof fn lemma_state_after_push(inputs: Seq<bool>, b: bool)
    ensures
        state_after(inputs.push(b)) == click_step(state_after(inputs), b).0,
        state_after(Seq::<bool>::empty()) == ClickState::Release,
{
    assert(inputs.push(b).drop_last() =~= inputs);
}

/// Whether a fresh debouncer fed `inputs` reports a click on sample `n`.
pub open spec fn clicked_at(inputs: Seq<bool>, n: int) -> bool {
    click_step(state_after(inputs.take(n)), inputs[n]).1
}

/// No click is reported on any of the samples `a..b`.
pub open spec fn no_click_between(inputs: Seq<bool>, a: int, b: int) -> bool {
    forall|k: int| a <= k < b ==> !#[trigger] clicked_at(inputs, k)
}

/// Before sample `n`, the button was seen down on at least two samples
/// since the last click (or since the debouncer was created).
pub open spec fn pressed_twice_since_click(inputs: Seq<bool>, n: int) -> bool {
    exists|i: int, j: int|
        0 <= i < j < n && #[trigger] inputs[i] && #[trigger] inputs[j] && no_click_between(
            inputs,
            i,
            n,
        )
}

/// What the debouncer's state records of the samples since the last click.
proof fn lemma_state_records_presses(inputs: Seq<bool>, m: int)
    requires
        0 <= m <= inputs.len(),
    ensures
        state_after(inputs.take(m)) == ClickState::Trig(false) ==> exists|i: int|
            0 <= i < m && #[trigger] inputs[i] && no_click_between(inputs, i, m),
        state_after(inputs.take(m)) == ClickState::Trig(true) ==> pressed_twice_since_click(
            inputs,
            m,
        ),
    decreases m,
{
    if m > 0 {
        lemma_state_records_presses(inputs, m - 1);
        let prev = state_after(inputs.take(m - 1));
        let b = inputs[m - 1];
        assert(inputs.take(m).drop_last() =~= inputs.take(m - 1));
        assert(state_after(inputs.take(m)) == click_step(prev, b).0);
        assert(clicked_at(inputs, m - 1) == click_step(prev, b).1);
        match prev {
            ClickState::Release => {
                if b {
                    assert(no_click_between(inputs, m - 1, m));
                }
            },
            ClickState::Trig(armed) => {
                if !armed {
                    let i = choose|i: int|
                        0 <= i < m - 1 && #[trigger] inputs[i] && no_click_between(
                            inputs,
                            i,
                            m - 1,
                        );
                    assert(no_click_between(inputs, i, m));
                    if b {
                        assert(inputs[i] && inputs[m - 1]);
                        assert(pressed_twice_since_click(inputs, m));
                    }
                } else if b {
                    let (i, j) = choose|i: int, j: int|
                        0 <= i < j < m - 1 && #[trigger] inputs[i] && #[trigger] inputs[j]
                            && no_click_between(inputs, i, m - 1);
                    assert(no_click_between(inputs, i, m));
                    assert(inputs[i] && inputs[j]);
                }
            },
        }
    }
}

/// Over any run of samples fed to a fresh debouncer: a click is reported
/// only on a sample where the button is up, and only after the button was
/// seen down on at least two samples since the previous click (or since the
/// debouncer was created).
pub proof fn lemma_click_needs_two_presses(inputs: Seq<bool>, n: int)
    requires
        0 <= n < inputs.len(),
        clicked_at(inputs, n),
    ensures
        !inputs[n],
        pressed_twice_since_click(inputs, n),
{
    lemma_state_records_presses(inputs, n);
}

/// `k` samples with the button down.
pub open spec fn held(k: nat) -> Seq<bool> {
    Seq::new(k, |_i: int| true)
}

/// The state of a debouncer that starts in `start` and is fed `inputs`.
pub open spec fn state_from(start: ClickState, inputs: Seq<bool>) -> ClickState
    decreases inputs.len(),
{
    if inputs.len() == 0 {
        start
    } else {
        click_step(state_from(start, inputs.drop_last()), inputs.last()).0
    }
}

/// Holding the button down never reports a click, and after two or more
/// samples held down the debouncer is armed, whatever state it started in.
pub proof fn lemma_holding_arms(start: ClickState, k: nat)
    ensures
        k >= 2 ==> state_from(start, held(k)) == ClickState::Trig(true),
        k >= 1 ==> state_from(start, held(k)) is Trig,
        forall|i: int| 0 <= i < k ==> !#[trigger] click_step(state_from(start, held(k).take(i)), true).1,
    decreases k,
{
    if k > 0 {
        lemma_holding_arms(start, (k - 1) as nat);
        assert(held(k).drop_last() =~= held((k - 1) as nat));
        assert forall|i: int| 0 <= i < k implies !#[trigger] click_step(
            state_from(start, held(k).take(i)),
            true,
        ).1 by {}
    }
}

/// Liveness of the debouncer: from any state, a button seen down on two or
/// more samples in a row and then up reports a click on the release sample,
/// and on no earlier sample of that press.
pub proof fn lemma_press_and_release_clicks(start: ClickState, k: nat)
    requires
        k >= 2,
    ensures
        click_step(state_from(start, held(k)), false).1,
        state_from(start, held(k).push(false)) == ClickState::Release,
{
    lemma_holding_arms(start, k);
    assert(held(k).push(false).drop_last() =~= held(k));
}

/// A fresh debouncer fed a run of samples clicks on the last sample when
/// that run ends with two or more pressed samples and a release.
pub proof fn lemma_fresh_filter_clicks_on_release(prefix: Seq<bool>, k: nat)
    requires
        k >= 2,
    ensures
        clicked_at(prefix + held(k).push(false), (prefix.len() + k) as int),
{
    let inputs = prefix + held(k).push(false);
    lemma_state_from_split(prefix, held(k));
    lemma_press_and_release_clicks(state_after(prefix), k);
    assert(inputs.take((prefix.len() + k) as int) =~= prefix + held(k));
}

/// Feeding `prefix` and then `rest` to a fresh debouncer leaves it where
/// `rest` leads from the state `prefix` left it in.
proof fn lemma_state_from_split(prefix: Seq<bool>, rest: Seq<bool>)
    ensures
        state_after(prefix + rest) == state_from(state_after(prefix), rest),
    decreases rest.len(),
{
    if rest.len() > 0 {
        lemma_state_from_split(prefix, rest.drop_last());
        assert((prefix + rest).drop_last() =~= prefix + rest.drop_last());
    } else {
        assert(prefix + rest =~= prefix);
    }
}

} // verus!
