//! First-boot setup wizard: six steps, a completion page, and the
//! navigation between them.

use vstd::prelude::*;

verus! {

/// Number of steps of the wizard.
pub const TOTAL_STEPS: u32 = 6;

/// The page shown for a step.
#[derive(Clone, Copy, Debug, PartialEq, Eq, Structural)]
pub enum Page {
    Language,
    Timezone,
    Identity,
    Security,
    Privacy,
    Customization,
    Complete,
}

/// What the forward button does.
#[derive(Clone, Copy, Debug, PartialEq, Eq, Structural)]
pub enum Forward {
    /// "Suivant": go to the next step.
    Next,
    /// "Terminer": close the wizard.
    Finish,
}

/// The page for step `step` (1 to 6; anything else shows the completion
/// page).
pub open spec fn page_of(step: u32) -> Page {
    if step == 1 {
        Page::Language
    } else if step == 2 {
        Page::Timezone
    } else if step == 3 {
        Page::Identity
    } else if step == 4 {
        Page::Security
    } else if step == 5 {
        Page::Privacy
    } else if step == 6 {
        Page::Customization
    } else {
        Page::Complete
    }
}

/// The step after a click on "next" (never past the last).
pub open spec fn next_of(step: u32) -> u32 {
    if step < TOTAL_STEPS {
        (step + 1) as u32
    } else {
        step
    }
}

/// The step after a click on "back" (never before the first).
pub open spec fn prev_of(step: u32) -> u32 {
    if step > 1 {
        (step - 1) as u32
    } else {
        step
    }
}

/// Everything that the wizard renders for a step.
#[derive(Debug)]
pub struct StepView {
    /// One dot per step; `true` for the current one.
    pub dots: Vec<bool>,
    /// The page's content.
    pub page: Page,
    /// Whether a back button is shown.
    pub show_back: bool,
    /// What the forward button does.
    pub forward: Forward,
}

/// The wizard's state.
pub struct OnboardingState {
    /// The current step, from 1.
    pub current_step: u32,
    /// Whether "finish" has already handed over (the completion callback
    /// runs once).
    pub completed: bool,
}

impl OnboardingState {
    /// The wizard at its first step.
    pub fn new() -> (res: Self)
        ensures
            res.current_step == 1,
            !res.completed,
    {
        OnboardingState { current_step: 1, completed: false }
    }

    /// Moves to the next step ("Suivant").
    pub fn next(&mut self)
        ensures
            final(self).current_step == next_of(old(self).current_step),
            final(self).completed == old(self).completed,
    {
        if self.current_step < TOTAL_STEPS {
            self.current_step = self.current_step + 1;
        }
    }

    /// Moves to the previous step ("Précédent").
    pub fn back(&mut self)
        ensures
            final(self).current_step == prev_of(old(self).current_step),
            final(self).completed == old(self).completed,
    {
        if self.current_step > 1 {
            self.current_step = self.current_step - 1;
        }
    }

    /// A click on "finish" ("Terminer"): the wizard hides, and the
    /// completion callback fires on the first click only. True when it
    /// fires.
    pub fn finish(&mut self) -> (fire: bool)
        ensures
            fire == !old(self).completed,
            final(self).completed,
            final(self).current_step == old(self).current_step,
    {
        let fire = !self.completed;
        self.completed = true;
        fire
    }
}

/// The page for a step.
pub fn page_for(step: u32) -> (res: Page)
    ensures
        res == page_of(step),
{
    if step == 1 {
        Page::Language
    } else if step == 2 {
        Page::Timezone
    } else if step == 3 {
        Page::Identity
    } else if step == 4 {
        Page::Security
    } else if step == 5 {
        Page::Privacy
    } else if step == 6 {
        Page::Customization
    } else {
        Page::Complete
    }
}

/// What to render for step `step`: six progress dots with the current one
/// active, its page, a back button after the first step, and "next" before
/// the last step or "finish" from it on.
pub fn step_view(step: u32) -> (res: StepView)
    ensures
        res.dots@.len() == TOTAL_STEPS,
        forall|i: int| 0 <= i < TOTAL_STEPS ==> res.dots@[i] == (i + 1 == step),
        res.page == page_of(step),
        res.show_back == (step > 1),
        res.forward == (if step < TOTAL_STEPS { Forward::Next } else { Forward::Finish }),
{
    let mut dots: Vec<bool> = Vec::new();
    let mut i: u32 = 1;
    while i <= TOTAL_STEPS
        invariant
            1 <= i <= TOTAL_STEPS + 1,
            dots@.len() == i - 1,
            forall|k: int| 0 <= k < i - 1 ==> dots@[k] == (k + 1 == step),
        decreases TOTAL_STEPS + 1 - i,
    {
        dots.push(i == step);
        i = i + 1;
    }
    StepView {
        dots,
        page: page_for(step),
        show_back: step > 1,
        forward: if step < TOTAL_STEPS { Forward::Next } else { Forward::Finish },
    }
}

/// Navigation stays within the six steps, and "back" undoes "next" (and
/// "next" undoes "back") everywhere except at the ends.
pub proof fn lemma_navigation(step: u32)
    requires
        1 <= step <= TOTAL_STEPS,
    ensures
        1 <= next_of(step) <= TOTAL_STEPS,
        1 <= prev_of(step) <= TOTAL_STEPS,
        step < TOTAL_STEPS ==> prev_of(next_of(step)) == step,
        step > 1 ==> next_of(prev_of(step)) == step,
        page_of(step) != Page::Complete,
{
}

} // verus!
