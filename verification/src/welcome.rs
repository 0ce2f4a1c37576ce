//! The welcome screen's typing animation as a state machine: the caller
//! shows each frame, waits the frame's delay, and asks for the next step,
//! until the screen hands over to the next one.

use vstd::prelude::*;
use crate::text::{chars_of, from_chars, push_char, slice_chars};

verus! {

/// The welcome title.
pub open spec fn title_text() -> Seq<char> {
    "Bienvenue sur AstraOS"@
}

/// The welcome subtitle, typed after the title.
pub open spec fn subtitle_text() -> Seq<char> {
    "Configuration de votre syst\u{E8}me..."@
}

/// Pause before the title starts, in ms (the logo fades in).
pub const INITIAL_DELAY_MS: u64 = 800;

/// Delay per title character, in ms.
pub const TITLE_DELAY_MS: u64 = 60;

/// Delay per subtitle character, in ms.
pub const SUBTITLE_DELAY_MS: u64 = 40;

/// Pause after the subtitle before handing over, in ms.
pub const FINAL_PAUSE_MS: u64 = 1500;

/// Where the animation stands.
#[derive(Clone, Copy, Debug, PartialEq, Eq, Structural)]
pub enum Stage {
    /// Nothing shown yet.
    Start,
    /// This many title characters are on screen.
    Title(usize),
    /// The title is complete and this many subtitle characters are on
    /// screen.
    Subtitle(usize),
    /// Both texts are complete; the final pause runs.
    Pause,
    /// Handed over.
    Done,
}

/// What to show until the next step.
#[derive(Debug)]
pub struct WelcomeFrame {
    pub title: String,
    pub subtitle: String,
    pub subtitle_visible: bool,
    pub delay_ms: u64,
}

/// One step of the animation.
#[derive(Debug)]
pub enum WelcomeStep {
    /// Show the frame, wait its delay, then step again.
    Show(WelcomeFrame),
    /// Hide the window and hand over to the next screen.
    Finish,
    /// Nothing left to do: the hand-over took place.
    Idle,
}

/// The first `k` characters of `full` followed by the blinking caret.
pub open spec fn typed(full: Seq<char>, k: nat) -> Seq<char> {
    full.take(k as int) + seq!['|']
}

/// `f` shows `title`, `subtitle`, the subtitle's visibility and the delay.
pub open spec fn frame_is(f: WelcomeFrame, title: Seq<char>, subtitle: Seq<char>, visible: bool, delay: u64) -> bool {
    f.title@ == title && f.subtitle@ == subtitle && f.subtitle_visible == visible && f.delay_ms == delay
}

/// `step` shows a frame with `title`, `subtitle`, the subtitle's
/// visibility and the delay.
pub open spec fn shows_frame(step: WelcomeStep, title: Seq<char>, subtitle: Seq<char>, visible: bool, delay: u64) -> bool {
    match step {
        WelcomeStep::Show(f) => frame_is(f, title, subtitle, visible, delay),
        _ => false,
    }
}

/// The step taken in `stage`, and the stage after it.
pub open spec fn step_spec(stage: Stage, step: WelcomeStep, next: Stage) -> bool {
    let n = title_text().len();
    let m = subtitle_text().len();
    match stage {
        Stage::Start => next == Stage::Title(0) && shows_frame(
            step,
            Seq::empty(),
            Seq::empty(),
            false,
            INITIAL_DELAY_MS,
        ),
        Stage::Title(i) => if i < n {
            next == Stage::Title((i + 1) as usize) && shows_frame(
                step,
                typed(title_text(), (i + 1) as nat),
                Seq::empty(),
                false,
                TITLE_DELAY_MS,
            )
        } else if m > 0 {
            next == Stage::Subtitle(1) && shows_frame(
                step,
                title_text(),
                typed(subtitle_text(), 1),
                true,
                SUBTITLE_DELAY_MS,
            )
        } else {
            next == Stage::Pause && shows_frame(
                step,
                title_text(),
                subtitle_text(),
                true,
                FINAL_PAUSE_MS,
            )
        },
        Stage::Subtitle(j) => if j < m {
            next == Stage::Subtitle((j + 1) as usize) && shows_frame(
                step,
                title_text(),
                typed(subtitle_text(), (j + 1) as nat),
                true,
                SUBTITLE_DELAY_MS,
            )
        } else {
            next == Stage::Pause && shows_frame(
                step,
                title_text(),
                subtitle_text(),
                true,
                FINAL_PAUSE_MS,
            )
        },
        Stage::Pause => next == Stage::Done && step is Finish,
        Stage::Done => next == Stage::Done && step is Idle,
    }
}

/// The hand-over happens once: only the step out of the final pause
/// hands over, it leaves the animation done, and a done animation only
/// idles.
pub proof fn lemma_hand_over_once(stage: Stage, step: WelcomeStep, next: Stage)
    requires
        step_spec(stage, step, next),
    ensures
        step is Finish ==> stage == Stage::Pause && next == Stage::Done,
        stage == Stage::Done ==> step is Idle && next == Stage::Done,
{
}

/// How many steps remain before the hand-over, at most.
pub open spec fn remaining(stage: Stage) -> nat {
    let n = title_text().len();
    let m = subtitle_text().len();
    match stage {
        Stage::Start => n + m + 4,
        Stage::Title(i) => if i <= n {
            ((n - i) + m + 3) as nat
        } else {
            m + 3
        },
        Stage::Subtitle(j) => if j <= m {
            ((m - j) + 2) as nat
        } else {
            2
        },
        Stage::Pause => 1,
        Stage::Done => 0,
    }
}

/// `full[..k]` followed by the caret.
fn typed_text(full: &[char], k: usize) -> (res: String)
    requires
        k <= full@.len(),
    ensures
        res@ == typed(full@, k as nat),
{
    let part = slice_chars(full, 0, k);
    let mut s = from_chars(part.as_slice());
    push_char(&mut s, '|');
    proof {
        assert(full@.subrange(0, k as int) =~= full@.take(k as int));
    }
    s
}

/// The welcome screen's animation.
pub struct WelcomeScreen {
    stage: Stage,
}

impl WelcomeScreen {
    /// Where the animation stands.
    pub closed spec fn stage_spec(&self) -> Stage {
        self.stage
    }

    /// An animation that has not started.
    pub fn new() -> (res: WelcomeScreen)
        ensures
            res.stage_spec() == Stage::Start,
    {
        WelcomeScreen { stage: Stage::Start }
    }

    /// Where the animation stands.
    pub fn stage(&self) -> (res: Stage)
        ensures
            res == self.stage_spec(),
    {
        self.stage
    }

    /// The next step: the empty screen for the initial pause, then the
    /// title one character per step with a caret, then the revealed
    /// subtitle likewise, then both texts for the final pause, then the
    /// hand-over, once; nothing after it.
    pub fn step(&mut self) -> (res: WelcomeStep)
        ensures
            step_spec(old(self).stage_spec(), res, final(self).stage_spec()),
            old(self).stage_spec() != Stage::Done ==> remaining(final(self).stage_spec()) < remaining(
                old(self).stage_spec(),
            ),
    {
        let title = chars_of("Bienvenue sur AstraOS");
        let subtitle = chars_of("Configuration de votre syst\u{E8}me...");
        match self.stage {
            Stage::Start => {
                self.stage = Stage::Title(0);
                WelcomeStep::Show(
                    WelcomeFrame {
                        title: String::new(),
                        subtitle: String::new(),
                        subtitle_visible: false,
                        delay_ms: INITIAL_DELAY_MS,
                    },
                )
            },
            Stage::Title(i) => {
                if i < title.len() {
                    self.stage = Stage::Title(i + 1);
                    WelcomeStep::Show(
                        WelcomeFrame {
                            title: typed_text(title.as_slice(), i + 1),
                            subtitle: String::new(),
                            subtitle_visible: false,
                            delay_ms: TITLE_DELAY_MS,
                        },
                    )
                } else if subtitle.len() > 0 {
                    self.stage = Stage::Subtitle(1);
                    WelcomeStep::Show(
                        WelcomeFrame {
                            title: from_chars(title.as_slice()),
                            subtitle: typed_text(subtitle.as_slice(), 1),
                            subtitle_visible: true,
                            delay_ms: SUBTITLE_DELAY_MS,
                        },
                    )
                } else {
                    self.stage = Stage::Pause;
                    WelcomeStep::Show(
                        WelcomeFrame {
                            title: from_chars(title.as_slice()),
                            subtitle: from_chars(subtitle.as_slice()),
                            subtitle_visible: true,
                            delay_ms: FINAL_PAUSE_MS,
                        },
                    )
                }
            },
            Stage::Subtitle(j) => {
                if j < subtitle.len() {
                    self.stage = Stage::Subtitle(j + 1);
                    WelcomeStep::Show(
                        WelcomeFrame {
                            title: from_chars(title.as_slice()),
                            subtitle: typed_text(subtitle.as_slice(), j + 1),
                            subtitle_visible: true,
                            delay_ms: SUBTITLE_DELAY_MS,
                        },
                    )
                } else {
                    self.stage = Stage::Pause;
                    WelcomeStep::Show(
                        WelcomeFrame {
                            title: from_chars(title.as_slice()),
                            subtitle: from_chars(subtitle.as_slice()),
                            subtitle_visible: true,
                            delay_ms: FINAL_PAUSE_MS,
                        },
                    )
                }
            },
            Stage::Pause => {
                self.stage = Stage::Done;
                WelcomeStep::Finish
            },
            Stage::Done => WelcomeStep::Idle,
        }
    }
}

} // verus!
