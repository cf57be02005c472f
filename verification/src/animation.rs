//! The frames of an animation: which one shows, and when the animation has
//! run to its end.

use vstd::prelude::*;

verus! {

/// A strip of frames.
#[derive(Clone, Copy, Debug, PartialEq, Eq, Structural)]
pub struct Sheet {
    /// The number of frames.
    pub length: usize,
    /// The strip starts over after its last frame.
    pub repeating: bool,
}

/// The playback of one unit's animation.
#[derive(Clone, Copy, Debug, PartialEq, Eq, Structural)]
pub struct Animation {
    /// The strip that plays, if any.
    pub current: Option<Sheet>,
    pub current_frame: usize,
    /// The frames show mirrored.
    pub flip_x: bool,
    /// The last frame of the strip has had its time, at least once.
    pub played_once: bool,
}

impl Animation {
    pub open spec fn is_repeating_spec(&self) -> bool {
        match self.current {
            Some(sheet) => sheet.repeating,
            None => false,
        }
    }

    pub open spec fn is_last_frame_spec(&self) -> bool {
        match self.current {
            Some(sheet) => self.current_frame + 1 >= sheet.length,
            None => false,
        }
    }

    /// The playback after a tick. Frames change only when the frame timer
    /// has just run out. The last frame then marks the strip as played, and
    /// gives way to the first if the strip repeats; any other frame gives
    /// way to the next. Without a strip nothing changes.
    pub open spec fn animated(self, frame_time_over: bool) -> Animation {
        if !frame_time_over || self.current is None {
            self
        } else if self.is_last_frame_spec() {
            Animation {
                played_once: true,
                current_frame: if self.is_repeating_spec() {
                    0
                } else {
                    self.current_frame
                },
                ..self
            }
        } else {
            Animation { current_frame: (self.current_frame + 1) as usize, ..self }
        }
    }

    /// A playback that shows nothing yet.
    pub fn new() -> (a: Animation)
        ensures
            a == (Animation { current: None, current_frame: 0, flip_x: false, played_once: false }),
    {
        Animation { current: None, current_frame: 0, flip_x: false, played_once: false }
    }

    /// Starts a strip from its first frame, unmirrored.
    pub fn play(&mut self, sheet: Sheet)
        ensures
            *final(self) == (Animation {
                current: Some(sheet),
                current_frame: 0,
                flip_x: false,
                played_once: false,
            }),
    {
        self.current = Some(sheet);
        self.current_frame = 0;
        self.flip_x = false;
        self.played_once = false;
    }

    pub fn is_repeating(&self) -> (r: bool)
        ensures
            r == self.is_repeating_spec(),
    {
        match self.current {
            Some(sheet) => sheet.repeating,
            None => false,
        }
    }

    pub fn is_last_frame(&self) -> (r: bool)
        ensures
            r == self.is_last_frame_spec(),
    {
        match self.current {
            Some(sheet) => self.current_frame >= sheet.length || self.current_frame + 1 >= sheet.length,
            None => false,
        }
    }

    pub fn has_finished(&self) -> (r: bool)
        ensures
            r == self.played_once,
    {
        self.played_once
    }
}

/// Cycles an animation: see `Animation::animated`.
pub fn animate(animation: &mut Animation, frame_time_over: bool)
    ensures
        *final(animation) == old(animation).animated(frame_time_over),
{
    if frame_time_over && animation.current.is_some() {
        if animation.is_last_frame() {
            animation.played_once = true;
            if animation.is_repeating() {
                animation.current_frame = 0;
            }
        } else {
            animation.current_frame = animation.current_frame + 1;
        }
    }
}

/// A strip that does not repeat shows its last frame for good once it has
/// reached it, and counts as finished from then on.
pub proof fn lemma_finished_stays_finished(a: Animation, frame_time_over: bool)
    requires
        a.played_once,
    ensures
        a.animated(frame_time_over).played_once,
        !a.is_repeating_spec() && a.is_last_frame_spec() ==> a.animated(frame_time_over).current_frame
            == a.current_frame,
{
}

/// The frame that never plays a sound.
pub const IMPOSSIBLE_ANIMATION_I: usize = usize::MAX;

/// Whether the sound of a frame is due: the frame has one, and it is not
/// the frame whose sound was played last.
pub fn effect_due(last_played: Option<usize>, frame: usize, has_effect: bool) -> (due: bool)
    ensures
        due == (has_effect && frame != match last_played {
            Some(last) => last,
            None => IMPOSSIBLE_ANIMATION_I,
        }),
{
    let last: usize = match last_played {
        Some(last) => last,
        None => IMPOSSIBLE_ANIMATION_I,
    };
    has_effect && last != frame
}

} // verus!
