use vstd::prelude::*;

verus! {

use vstd::pervasive::VecAdditionalExecFns;
use vstd::arithmetic::div_mod::lemma_add_mod_noop_right;
use vstd::arithmetic::div_mod::lemma_mod_multiples_vanish;
use vstd::arithmetic::div_mod::lemma_small_mod;

/// Per-entity animation timer, counted in whole ticks.
///
/// `total_frames == 0` marks an inactive animation: updating it is a no-op.
/// For an active animation, `current_frame` cycles through
/// `[0, total_frames)`, advancing whenever the countdown reaches zero.
#[derive(Clone, Copy)]
pub struct AAnimation {
    /// Number of frames in the animation cycle; `0` means inactive.
    pub total_frames: usize,
    /// Ticks each frame stays visible; the countdown is reset to this value
    /// on every frame advance.
    pub max_count_till_next_frame: u64,
    /// Ticks remaining until the next frame advance.
    pub frame_life_time_count: u64,
    /// Index of the frame currently shown.
    pub current_frame: usize,
}

impl AAnimation {
    /// Validity of an animation state: the frame index is in range and the
    /// countdown never exceeds the per-frame duration.
    pub open spec fn wf(self) -> bool {
        &&& (self.total_frames == 0 ==> self.current_frame == 0)
        &&& (self.total_frames > 0 ==> self.current_frame < self.total_frames)
        &&& self.frame_life_time_count <= self.max_count_till_next_frame
    }
}

/// One tick of the animation timer, as a mathematical transition:
/// an inactive animation is untouched; a running countdown is decreased by
/// `dt` (never below zero) without changing the frame; an expired countdown
/// is reset to the per-frame duration and the frame index advances by one,
/// cyclically.
pub open spec fn spec_frame_update(s: AAnimation, dt: u64) -> AAnimation {
    if s.total_frames == 0 {
        s
    } else if s.frame_life_time_count > 0 {
        AAnimation {
            frame_life_time_count: if dt <= s.frame_life_time_count {
                (s.frame_life_time_count - dt) as u64
            } else {
                0u64
            },
            ..s
        }
    } else {
        AAnimation {
            frame_life_time_count: s.max_count_till_next_frame,
            current_frame: (((s.current_frame as int) + 1) % (s.total_frames as int)) as usize,
            ..s
        }
    }
}

impl AAnimation {
    /// Advance the timer by `dt` ticks and publish the resulting frame index
    /// into the entity's sprite reference. An inactive animation
    /// (`total_frames == 0`) mutates nothing, in particular it never divides
    /// by zero.
    pub fn frame_update(&mut self, sprite_number: &mut usize, dt: u64)
        requires
            old(self).total_frames > 0 ==> old(self).current_frame < old(self).total_frames,
        ensures
            *final(self) == spec_frame_update(*old(self), dt),
            final(self).total_frames == old(self).total_frames,
            final(self).max_count_till_next_frame == old(self).max_count_till_next_frame,
            old(self).total_frames == 0 ==> *final(self) == *old(self)
                && *final(sprite_number) == *old(sprite_number),
            old(self).total_frames > 0 && old(self).frame_life_time_count > 0 ==> {
                &&& final(self).current_frame == old(self).current_frame
                &&& final(self).frame_life_time_count
                    == if dt <= old(self).frame_life_time_count {
                        old(self).frame_life_time_count - dt
                    } else {
                        0
                    }
            },
            old(self).total_frames > 0 && old(self).frame_life_time_count == 0 ==> {
                &&& final(self).current_frame as int
                    == (old(self).current_frame + 1) % (old(self).total_frames as int)
                &&& final(self).frame_life_time_count == old(self).max_count_till_next_frame
            },
            old(self).total_frames > 0 ==> *final(sprite_number) == final(self).current_frame,
            old(self).wf() ==> final(self).wf(),
    {
        if self.total_frames == 0 {
            return ;
        }
        if self.frame_life_time_count > 0 {
            if dt <= self.frame_life_time_count {
                self.frame_life_time_count = self.frame_life_time_count - dt;
            } else {
                self.frame_life_time_count = 0;
            }
        } else {
            self.frame_life_time_count = self.max_count_till_next_frame;
            self.current_frame = (self.current_frame + 1) % self.total_frames;
        }
        *sprite_number = self.current_frame;
    }
}

/// The animation system: one pass advances every animation by the tick's
/// elapsed time and publishes each resulting frame index into the matching
/// sprite reference.
pub struct Frame;

impl Frame {
    /// Run one animation pass over an arena of animations and their sprite
    /// references, paired by index, with `dt` ticks elapsed since the last
    /// pass. Every animation takes exactly one `frame_update` step; sprite
    /// references of inactive animations are untouched.
    pub fn run(&mut self, animations: &mut Vec<AAnimation>, sprite_numbers: &mut Vec<usize>, dt: u64)
        requires
            old(animations).len() == old(sprite_numbers).len(),
            forall|i: int|
                0 <= i < old(animations)@.len() && (#[trigger] old(animations)@[i]).total_frames
                    > 0 ==> old(animations)@[i].current_frame < old(animations)@[i].total_frames,
        ensures
            final(animations)@.len() == old(animations)@.len(),
            final(sprite_numbers)@.len() == old(sprite_numbers)@.len(),
            forall|i: int|
                0 <= i < old(animations)@.len() ==> #[trigger] final(animations)@[i]
                    == spec_frame_update(old(animations)@[i], dt),
            forall|i: int|
                0 <= i < old(animations)@.len() ==> #[trigger] final(sprite_numbers)@[i] == (
                if old(animations)@[i].total_frames == 0 {
                    old(sprite_numbers)@[i]
                } else {
                    spec_frame_update(old(animations)@[i], dt).current_frame
                }),
    {
        let ghost orig_anims = animations@;
        let ghost orig_sprites = sprite_numbers@;
        let n = animations.len();
        let mut idx: usize = 0;
        while idx < n
            invariant
                idx <= n,
                n == animations@.len(),
                animations@.len() == orig_anims.len(),
                sprite_numbers@.len() == orig_sprites.len(),
                orig_anims.len() == orig_sprites.len(),
                forall|i: int|
                    0 <= i < orig_anims.len() && (#[trigger] orig_anims[i]).total_frames > 0
                        ==> orig_anims[i].current_frame < orig_anims[i].total_frames,
                forall|i: int| idx <= i < orig_anims.len() ==> #[trigger] animations@[i]
                    == orig_anims[i],
                forall|i: int| idx <= i < orig_sprites.len() ==> #[trigger] sprite_numbers@[i]
                    == orig_sprites[i],
                forall|i: int|
                    0 <= i < idx ==> #[trigger] animations@[i] == spec_frame_update(
                        orig_anims[i],
                        dt,
                    ),
                forall|i: int|
                    0 <= i < idx ==> #[trigger] sprite_numbers@[i] == (
                    if orig_anims[i].total_frames == 0 {
                        orig_sprites[i]
                    } else {
                        spec_frame_update(orig_anims[i], dt).current_frame
                    }),
            decreases n - idx,
        {
            let mut anim = animations[idx];
            let mut sprite = sprite_numbers[idx];
            anim.frame_update(&mut sprite, dt);
            animations.set(idx, anim);
            sprite_numbers.set(idx, sprite);
            idx = idx + 1;
        }
    }
}

/// The animation state after `n` successive timer updates of `dt` ticks each.
pub open spec fn spec_updates(s: AAnimation, dt: u64, n: nat) -> AAnimation
    decreases n,
{
    if n == 0 {
        s
    } else {
        spec_frame_update(spec_updates(s, dt, (n - 1) as nat), dt)
    }
}

/// The animation state after one timer update for each entry of `dts`, in
/// order.
pub open spec fn spec_updates_seq(s: AAnimation, dts: Seq<u64>) -> AAnimation
    decreases dts.len(),
{
    if dts.len() == 0 {
        s
    } else {
        spec_updates_seq(spec_frame_update(s, dts[0]), dts.skip(1))
    }
}

/// An inactive animation is frozen: no sequence of updates, whatever each
/// tick's elapsed time, changes any of its fields; in particular
/// `current_frame` never moves and no update divides by zero.
pub proof fn lemma_inactive_animation_frozen(s: AAnimation, dts: Seq<u64>)
    requires
        s.total_frames == 0,
    ensures
        spec_updates_seq(s, dts) == s,
    decreases dts.len(),
{
    if dts.len() > 0 {
        lemma_inactive_animation_frozen(s, dts.skip(1));
    }
}

/// After `2 * k` updates of exactly the per-frame duration each, starting
/// from an expired countdown, the countdown is expired again, the static
/// fields are unchanged, and the frame index has moved forward by `k`
/// cyclic advances (by `2 * k` when the per-frame duration is zero, since
/// then every update advances).
proof fn lemma_cycle_step(s: AAnimation, k: nat)
    requires
        s.wf(),
        s.total_frames > 0,
        s.frame_life_time_count == 0,
    ensures
        ({
            let t = spec_updates(s, s.max_count_till_next_frame, 2 * k);
            let c: int = if s.max_count_till_next_frame > 0 {
                1
            } else {
                2
            };
            &&& t.total_frames == s.total_frames
            &&& t.max_count_till_next_frame == s.max_count_till_next_frame
            &&& t.frame_life_time_count == 0
            &&& t.current_frame as int == (s.current_frame + k * c) % (s.total_frames as int)
        }),
    decreases k,
{
    let d = s.max_count_till_next_frame;
    let t_all = s.total_frames as int;
    let c: int = if d > 0 {
        1
    } else {
        2
    };
    if k == 0 {
        lemma_small_mod(s.current_frame as nat, s.total_frames as nat);
    } else {
        lemma_cycle_step(s, (k - 1) as nat);
        let prev = spec_updates(s, d, 2 * (k - 1) as nat);
        let mid = spec_frame_update(prev, d);
        assert(spec_updates(s, d, 2 * k) == spec_frame_update(
            spec_updates(s, d, (2 * k - 1) as nat),
            d,
        ));
        assert(spec_updates(s, d, (2 * k - 1) as nat) == spec_frame_update(
            spec_updates(s, d, (2 * k - 2) as nat),
            d,
        ));
        assert(prev == spec_updates(s, d, (2 * k - 2) as nat));
        assert(spec_updates(s, d, 2 * k) == spec_frame_update(mid, d));
        assert(mid.current_frame as int == (prev.current_frame + 1) % t_all);
        if d > 0 {
            assert(spec_updates(s, d, 2 * k).current_frame == mid.current_frame);
            lemma_add_mod_noop_right(1, s.current_frame + (k - 1) * c, t_all);
            assert(s.current_frame + (k - 1) * c + 1 == s.current_frame + k * c) by (nonlinear_arith)
                requires c == 1;
        } else {
            assert(mid.frame_life_time_count == 0);
            assert(spec_updates(s, d, 2 * k).current_frame as int == (mid.current_frame + 1)
                % t_all);
            lemma_add_mod_noop_right(1, s.current_frame + (k - 1) * c, t_all);
            lemma_add_mod_noop_right(1, s.current_frame + (k - 1) * c + 1, t_all);
            assert(s.current_frame + (k - 1) * c + 1 + 1 == s.current_frame + k * c) by (nonlinear_arith)
                requires c == 2;
        }
    }
}

/// Cyclic law of the animation timer: starting from an expired countdown,
/// feeding the timer exactly its per-frame duration over and over brings
/// `current_frame` back to its starting value once `total_frames` advances
/// have happened, that is, after `2 * total_frames` updates (updates
/// alternate between consuming the countdown and advancing the frame; when
/// the per-frame duration is zero every update advances, and the frame
/// index then wraps around twice).
pub proof fn lemma_animation_cycle(s: AAnimation)
    requires
        s.wf(),
        s.total_frames > 0,
        s.frame_life_time_count == 0,
    ensures
        spec_updates(s, s.max_count_till_next_frame, 2 * (s.total_frames as nat)).current_frame
            == s.current_frame,
{
    let t_all = s.total_frames as int;
    let c: int = if s.max_count_till_next_frame > 0 {
        1
    } else {
        2
    };
    lemma_cycle_step(s, s.total_frames as nat);
    assert(s.current_frame + (s.total_frames as nat) * c == t_all * c + s.current_frame);
    lemma_mod_multiples_vanish(c, s.current_frame as int, t_all);
    lemma_small_mod(s.current_frame as nat, s.total_frames as nat);
}

impl Default for AAnimation {
    /// The default animation is inactive: no frames, zero timers.
    fn default() -> (r: Self)
        ensures
            r.total_frames == 0,
            r.max_count_till_next_frame == 0,
            r.frame_life_time_count == 0,
            r.current_frame == 0,
            r.wf(),
    {
        Self {
            total_frames: 0,
            max_count_till_next_frame: 0,
            frame_life_time_count: 0,
            current_frame: 0,
        }
    }
}

} // verus!
