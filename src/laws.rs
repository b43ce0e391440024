//! What holds of the controller over one or many frames.
use vstd::prelude::*;

use crate::fixed::{
    abs, drain, lemma_drain_contracts, lemma_power_nonneg, lemma_scale_up_bounds, power, Vec3,
    MICROS_PER_SECOND,
};
use crate::player::{
    clamp_pitch_turn, combined_direction, drained, move_share, moved, movement_direction_of,
    norm_sq, requested, toggle_step, turn_share, update_step, valid_frame, CursorChange,
    MoveActions, PlayerView, MIN_BOTTOM_ANGLE, MIN_TOP_ANGLE,
};
use crate::transform::{Basis, Transform};

verus! {

pub open spec fn between_poles(t: Transform) -> bool {
    MIN_TOP_ANGLE <= t.pitch <= MIN_BOTTOM_ANGLE
}

/// A frame's first phase keeps a pitch that lies between the poles there,
/// whatever the pointer did.
pub proof fn lemma_update_keeps_pitch_between_poles(
    prev: PlayerView,
    t0: Transform,
    next: PlayerView,
    t1: Transform,
    dt: int,
    dx: int,
    dy: int,
)
    requires
        between_poles(t0),
        valid_frame(dt),
        update_step(prev, t0, next, t1, dt, dx, dy),
    ensures
        between_poles(t1),
{
    if prev.controlled {
        let pv = clamp_pitch_turn(t0.pitch as int, prev.v_rot_acc + dy * dt);
        lemma_scale_up_bounds(pv, turn_share(dt), MICROS_PER_SECOND as int);
    }
}

/// Over any number of frames and any pointer motion, the angle between the
/// forward direction and the world up axis stays within
/// `[MIN_TOP_ANGLE, MIN_BOTTOM_ANGLE]` after every frame. Frame `i` turns
/// `ts[i]` into `ts[i + 1]` with the inputs `frames[i]` (length, horizontal
/// and vertical pointer motion); the other phases of a frame keep the
/// orientation.
pub proof fn lemma_pitch_stays_between_poles(
    before: Seq<PlayerView>,
    after: Seq<PlayerView>,
    ts: Seq<Transform>,
    frames: Seq<(int, int, int)>,
)
    requires
        before.len() == frames.len(),
        after.len() == frames.len(),
        ts.len() == frames.len() + 1,
        between_poles(ts[0]),
        forall|i: int|
            0 <= i < frames.len() ==> valid_frame(#[trigger] frames[i].0) && update_step(
                before[i],
                ts[i],
                after[i],
                ts[i + 1],
                frames[i].0,
                frames[i].1,
                frames[i].2,
            ),
    ensures
        forall|i: int| 0 <= i < ts.len() ==> between_poles(#[trigger] ts[i]),
    decreases frames.len(),
{
    let n = frames.len() as int;
    if n > 0 {
        lemma_pitch_stays_between_poles(
            before.drop_last(),
            after.drop_last(),
            ts.drop_last(),
            frames.drop_last(),
        );
        assert(between_poles(ts[n - 1])) by {
            assert(ts.drop_last()[n - 1] == ts[n - 1]);
        }
        assert(valid_frame(frames[n - 1].0));
        lemma_update_keeps_pitch_between_poles(
            before[n - 1],
            ts[n - 1],
            after[n - 1],
            ts[n],
            frames[n - 1].0,
            frames[n - 1].1,
            frames[n - 1].2,
        );
        assert forall|i: int| 0 <= i < ts.len() implies between_poles(#[trigger] ts[i]) by {
            if i < n {
                assert(ts.drop_last()[i] == ts[i]);
            }
        }
    }
}

/// A sequence whose every step shrinks by the factor `(den - s) / den`
/// shrinks by its `k`-th power in `k` steps.
proof fn lemma_decay_chain(vals: Seq<int>, s: int, den: int)
    requires
        0 <= s <= den,
        0 < den,
        vals.len() >= 1,
        forall|i: int|
            0 <= i < vals.len() - 1 ==> abs(#[trigger] vals[i + 1]) * den <= abs(vals[i]) * (den - s),
    ensures
        forall|k: int|
            0 <= k < vals.len() ==> abs(#[trigger] vals[k]) * power(den, k as nat) <= abs(vals[0])
                * power(den - s, k as nat),
    decreases vals.len(),
{
    let n = vals.len() as int;
    if n > 1 {
        let init = vals.drop_last();
        assert forall|i: int| 0 <= i < init.len() - 1 implies abs(#[trigger] init[i + 1]) * den <= abs(
            init[i],
        ) * (den - s) by {
            assert(init[i + 1] == vals[i + 1]);
            assert(init[i] == vals[i]);
        }
        lemma_decay_chain(init, s, den);
        assert forall|k: int| 0 <= k < n implies abs(#[trigger] vals[k]) * power(den, k as nat)
            <= abs(vals[0]) * power(den - s, k as nat) by {
            if k < n - 1 {
                assert(init[k] == vals[k]);
                assert(init[0] == vals[0]);
            } else {
                let k1 = (k - 1) as nat;
                assert(init[k - 1] == vals[k - 1]);
                assert(init[0] == vals[0]);
                lemma_power_nonneg(den, k1);
                assert(abs(vals[(k - 1) + 1]) * den <= abs(vals[k - 1]) * (den - s));
                let x = abs(vals[k]);
                let p = abs(vals[k - 1]);
                let dk = power(den, k1);
                let ek = power(den - s, k1);
                assert(power(den, k as nat) == den * dk);
                assert(power(den - s, k as nat) == (den - s) * ek);
                assert(x * (den * dk) <= abs(vals[0]) * ((den - s) * ek)) by (nonlinear_arith)
                    requires
                        x * den <= p * (den - s),
                        p * dk <= abs(vals[0]) * ek,
                        dk >= 0,
                        den - s >= 0,
                ;
            }
        }
    }
}

/// With no new movement input and nothing in the way (the physics world
/// hands the requested residual back as safe), each frame replaces every
/// coordinate of the translation residual by what `drained` leaves of it;
/// after `k` such frames each coordinate is at most its first magnitude
/// times `(1 - MOVE_SPEED * dt)^k`.
pub proof fn lemma_idle_translation_decays(accs: Seq<Vec3>, dt: int)
    requires
        valid_frame(dt),
        accs.len() >= 1,
        forall|i: int| 0 <= i < accs.len() - 1 ==> drained(#[trigger] accs[i], dt, accs[i + 1]),
    ensures
        forall|k: int|
            0 <= k < accs.len() ==> {
                let den = MICROS_PER_SECOND as int;
                let keep = den - move_share(dt);
                &&& abs(#[trigger] accs[k].x as int) * power(den, k as nat) <= abs(accs[0].x as int)
                    * power(keep, k as nat)
                &&& abs(accs[k].y as int) * power(den, k as nat) <= abs(accs[0].y as int) * power(
                    keep,
                    k as nat,
                )
                &&& abs(accs[k].z as int) * power(den, k as nat) <= abs(accs[0].z as int) * power(
                    keep,
                    k as nat,
                )
            },
{
    let den = MICROS_PER_SECOND as int;
    let s = move_share(dt);
    let xs = Seq::new(accs.len(), |i: int| accs[i].x as int);
    let ys = Seq::new(accs.len(), |i: int| accs[i].y as int);
    let zs = Seq::new(accs.len(), |i: int| accs[i].z as int);
    assert forall|i: int| 0 <= i < accs.len() - 1 implies abs(#[trigger] xs[i + 1]) * den <= abs(
        xs[i],
    ) * (den - s) by {
        assert(drained(accs[i], dt, accs[i + 1]));
        lemma_drain_contracts(accs[i].x as int, s, den);
    }
    assert forall|i: int| 0 <= i < accs.len() - 1 implies abs(#[trigger] ys[i + 1]) * den <= abs(
        ys[i],
    ) * (den - s) by {
        assert(drained(accs[i], dt, accs[i + 1]));
        lemma_drain_contracts(accs[i].y as int, s, den);
    }
    assert forall|i: int| 0 <= i < accs.len() - 1 implies abs(#[trigger] zs[i + 1]) * den <= abs(
        zs[i],
    ) * (den - s) by {
        assert(drained(accs[i], dt, accs[i + 1]));
        lemma_drain_contracts(accs[i].z as int, s, den);
    }
    lemma_decay_chain(xs, s, den);
    lemma_decay_chain(ys, s, den);
    lemma_decay_chain(zs, s, den);
    assert forall|k: int| 0 <= k < accs.len() implies {
        let keep = den - s;
        &&& abs(#[trigger] accs[k].x as int) * power(den, k as nat) <= abs(accs[0].x as int)
            * power(keep, k as nat)
        &&& abs(accs[k].y as int) * power(den, k as nat) <= abs(accs[0].y as int) * power(
            keep,
            k as nat,
        )
        &&& abs(accs[k].z as int) * power(den, k as nat) <= abs(accs[0].z as int) * power(
            keep,
            k as nat,
        )
    } by {
        assert(xs[k] == accs[k].x && xs[0] == accs[0].x);
        assert(ys[k] == accs[k].y && ys[0] == accs[0].y);
        assert(zs[k] == accs[k].z && zs[0] == accs[0].z);
    }
}

/// The clamp toward the poles never lengthens the pending pitch change nor
/// turns its sign, when the pitch lies between the poles.
proof fn lemma_clamp_shortens(pitch: int, pending: int)
    requires
        MIN_TOP_ANGLE <= pitch <= MIN_BOTTOM_ANGLE,
    ensures
        abs(clamp_pitch_turn(pitch, pending)) <= abs(pending),
{
}

/// While the player is under control and the pointer rests, each frame
/// shrinks both rotation residuals: after `k` frames each is at most its
/// first magnitude times `(1 - ROTATION_SPEED * dt)^k`.
pub proof fn lemma_idle_rotation_decays(ps: Seq<PlayerView>, ts: Seq<Transform>, dt: int)
    requires
        ps.len() == ts.len(),
        ps.len() >= 1,
        valid_frame(dt),
        between_poles(ts[0]),
        forall|i: int|
            0 <= i < ps.len() - 1 ==> (#[trigger] ps[i]).controlled && update_step(
                ps[i],
                ts[i],
                ps[i + 1],
                ts[i + 1],
                dt,
                0,
                0,
            ),
    ensures
        forall|k: int|
            0 <= k < ps.len() ==> {
                let den = MICROS_PER_SECOND as int;
                let keep = den - turn_share(dt);
                &&& abs((#[trigger] ps[k]).h_rot_acc) * power(den, k as nat) <= abs(ps[0].h_rot_acc)
                    * power(keep, k as nat)
                &&& abs(ps[k].v_rot_acc) * power(den, k as nat) <= abs(ps[0].v_rot_acc) * power(
                    keep,
                    k as nat,
                )
            },
{
    let den = MICROS_PER_SECOND as int;
    let s = turn_share(dt);
    let n = ps.len() as int;
    let frames = Seq::new((n - 1) as nat, |i: int| (dt, 0int, 0int));
    lemma_pitch_stays_between_poles(ps.drop_last(), ps.drop_first(), ts, frames);
    let hs = Seq::new(ps.len(), |i: int| ps[i].h_rot_acc);
    let vs = Seq::new(ps.len(), |i: int| ps[i].v_rot_acc);
    assert forall|i: int| 0 <= i < n - 1 implies abs(#[trigger] hs[i + 1]) * den <= abs(hs[i]) * (den
        - s) by {
        assert(ps[i].controlled);
        lemma_drain_contracts(ps[i].h_rot_acc + 0 * dt, s, den);
    }
    assert forall|i: int| 0 <= i < n - 1 implies abs(#[trigger] vs[i + 1]) * den <= abs(vs[i]) * (den
        - s) by {
        assert(ps[i].controlled);
        assert(between_poles(ts[i]));
        let c = clamp_pitch_turn(ts[i].pitch as int, ps[i].v_rot_acc + 0 * dt);
        lemma_clamp_shortens(ts[i].pitch as int, ps[i].v_rot_acc + 0 * dt);
        lemma_drain_contracts(c, s, den);
        let r = abs(drain(c, s, den));
        let a = abs(c);
        let v = abs(ps[i].v_rot_acc);
        assert(r * den <= v * (den - s)) by (nonlinear_arith)
            requires
                r * den <= a * (den - s),
                a <= v,
                den - s >= 0,
        ;
    }
    lemma_decay_chain(hs, s, den);
    lemma_decay_chain(vs, s, den);
    assert forall|k: int| 0 <= k < n implies {
        let keep = den - s;
        &&& abs((#[trigger] ps[k]).h_rot_acc) * power(den, k as nat) <= abs(ps[0].h_rot_acc) * power(
            keep,
            k as nat,
        )
        &&& abs(ps[k].v_rot_acc) * power(den, k as nat) <= abs(ps[0].v_rot_acc) * power(
            keep,
            k as nat,
        )
    } by {
        assert(hs[k] == ps[k].h_rot_acc && hs[0] == ps[0].h_rot_acc);
        assert(vs[k] == ps[k].v_rot_acc && vs[0] == ps[0].v_rot_acc);
    }
}

/// Engaging control and then disengaging it restores the state the player
/// had, and asks the window to capture and then release the pointer.
pub proof fn lemma_toggle_twice_restores(
    prev: PlayerView,
    next: PlayerView,
    last: PlayerView,
    c1: CursorChange,
    c2: CursorChange,
)
    requires
        !prev.controlled,
        toggle_step(prev, true, next, c1),
        toggle_step(next, true, last, c2),
    ensures
        next.controlled,
        c1 == CursorChange::Capture,
        !last.controlled,
        c2 == CursorChange::Release,
        last == prev,
{
}

/// A frame out of control holds the translation residual at zero and the
/// transform still, whatever movement or pointer input there is.
pub proof fn lemma_uncontrolled_holds_still(
    prev: PlayerView,
    t0: Transform,
    next: PlayerView,
    t1: Transform,
    dt: int,
    dx: int,
    dy: int,
)
    requires
        !prev.controlled,
        update_step(prev, t0, next, t1, dt, dx, dy),
    ensures
        next.translation_acc == (Vec3 { x: 0, y: 0, z: 0 }),
        !next.controlled,
        t1 == t0,
{
}

/// When the collider and the transform start a movement at the same place,
/// they end it at the same place: both move by the same share of the safe
/// translation.
pub proof fn lemma_collider_follows_transform(
    transform_before: Vec3,
    confirmed: Vec3,
    remaining: Vec3,
    dt: int,
    transform_after: Vec3,
    collider_after: Vec3,
)
    requires
        transform_before == confirmed,
        moved(transform_before, remaining, dt, transform_after),
        moved(confirmed, remaining, dt, collider_after),
    ensures
        transform_after == collider_after,
{
}

/// Movement input whose combined direction has no length leaves the
/// translation residual exactly as it was.
pub proof fn lemma_no_direction_keeps_residual(
    b: Basis,
    a: MoveActions,
    acc: Vec3,
    dt: int,
    desired: Vec3,
)
    requires
        norm_sq(combined_direction(b, a)) == 0,
        requested(acc, movement_direction_of(b, a), dt, desired),
    ensures
        desired == acc,
{
}

} // verus!
