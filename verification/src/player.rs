//! Shuffle randomness and the decision taken when the current track finishes.

use vstd::prelude::*;

use crate::state::RepeatMode;

verus! {

/// The xorshift64* state transition (before the output multiplication).
pub open spec fn spec_xorshift_next_state(s: u64) -> u64 {
    let a = s ^ (s >> 12u64);
    let b = a ^ (a << 25u64);
    b ^ (b >> 27u64)
}

/// The xorshift64* output for a (new) state: multiplication by the generator constant mod 2^64.
pub open spec fn spec_xorshift_output(s: u64) -> u64 {
    ((s as nat * 0x2545_F491_4F6C_DD1Du64 as nat) % 0x1_0000_0000_0000_0000nat) as u64
}

/// Seed the shuffle generator from a nanosecond clock reading: the low 64 bits with the
/// lowest bit forced on, so the seed is never zero.
pub fn seed_xorshift(nanos: u128) -> (r: u64)
    ensures
        r == (nanos as u64) | 1u64,
        r & 1u64 == 1u64,
        r != 0,
{
    let low = nanos as u64;
    let r = low | 1u64;
    assert(r & 1u64 == 1u64) by (bit_vector)
        requires
            r == low | 1u64,
    ;
    assert(r != 0) by (bit_vector)
        requires
            r == low | 1u64,
    ;
    r
}

/// xorshift64* — deterministic PRNG for shuffle.
pub fn xorshift64star(state: &mut u64) -> (r: u64)
    ensures
        *final(state) == spec_xorshift_next_state(*old(state)),
        r == spec_xorshift_output(*final(state)),
{
    *state = *state ^ (*state >> 12u64);
    *state = *state ^ (*state << 25u64);
    *state = *state ^ (*state >> 27u64);
    (*state).wrapping_mul(0x2545_F491_4F6C_DD1Du64)
}

/// Adding an offset of at most `len` to an index below `len` wraps at most once.
pub proof fn lemma_wrap_once(c: nat, off: nat, len: nat)
    requires
        c < len,
        off <= len,
    ensures
        (c + off) % len == if c + off >= len {
            (c + off - len) as nat
        } else {
            c + off
        },
{
    if c + off >= len {
        vstd::arithmetic::div_mod::lemma_mod_add_multiples_vanish((c + off - len) as int, len as int);
        vstd::arithmetic::div_mod::lemma_small_mod((c + off - len) as nat, len);
    } else {
        vstd::arithmetic::div_mod::lemma_small_mod(c + off, len);
    }
}

/// Index picked by the shuffle step for a draw `x` (the generator output).
pub open spec fn spec_shuffle_pick(x: u64, len: nat, current: Option<usize>) -> Option<usize> {
    if len == 0 {
        None
    } else if len == 1 {
        Some(0usize)
    } else {
        let cur = (match current {
            Some(c) => c as nat,
            None => 0nat,
        }) % len;
        let off = (x as nat % ((len - 1) as nat)) + 1;
        Some(((cur + off) % len) as usize)
    }
}

/// Next index after `current` when shuffle is enabled (`len >= 2` guarantees a different index).
pub fn next_shuffled(state: &mut u64, len: usize, current: Option<usize>) -> (r: Option<usize>)
    ensures
        len <= 1 ==> *final(state) == *old(state),
        len >= 2 ==> *final(state) == spec_xorshift_next_state(*old(state)),
        len >= 2 ==> r == spec_shuffle_pick(
            spec_xorshift_output(*final(state)),
            len as nat,
            current,
        ),
        len <= 1 ==> r == spec_shuffle_pick(0, len as nat, current),
        r is None <==> len == 0,
        r matches Some(i) ==> i < len,
{
    if len == 0 {
        return None;
    }
    if len == 1 {
        return Some(0);
    }
    let cur = match current {
        Some(c) => c,
        None => 0,
    } % len;
    let x = xorshift64star(state);
    let off = (x % (len as u64 - 1)) as usize + 1;
    proof {
        vstd::arithmetic::div_mod::lemma_mod_pos_bound(x as int, (len - 1) as int);
    }
    let idx = if off >= len - cur {
        off - (len - cur)
    } else {
        cur + off
    };
    proof {
        let c = (match current {
            Some(c) => c as nat,
            None => 0nat,
        }) % (len as nat);
        vstd::arithmetic::div_mod::lemma_mod_pos_bound(
            (match current {
                Some(c) => c as int,
                None => 0int,
            }),
            len as int,
        );
        assert(cur as nat == c);
        assert(off as nat == (x as nat % ((len - 1) as nat)) + 1);
        lemma_wrap_once(cur as nat, off as nat, len as nat);
    }
    Some(idx)
}

/// A shuffled pick never lands on the (in-range) current index when there are at least two tracks.
pub proof fn lemma_shuffle_pick_avoids_current(x: u64, len: usize, c: usize)
    requires
        len >= 2,
        c < len,
    ensures
        spec_shuffle_pick(x, len as nat, Some(c)) matches Some(i) && i != c && i < len,
{
    let l = len as nat;
    let off = (x as nat % ((l - 1) as nat)) + 1;
    vstd::arithmetic::div_mod::lemma_mod_pos_bound(x as int, (l - 1) as int);
    assert(1 <= off < l);
    vstd::arithmetic::div_mod::lemma_small_mod(c as nat, l);
    lemma_wrap_once(c as nat, off, l);
}

/// What the player does once the playing track has finished.
#[derive(Debug, Clone, Copy, PartialEq, Eq, Structural)]
pub enum AdvanceAction {
    /// Seek the current track back to its start and keep playing.
    Restart,
    /// Stop playback and unload the track.
    Stop,
    /// Load and play the library entry with this index.
    Play(usize),
    /// Leave everything as it is.
    Keep,
}

/// The follow-up after a finished track, given the generator output `x` used when shuffling.
pub open spec fn spec_advance(
    x: u64,
    repeat: RepeatMode,
    shuffle: bool,
    current: Option<usize>,
    lib_len: nat,
) -> AdvanceAction {
    let cur: nat = match current {
        Some(c) => c as nat,
        None => 0,
    };
    match repeat {
        RepeatMode::One => AdvanceAction::Restart,
        _ => {
            let next: Option<usize> = if shuffle {
                spec_shuffle_pick(x, lib_len, Some(cur as usize))
            } else if repeat == RepeatMode::All {
                Some(((cur + 1) % lib_len) as usize)
            } else if cur + 1 >= lib_len {
                None
            } else {
                Some((cur + 1) as usize)
            };
            match next {
                None => if repeat == RepeatMode::Off {
                    AdvanceAction::Stop
                } else {
                    AdvanceAction::Keep
                },
                Some(n) => if repeat == RepeatMode::All && n == cur && lib_len == 1 {
                    AdvanceAction::Restart
                } else {
                    AdvanceAction::Play(n)
                },
            }
        },
    }
}

/// Decide what follows a finished track (repeat one restarts; otherwise the next index by
/// shuffle, wrap-around for repeat all, or stop after the last track for repeat off).
pub fn advance_after_track_end(
    rng: &mut u64,
    repeat: RepeatMode,
    shuffle: bool,
    current: Option<usize>,
    lib_len: usize,
) -> (r: AdvanceAction)
    requires
        lib_len > 0,
    ensures
        repeat != RepeatMode::One && shuffle && lib_len >= 2 ==> *final(rng)
            == spec_xorshift_next_state(*old(rng)),
        !(repeat != RepeatMode::One && shuffle && lib_len >= 2) ==> *final(rng) == *old(rng),
        r == spec_advance(
            if repeat != RepeatMode::One && shuffle && lib_len >= 2 {
                spec_xorshift_output(*final(rng))
            } else {
                0u64
            },
            repeat,
            shuffle,
            current,
            lib_len as nat,
        ),
        r matches AdvanceAction::Play(i) ==> i < lib_len,
{
    let cur = match current {
        Some(c) => c,
        None => 0,
    };
    match repeat {
        RepeatMode::One => AdvanceAction::Restart,
        _ => {
            let next = if shuffle {
                next_shuffled(rng, lib_len, Some(cur))
            } else if repeat == RepeatMode::All {
                let w = cur % lib_len;
                let n = if w + 1 == lib_len {
                    0
                } else {
                    w + 1
                };
                proof {
                    let l = lib_len as int;
                    vstd::arithmetic::div_mod::lemma_fundamental_div_mod(cur as int, l);
                    vstd::arithmetic::div_mod::lemma_mod_pos_bound(cur as int, l);
                    assert(cur + 1 == l * (cur as int / l) + (w + 1));
                    vstd::arithmetic::div_mod::lemma_mod_multiples_vanish(cur as int / l, (w + 1) as int, l);
                    lemma_wrap_once(w as nat, 1, lib_len as nat);
                }
                Some(n)
            } else if cur >= lib_len - 1 {
                None
            } else {
                Some(cur + 1)
            };
            match next {
                None => if repeat == RepeatMode::Off {
                    AdvanceAction::Stop
                } else {
                    AdvanceAction::Keep
                },
                Some(n) => if repeat == RepeatMode::All && n == cur && lib_len == 1 {
                    AdvanceAction::Restart
                } else {
                    AdvanceAction::Play(n)
                },
            }
        },
    }
}

/// Ticks (of about 10 ms) between automatic reconnect attempts without an output device.
pub const RECONNECT_TICKS: u32 = 200;

/// One tick of the reconnect timer: while silent the counter climbs and an attempt is due
/// every [`RECONNECT_TICKS`] ticks (the counter then restarts); with a device it stays at
/// zero. Returns the new counter and whether to reconnect now.
pub fn reconnect_tick(ticks: u32, silent: bool) -> (r: (u32, bool))
    ensures
        !silent ==> r == (0u32, false),
        silent && ticks as int + 1 >= RECONNECT_TICKS ==> r == (0u32, true),
        silent && (ticks as int + 1) < RECONNECT_TICKS ==> r == ((ticks + 1) as u32, false),
{
    if silent {
        let t = if ticks < u32::MAX {
            ticks + 1
        } else {
            ticks
        };
        if t >= RECONNECT_TICKS {
            (0, true)
        } else {
            (t, false)
        }
    } else {
        (0, false)
    }
}

/// The library entry to load: the playing index when it points into the library and is
/// not the one already loaded.
pub fn track_to_load(lib_len: usize, current: Option<usize>, loaded: Option<usize>) -> (r: Option<usize>)
    ensures
        r == (match current {
            Some(ci) => if ci < lib_len && loaded != Some(ci) {
                Some(ci)
            } else {
                None::<usize>
            },
            None => None,
        }),
{
    match current {
        Some(ci) => if ci < lib_len && loaded != Some(ci) {
            Some(ci)
        } else {
            None
        },
        None => None,
    }
}

} // verus!
