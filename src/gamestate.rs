use chrono::{Datelike, Timelike};
use vstd::prelude::*;

verus! {

/// Number of key codes the keyboard texture holds.
pub const KEY_COUNT: usize = 256;

/// Length of the key state array: held, edge and toggle rows of `KEY_COUNT` each.
pub const KEY_STATE_LEN: usize = 768;

/// Time step of the first frame, in microseconds.
pub const FIRST_FRAME_DELTA: u64 = 16_000;

/// Microseconds in one second.
pub const MICROS_PER_SECOND: u64 = 1_000_000;

/// The civil UTC date of a Unix timestamp in seconds, as year, month, day and
/// seconds since midnight; `None` where the timestamp is out of the calendar's range.
pub uninterp spec fn civil_date_of(secs: int) -> Option<[u32; 4]>;

/// Relies on chrono's `DateTime::from_timestamp` (`None` out of its range) and on the
/// `Datelike` / `Timelike` accessors of the UTC date-time it returns.
#[verifier::external_body]
fn civil_date(secs: i64) -> (r: Option<[u32; 4]>)
    ensures
        r == civil_date_of(secs as int),
{
    match chrono::DateTime::from_timestamp(secs, 0) {
        Some(t) => Some([t.year() as u32, t.month(), t.day(), t.num_seconds_from_midnight()]),
        None => None,
    }
}

/// Per-frame values handed to the shaders, and the keyboard state.
///
/// Times are in microseconds. `keys` holds three rows of `KEY_COUNT` entries:
/// `keys[k]` is 1 while key `k` is held, `keys[256 + k]` is +1 / -1 on the frame
/// after a press / release, and `keys[512 + k]` flips between 0 and 1 on each press.
pub struct GameState {
    /// Time since the first frame.
    pub time_since_start: u64,
    /// Time between the previous frame and this one.
    pub time_delta: u64,
    /// Year, month, day and seconds since midnight of the current frame.
    pub date: [u32; 4],
    /// When the previous frame was rendered, since the Unix epoch; `None` before the first.
    pub prev_render_time: Option<u64>,
    /// The keyboard rows described above.
    pub keys: Vec<i8>,
    /// Set whenever `keys` changed since the flag was last cleared.
    pub keys_dirty: bool,
}

/// The key rows after key `k` went down (`down`) or up.
pub open spec fn key_event_applied(keys: Seq<i8>, k: int, down: bool) -> Seq<i8> {
    if down == (keys[k] == 1) {
        keys
    } else {
        let toggled: i8 = if down {
            if keys[512 + k] == 0 {
                1
            } else {
                0
            }
        } else {
            keys[512 + k]
        };
        keys.update(k, if down { 1i8 } else { 0i8 }).update(256 + k, if down { 1i8 } else { -1i8 }).update(
            512 + k,
            toggled,
        )
    }
}

/// Whether a key event changes the key rows.
pub open spec fn key_event_changes(keys: Seq<i8>, k: int, down: bool) -> bool {
    down != (keys[k] == 1)
}

/// The key rows with the edge row cleared.
pub open spec fn edges_cleared(keys: Seq<i8>) -> Seq<i8> {
    Seq::new(keys.len(), |i: int| if 256 <= i < 512 { 0i8 } else { keys[i] })
}

/// The edge-row entry of key `k`.
pub open spec fn edge_of(keys: Seq<i8>, k: int) -> i8 {
    keys[256 + k]
}

/// Whether some entry of the edge row is non-zero.
pub open spec fn has_edge(keys: Seq<i8>) -> bool {
    exists|k: int| 0 <= k < 256 && #[trigger] edge_of(keys, k) != 0
}

/// The time step of a frame rendered at `now`, given the previous frame's time.
pub open spec fn frame_delta(prev: Option<u64>, now: u64) -> u64 {
    match prev {
        None => FIRST_FRAME_DELTA,
        Some(p) => if now >= p {
            (now - p) as u64
        } else {
            0
        },
    }
}

impl GameState {
    /// The key array has its three rows.
    pub open spec fn wf(&self) -> bool {
        self.keys@.len() == KEY_STATE_LEN
    }

    /// The state after the clock read `now` (microseconds since the Unix epoch).
    pub open spec fn times_updated(self, now: u64) -> GameState {
        let dt = frame_delta(self.prev_render_time, now);
        GameState {
            time_since_start: if self.time_since_start + dt > u64::MAX {
                u64::MAX
            } else {
                (self.time_since_start + dt) as u64
            },
            time_delta: dt,
            date: match civil_date_of((now / MICROS_PER_SECOND) as int) {
                Some(d) => d,
                None => self.date,
            },
            prev_render_time: Some(now),
            ..self
        }
    }

    /// A state with no time elapsed and no key held.
    pub fn new() -> (r: Self)
        ensures
            r.wf(),
            r.time_since_start == 0,
            r.time_delta == 0,
            r.date@ == seq![0u32, 0, 0, 0],
            r.prev_render_time is None,
            forall|i: int| 0 <= i < KEY_STATE_LEN ==> r.keys@[i] == 0,
            !r.keys_dirty,
    {
        let keys: Vec<i8> = vec![0i8; KEY_STATE_LEN];
        let r = GameState {
            time_since_start: 0,
            time_delta: 0,
            date: [0, 0, 0, 0],
            prev_render_time: None,
            keys,
            keys_dirty: false,
        };
        assert(r.date@ =~= seq![0u32, 0, 0, 0]);
        r
    }

    /// Advances the clock to `now`, microseconds since the Unix epoch.
    ///
    /// The time step is `now` minus the previous frame's time, never negative, and
    /// `FIRST_FRAME_DELTA` on the first frame. The date is the UTC date of `now`;
    /// it stays as it was where `now` is beyond the calendar's range.
    pub fn update_times(&mut self, now: u64)
        ensures
            *final(self) == old(self).times_updated(now),
    {
        let dt: u64 = match self.prev_render_time {
            None => FIRST_FRAME_DELTA,
            Some(prev) => if now >= prev {
                now - prev
            } else {
                0
            },
        };
        self.prev_render_time = Some(now);
        self.time_since_start = self.time_since_start.saturating_add(dt);
        self.time_delta = dt;
        let secs = (now / MICROS_PER_SECOND) as i64;
        match civil_date(secs) {
            Some(d) => {
                self.date = d;
            },
            None => {},
        }
    }

    /// Records that key `keycode` went down (`state`) or up.
    ///
    /// Where this changes whether the key is held, the held row follows it, the
    /// edge row becomes +1 on a press and -1 on a release, the toggle row flips on
    /// a press, and `keys_dirty` is set. Otherwise nothing changes.
    pub fn set_key_state(&mut self, keycode: usize, state: bool)
        requires
            old(self).wf(),
            keycode < KEY_COUNT,
        ensures
            final(self).wf(),
            final(self).keys@ == key_event_applied(old(self).keys@, keycode as int, state),
            final(self).keys_dirty == (old(self).keys_dirty || key_event_changes(
                old(self).keys@,
                keycode as int,
                state,
            )),
            final(self).time_since_start == old(self).time_since_start,
            final(self).time_delta == old(self).time_delta,
            final(self).date == old(self).date,
            final(self).prev_render_time == old(self).prev_render_time,
    {
        if state != (self.keys[keycode] == 1) {
            let toggled: i8 = if state {
                if self.keys[512 + keycode] == 0 {
                    1
                } else {
                    0
                }
            } else {
                self.keys[512 + keycode]
            };
            self.keys.set(keycode, if state { 1 } else { 0 });
            self.keys.set(256 + keycode, if state { 1 } else { -1 });
            self.keys.set(512 + keycode, toggled);
            self.keys_dirty = true;
        }
    }

    /// Clears the edge row at the end of a frame, so an edge is seen for one
    /// frame only. Sets `keys_dirty` where some edge was non-zero.
    pub fn update_key_tick(&mut self)
        requires
            old(self).wf(),
        ensures
            final(self).wf(),
            final(self).keys@ == edges_cleared(old(self).keys@),
            final(self).keys_dirty == (old(self).keys_dirty || has_edge(old(self).keys@)),
            final(self).time_since_start == old(self).time_since_start,
            final(self).time_delta == old(self).time_delta,
            final(self).date == old(self).date,
            final(self).prev_render_time == old(self).prev_render_time,
    {
        let ghost old_keys = self.keys@;
        let mut keycode: usize = 0;
        while keycode < KEY_COUNT
            invariant
                keycode <= KEY_COUNT,
                self.keys@.len() == KEY_STATE_LEN,
                old_keys.len() == KEY_STATE_LEN,
                forall|i: int|
                    0 <= i < KEY_STATE_LEN ==> #[trigger] self.keys@[i] == if 256 <= i < 256
                        + keycode {
                        0i8
                    } else {
                        old_keys[i]
                    },
                self.keys_dirty == (old(self).keys_dirty || exists|k: int|
                    0 <= k < keycode && #[trigger] edge_of(old_keys, k) != 0),
                self.time_since_start == old(self).time_since_start,
                self.time_delta == old(self).time_delta,
                self.date == old(self).date,
                self.prev_render_time == old(self).prev_render_time,
            decreases KEY_COUNT - keycode,
        {
            assert(edge_of(old_keys, keycode as int) == self.keys@[256 + keycode]);
            if self.keys[256 + keycode] != 0 {
                self.keys.set(256 + keycode, 0);
                self.keys_dirty = true;
            }
            keycode = keycode + 1;
        }
        assert(self.keys@ =~= edges_cleared(old_keys));
    }

    /// Clears the flag that says the keys changed.
    pub fn clear_keys_dirty(&mut self)
        ensures
            *final(self) == (GameState { keys_dirty: false, ..*old(self) }),
    {
        self.keys_dirty = false;
    }
}

/// The key rows after a sequence of key events, each a key code and whether it went down.
pub open spec fn key_events_applied(keys: Seq<i8>, events: Seq<(int, bool)>) -> Seq<i8>
    decreases events.len(),
{
    if events.len() == 0 {
        keys
    } else {
        let e = events.last();
        key_event_applied(key_events_applied(keys, events.drop_last()), e.0, e.1)
    }
}

/// How many events of the sequence pressed key `k` while it was not held.
pub open spec fn press_count(keys: Seq<i8>, events: Seq<(int, bool)>, k: int) -> nat
    decreases events.len(),
{
    if events.len() == 0 {
        0
    } else {
        let e = events.last();
        let before = key_events_applied(keys, events.drop_last());
        press_count(keys, events.drop_last(), k) + if e.0 == k && e.1 && before[k] != 1 {
            1nat
        } else {
            0nat
        }
    }
}

/// Every event names a key code of the keyboard texture.
pub open spec fn events_in_range(events: Seq<(int, bool)>) -> bool {
    forall|i: int| 0 <= i < events.len() ==> 0 <= #[trigger] events[i].0 < KEY_COUNT
}

/// Toggle parity: after a sequence of key events, the toggle entry of key `k` has
/// flipped once per press of `k` (a release, or a press of a held key, leaves it).
pub proof fn lemma_toggle_parity(keys: Seq<i8>, events: Seq<(int, bool)>, k: int)
    requires
        keys.len() == KEY_STATE_LEN,
        0 <= k < KEY_COUNT,
        events_in_range(events),
        keys[512 + k] == 0 || keys[512 + k] == 1,
    ensures
        key_events_applied(keys, events).len() == KEY_STATE_LEN,
        key_events_applied(keys, events)[512 + k] as int == (keys[512 + k] + press_count(
            keys,
            events,
            k,
        )) % 2,
    decreases events.len(),
{
    if events.len() > 0 {
        let rest = events.drop_last();
        assert forall|i: int| 0 <= i < rest.len() implies 0 <= #[trigger] rest[i].0 < KEY_COUNT by {
            assert(rest[i] == events[i]);
        }
        lemma_toggle_parity(keys, rest, k);
        let e = events.last();
        assert(events[events.len() - 1] == e);
    }
}

/// Toggle parity from a fresh state: after `n` presses of key `k`, its toggle
/// entry is `n mod 2`.
pub proof fn lemma_toggle_parity_from_new(keys: Seq<i8>, events: Seq<(int, bool)>, k: int)
    requires
        keys.len() == KEY_STATE_LEN,
        forall|i: int| 0 <= i < KEY_STATE_LEN ==> keys[i] == 0,
        0 <= k < KEY_COUNT,
        events_in_range(events),
    ensures
        key_events_applied(keys, events)[512 + k] as int == press_count(keys, events, k) % 2,
{
    lemma_toggle_parity(keys, events, k);
}

/// Keyboard edge: from a state whose edge row is clear and with key `k` up, a
/// press makes the edge entry of `k` +1; once the frame clears the edges, a
/// release makes it -1; the frame after clears it to 0. Each change marks the
/// rows as changed, so the next frame uploads them.
pub proof fn lemma_keyboard_edge(keys: Seq<i8>, k: int)
    requires
        keys.len() == KEY_STATE_LEN,
        0 <= k < KEY_COUNT,
        keys[k] != 1,
    ensures
        ({
            let pressed = key_event_applied(keys, k, true);
            let released = key_event_applied(edges_cleared(pressed), k, false);
            &&& key_event_changes(keys, k, true)
            &&& pressed[256 + k] == 1
            &&& key_event_changes(edges_cleared(pressed), k, false)
            &&& released[256 + k] == -1
            &&& edges_cleared(released)[256 + k] == 0
        }),
{
}

} // verus!
