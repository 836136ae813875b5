//! The wire codec for UI state overrides.
//!
//! The payload of a state override command is a fixed-schema serialization
//! of [`UIState`]: the mode discriminant, the brightness, the transition
//! time in milliseconds, the temperature and the screen state discriminant,
//! in that order. Discriminants and the transition time are encoded as
//! little-endian base-128 varints of their 32-bit value; the brightness is
//! one byte and the temperature one byte in two's complement. Trailing
//! bytes after the schema are ignored.

use vstd::prelude::*;

use crate::state::{Brightness, Mode, ScreenState, Speed, Temperature, UIState};

verus! {

/// An error that can happen when decoding a payload.
#[derive(Debug, Clone, Copy, PartialEq, Eq, Structural)]
pub enum DecodeError {
    /// The payload ended before the schema was fully read.
    UnexpectedEnd,
    /// A varint ran over the width of its 32-bit destination.
    BadVarint,
    /// A discriminant does not name a variant.
    BadDiscriminant,
}

/// The little-endian base-128 varint encoding of a 32-bit value.
pub open spec fn spec_varint(n: int) -> Seq<u8>
    recommends
        0 <= n < 0x1_0000_0000,
    decreases n,
{
    if n < 0x80 {
        seq![n as u8]
    } else {
        seq![(n % 0x80 + 0x80) as u8] + spec_varint(n / 0x80)
    }
}

/// The largest value whose varint encoding still fits when its first byte
/// sits at position `depth` of the five bytes a 32-bit varint may span.
pub open spec fn spec_varint_bound(depth: int) -> int
    decreases 4 - depth,
{
    if depth >= 4 {
        0x0f
    } else {
        0x7f + 0x80 * spec_varint_bound(depth + 1)
    }
}

/// Reading a varint whose first byte sits at `b[start]`, at position
/// `depth` of the five bytes a 32-bit varint may span.
///
/// Returns the decoded value and the index of the first byte after the
/// varint. Continuation past the fifth byte, and a fifth byte carrying more
/// than the four bits left in a 32-bit value, are rejected; non-canonical
/// encodings with redundant leading groups are accepted.
pub open spec fn spec_take_varint(b: Seq<u8>, start: int, depth: int) -> Result<(int, int), DecodeError>
    decreases 4 - depth,
{
    if !(0 <= start < b.len()) {
        Err(DecodeError::UnexpectedEnd)
    } else {
        let val = b[start] as int;
        if val < 0x80 {
            if depth >= 4 && val > 0x0f {
                Err(DecodeError::BadVarint)
            } else {
                Ok((val, start + 1))
            }
        } else if depth >= 4 {
            Err(DecodeError::BadVarint)
        } else {
            match spec_take_varint(b, start + 1, depth + 1) {
                Err(e) => Err(e),
                Ok((rest, end)) => Ok((val - 0x80 + 0x80 * rest, end)),
            }
        }
    }
}

/// Every position's bound covers at least the last byte's four bits.
pub proof fn lemma_varint_bound_pos(depth: int)
    requires
        0 <= depth <= 4,
    ensures
        spec_varint_bound(depth) >= 0x0f,
    decreases 4 - depth,
{
    if depth < 4 {
        lemma_varint_bound_pos(depth + 1);
    }
}

/// A decoded varint never exceeds the bound of the position its first byte
/// sits at; at position zero that bound is the 32-bit maximum.
pub proof fn lemma_take_varint_bound(b: Seq<u8>, start: int, depth: int)
    requires
        0 <= depth <= 4,
    ensures
        spec_take_varint(b, start, depth) matches Ok(r) ==> (0 <= r.0 <= spec_varint_bound(depth)
            && start < r.1 <= b.len()),
    decreases 4 - depth,
{
    if 0 <= start < b.len() {
        let val = b[start] as int;
        if depth < 4 {
            lemma_varint_bound_pos(depth + 1);
        }
        if val >= 0x80 && depth < 4 {
            lemma_take_varint_bound(b, start + 1, depth + 1);
        }
    }
}

/// The bound at position zero is the 32-bit maximum.
pub proof fn lemma_varint_bound_value()
    ensures
        spec_varint_bound(0) == 0xffff_ffff,
        spec_varint_bound(1) == 0x1ff_ffff,
        spec_varint_bound(2) == 0x3ffff,
        spec_varint_bound(3) == 0x7ff,
        spec_varint_bound(4) == 0x0f,
{
    assert(spec_varint_bound(4) == 0x0f);
    assert(spec_varint_bound(3) == 0x7ff);
    assert(spec_varint_bound(2) == 0x3ffff);
    assert(spec_varint_bound(1) == 0x1ff_ffff);
    assert(spec_varint_bound(0) == 0xffff_ffff);
}

/// The varint encoding takes between one and five bytes.
pub proof fn lemma_varint_len(n: int)
    requires
        0 <= n < 0x1_0000_0000,
    ensures
        1 <= spec_varint(n).len() <= 5,
{
    lemma_varint_bound_value();
    lemma_varint_len_at(n, 0);
}

/// The varint encoding of a value within the bound of position `depth`
/// takes at most `5 - depth` bytes.
proof fn lemma_varint_len_at(n: int, depth: int)
    requires
        0 <= depth <= 4,
        0 <= n <= spec_varint_bound(depth),
    ensures
        1 <= spec_varint(n).len() <= 5 - depth,
    decreases 4 - depth,
{
    if n >= 0x80 {
        assert(depth < 4);
        assert(n / 0x80 <= spec_varint_bound(depth + 1));
        lemma_varint_len_at(n / 0x80, depth + 1);
    }
}

/// Reading a varint from a buffer that carries the encoding of `n` at
/// position `start` yields `n` back and stops right after the encoding.
pub proof fn lemma_varint_round_trip(b: Seq<u8>, start: int, depth: int, n: int)
    requires
        0 <= depth <= 4,
        0 <= n <= spec_varint_bound(depth),
        0 <= start,
        start + spec_varint(n).len() <= b.len(),
        b.subrange(start, start + spec_varint(n).len() as int) == spec_varint(n),
    ensures
        spec_take_varint(b, start, depth) == Ok::<(int, int), DecodeError>((n, start + spec_varint(n).len())),
    decreases n,
{
    lemma_varint_len_at(n, depth);
    assert(b[start] == spec_varint(n)[0]);
    if n < 0x80 {
        assert(spec_varint(n) =~= seq![n as u8]);
    } else {
        let tail = spec_varint(n / 0x80);
        assert(spec_varint(n) =~= seq![(n % 0x80 + 0x80) as u8] + tail);
        assert(depth < 4);
        assert(n / 0x80 <= spec_varint_bound(depth + 1));
        assert(b.subrange(start + 1, start + 1 + tail.len() as int) =~= tail) by {
            assert forall|i: int| 0 <= i < tail.len() implies b[start + 1 + i] == tail[i] by {
                assert(b[start + 1 + i] == spec_varint(n)[1 + i]);
            };
        };
        lemma_varint_round_trip(b, start + 1, depth + 1, n / 0x80);
        assert(b[start] as int == n % 0x80 + 0x80);
        assert(n % 0x80 + 0x80 - 0x80 + 0x80 * (n / 0x80) == n) by {
            vstd::arithmetic::div_mod::lemma_fundamental_div_mod(n, 0x80);
        };
    }
}

/// The discriminant of a mode on the wire.
pub open spec fn spec_mode_index(m: Mode) -> int {
    match m {
        Mode::Off => 0,
        Mode::RandomUnicolor => 1,
        Mode::RainbowFontain => 2,
    }
}

/// The mode a wire discriminant names.
pub open spec fn spec_mode_of(i: int) -> Mode
    recommends
        0 <= i <= 2,
{
    if i == 0 {
        Mode::Off
    } else if i == 1 {
        Mode::RandomUnicolor
    } else {
        Mode::RainbowFontain
    }
}

/// The discriminant of a screen state on the wire.
pub open spec fn spec_screen_index(s: ScreenState) -> int {
    match s {
        ScreenState::Off => 0,
        ScreenState::On => 1,
    }
}

/// The screen state a wire discriminant names.
pub open spec fn spec_screen_of(i: int) -> ScreenState
    recommends
        0 <= i <= 1,
{
    if i == 0 {
        ScreenState::Off
    } else {
        ScreenState::On
    }
}

/// The two's-complement byte of a temperature value.
pub open spec fn spec_byte_of_i8(t: i8) -> u8 {
    if t >= 0 {
        t as u8
    } else {
        (t + 256) as u8
    }
}

/// The temperature value a two's-complement byte carries.
pub open spec fn spec_i8_of_byte(v: u8) -> i8 {
    if v < 0x80 {
        v as i8
    } else {
        (v - 256) as i8
    }
}

/// The wire encoding of a UI state.
pub open spec fn spec_encode(s: UIState) -> Seq<u8> {
    spec_varint(spec_mode_index(s.mode)) + seq![s.brightness.spec_value()]
        + spec_varint(s.speed.spec_transition_time() as int)
        + seq![spec_byte_of_i8(s.temperature.spec_value())]
        + spec_varint(spec_screen_index(s.screen_state))
}

/// The fields read back from a wire payload, before they are wrapped into
/// the UI state types.
pub ghost struct DecodedFields {
    /// The mode discriminant.
    pub mode_index: int,
    /// The brightness byte.
    pub brightness: u8,
    /// The transition time in milliseconds.
    pub speed_ms: int,
    /// The temperature value.
    pub temperature: i8,
    /// The screen state discriminant.
    pub screen_index: int,
}

/// Reading the whole schema from the start of a payload.
///
/// Bytes after the schema are ignored. Discriminants that name no variant
/// are rejected; the brightness, transition time and temperature are taken
/// as they come.
pub open spec fn spec_decode(b: Seq<u8>) -> Result<DecodedFields, DecodeError> {
    match spec_take_varint(b, 0, 0) {
        Err(e) => Err(e),
        Ok((mode_index, p1)) => {
            if mode_index > 2 {
                Err(DecodeError::BadDiscriminant)
            } else if p1 >= b.len() {
                Err(DecodeError::UnexpectedEnd)
            } else {
                let brightness = b[p1];
                match spec_take_varint(b, p1 + 1, 0) {
                    Err(e) => Err(e),
                    Ok((speed_ms, p2)) => {
                        if p2 >= b.len() {
                            Err(DecodeError::UnexpectedEnd)
                        } else {
                            let temperature = spec_i8_of_byte(b[p2]);
                            match spec_take_varint(b, p2 + 1, 0) {
                                Err(e) => Err(e),
                                Ok((screen_index, _)) => {
                                    if screen_index > 1 {
                                        Err(DecodeError::BadDiscriminant)
                                    } else {
                                        Ok(DecodedFields {
                                            mode_index,
                                            brightness,
                                            speed_ms,
                                            temperature,
                                            screen_index,
                                        })
                                    }
                                },
                            }
                        }
                    },
                }
            }
        },
    }
}

/// Whether a UI state carries exactly the fields read back from a payload.
pub open spec fn spec_matches_decoded(s: UIState, f: DecodedFields) -> bool {
    &&& s.mode == spec_mode_of(f.mode_index)
    &&& s.brightness.spec_value() == f.brightness
    &&& s.speed.spec_transition_time() == f.speed_ms
    &&& s.temperature.spec_value() == f.temperature
    &&& s.screen_state == spec_screen_of(f.screen_index)
}

/// Returns the wire discriminant of a mode.
pub fn mode_index_of(m: Mode) -> (r: u32)
    ensures
        r == spec_mode_index(m),
{
    match m {
        Mode::Off => 0,
        Mode::RandomUnicolor => 1,
        Mode::RainbowFontain => 2,
    }
}

/// Returns the wire discriminant of a screen state.
pub fn screen_index_of(s: ScreenState) -> (r: u32)
    ensures
        r == spec_screen_index(s),
{
    match s {
        ScreenState::Off => 0,
        ScreenState::On => 1,
    }
}

/// Returns the two's-complement byte of a temperature value.
pub fn byte_of_i8(t: i8) -> (r: u8)
    ensures
        r == spec_byte_of_i8(t),
{
    if t >= 0 {
        t as u8
    } else {
        ((t as i16) + 256) as u8
    }
}

/// Returns the temperature value a two's-complement byte carries.
pub fn i8_of_byte(v: u8) -> (r: i8)
    ensures
        r == spec_i8_of_byte(v),
{
    if v < 0x80 {
        v as i8
    } else {
        ((v as i16) - 256) as i8
    }
}

/// Appends the varint encoding of a 32-bit value to a buffer.
pub fn push_varint(out: &mut Vec<u8>, n: u32)
    ensures
        final(out)@ == old(out)@ + spec_varint(n as int),
    decreases n,
{
    if n < 0x80 {
        out.push(n as u8);
        proof {
            assert(out@ =~= old(out)@ + spec_varint(n as int));
        }
    } else {
        out.push((n % 0x80 + 0x80) as u8);
        push_varint(out, n / 0x80);
        proof {
            assert(out@ =~= old(out)@ + spec_varint(n as int));
        }
    }
}

/// Encodes a UI state into its wire payload.
pub fn encode_ui_state(s: &UIState) -> (r: Vec<u8>)
    ensures
        r@ == spec_encode(*s),
{
    let mut out: Vec<u8> = Vec::new();
    push_varint(&mut out, mode_index_of(s.mode));
    out.push(s.brightness.value());
    push_varint(&mut out, s.speed.transition_time());
    out.push(byte_of_i8(s.temperature.value()));
    push_varint(&mut out, screen_index_of(s.screen_state));
    proof {
        assert(out@ =~= spec_encode(*s));
    }
    out
}

/// Reads a varint whose first byte sits at `b[start]`, at position `depth`
/// of the five bytes a 32-bit varint may span.
pub fn take_varint_at(b: &[u8], start: usize, depth: u32) -> (r: Result<(u32, usize), DecodeError>)
    requires
        depth <= 4,
    ensures
        match r {
            Ok(p) => spec_take_varint(b@, start as int, depth as int)
                == Ok::<(int, int), DecodeError>((p.0 as int, p.1 as int)),
            Err(e) => spec_take_varint(b@, start as int, depth as int)
                == Err::<(int, int), DecodeError>(e),
        },
    decreases 4 - depth,
{
    if start >= b.len() {
        return Err(DecodeError::UnexpectedEnd);
    }
    let val = b[start];
    if val < 0x80 {
        if depth >= 4 && val > 0x0f {
            Err(DecodeError::BadVarint)
        } else {
            Ok((val as u32, start + 1))
        }
    } else if depth >= 4 {
        Err(DecodeError::BadVarint)
    } else {
        match take_varint_at(b, start + 1, depth + 1) {
            Err(e) => Err(e),
            Ok((rest, end)) => {
                proof {
                    lemma_take_varint_bound(b@, start as int + 1, depth as int + 1);
                    lemma_varint_bound_value();
                    lemma_varint_bound_mono(depth as int + 1);
                }
                Ok((val as u32 - 0x80 + 0x80 * rest, end))
            },
        }
    }
}

/// Bounds at deeper positions never exceed the bound at position one.
proof fn lemma_varint_bound_mono(depth: int)
    requires
        1 <= depth <= 4,
    ensures
        spec_varint_bound(depth) <= spec_varint_bound(1),
{
    lemma_varint_bound_value();
}

/// Decodes a UI state from the start of a wire payload.
///
/// Succeeds exactly when the payload starts with a well-formed schema whose
/// discriminants name variants; bytes after the schema are ignored. On an
/// error the payload is rejected as a whole and no state is produced.
pub fn decode_ui_state(b: &[u8]) -> (r: Result<UIState, DecodeError>)
    ensures
        r matches Ok(s) ==> (spec_decode(b@) matches Ok(f) && spec_matches_decoded(s, f)),
        r matches Err(e) ==> spec_decode(b@) == Err::<DecodedFields, DecodeError>(e),
{
    let (mode_index, p1) = match take_varint_at(b, 0, 0) {
        Ok(p) => p,
        Err(e) => {
            return Err(e);
        },
    };
    if mode_index > 2 {
        return Err(DecodeError::BadDiscriminant);
    }
    if p1 >= b.len() {
        return Err(DecodeError::UnexpectedEnd);
    }
    let brightness = b[p1];

    let (speed_ms, p2) = match take_varint_at(b, p1 + 1, 0) {
        Ok(p) => p,
        Err(e) => {
            return Err(e);
        },
    };
    if p2 >= b.len() {
        return Err(DecodeError::UnexpectedEnd);
    }
    let temperature = i8_of_byte(b[p2]);

    let (screen_index, _) = match take_varint_at(b, p2 + 1, 0) {
        Ok(p) => p,
        Err(e) => {
            return Err(e);
        },
    };
    if screen_index > 1 {
        return Err(DecodeError::BadDiscriminant);
    }

    let mode = if mode_index == 0 {
        Mode::Off
    } else if mode_index == 1 {
        Mode::RandomUnicolor
    } else {
        Mode::RainbowFontain
    };
    let screen_state = if screen_index == 0 {
        ScreenState::Off
    } else {
        ScreenState::On
    };

    Ok(UIState {
        mode,
        brightness: Brightness::new(brightness),
        speed: Speed::new(speed_ms),
        temperature: Temperature::new(temperature),
        screen_state,
    })
}

/// Decoding a mode discriminant yields the mode it came from.
pub proof fn lemma_mode_index_inverse(m: Mode)
    ensures
        spec_mode_of(spec_mode_index(m)) == m,
{
}

/// Decoding a screen state discriminant yields the state it came from.
pub proof fn lemma_screen_index_inverse(s: ScreenState)
    ensures
        spec_screen_of(spec_screen_index(s)) == s,
{
}

/// Decoding a temperature byte yields the value it came from.
pub proof fn lemma_temperature_byte_inverse(t: i8)
    ensures
        spec_i8_of_byte(spec_byte_of_i8(t)) == t,
{
}

/// Round-trip law: decoding the wire encoding of any UI state succeeds and
/// reads back exactly the encoded mode discriminant, brightness, transition
/// time, temperature and screen state discriminant, for every value of
/// every field.
pub proof fn lemma_encode_decode_round_trip(s: UIState)
    ensures
        spec_decode(spec_encode(s)) matches Ok(f) && {
            &&& f.mode_index == spec_mode_index(s.mode)
            &&& f.brightness == s.brightness.spec_value()
            &&& f.speed_ms == s.speed.spec_transition_time()
            &&& f.temperature == s.temperature.spec_value()
            &&& f.screen_index == spec_screen_index(s.screen_state)
        },
{
    let mi = spec_mode_index(s.mode);
    let ms = s.speed.spec_transition_time() as int;
    let si = spec_screen_index(s.screen_state);
    let e = spec_encode(s);
    let v1 = spec_varint(mi);
    let v2 = spec_varint(ms);
    let v3 = spec_varint(si);
    let l1 = v1.len() as int;
    let l2 = v2.len() as int;
    let l3 = v3.len() as int;

    lemma_varint_bound_value();
    lemma_varint_len(mi);
    lemma_varint_len(ms);
    lemma_varint_len(si);
    assert(e.len() == l1 + 1 + l2 + 1 + l3);

    assert(e.subrange(0, l1) =~= v1);
    lemma_varint_round_trip(e, 0, 0, mi);
    assert(e[l1] == s.brightness.spec_value());

    assert(e.subrange(l1 + 1, l1 + 1 + l2) =~= v2);
    lemma_varint_round_trip(e, l1 + 1, 0, ms);
    assert(e[l1 + 1 + l2] == spec_byte_of_i8(s.temperature.spec_value()));

    assert(e.subrange(l1 + 1 + l2 + 1, l1 + 1 + l2 + 1 + l3) =~= v3);
    lemma_varint_round_trip(e, l1 + 1 + l2 + 1, 0, si);

    lemma_temperature_byte_inverse(s.temperature.spec_value());
}

/// The fields read back from the encoding of a state pin that state down:
/// any state carrying exactly those fields is equal to the original. With
/// the round-trip law above, decoding the wire encoding of any UI state
/// yields a state equal to the encoded one.
pub proof fn lemma_decoded_state_equal(s: UIState, t: UIState)
    requires
        spec_decode(spec_encode(s)) matches Ok(f) && spec_matches_decoded(t, f),
    ensures
        t == s,
{
    lemma_encode_decode_round_trip(s);
    lemma_mode_index_inverse(s.mode);
    lemma_screen_index_inverse(s.screen_state);
    crate::state::lemma_brightness_determined(t.brightness, s.brightness);
    crate::state::lemma_speed_determined(t.speed, s.speed);
    crate::state::lemma_temperature_determined(t.temperature, s.temperature);
}

} // verus!
