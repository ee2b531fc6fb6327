//! MIDI keys, pitch classes and packets of key velocities, and a parser for
//! raw MIDI messages ([read_midi_input]).

pub mod read_midi_input;
pub mod streams;

use vstd::prelude::*;

verus! {

/// A collection of [Key]s with their velocities.
#[derive(Debug, Clone)]
pub struct MidiPacket {
    velocities: [u8; 128],
}

impl View for MidiPacket {
    type V = Seq<u8>;

    /// The velocity of every key, indexed by key value.
    closed spec fn view(&self) -> Seq<u8> {
        self.velocities@
    }
}

impl MidiPacket {
    /// Create a new [MidiPacket] with all zero velocities.
    pub fn new() -> (r: Self)
        ensures
            r@ == Seq::new(128, |i: int| 0u8),
    {
        let r = Self { velocities: [0u8; 128] };
        assert(r@ =~= Seq::new(128, |i: int| 0u8));
        r
    }

    /// The packet always holds one velocity per possible key.
    pub proof fn lemma_len(&self)
        ensures
            self@.len() == 128,
    {
    }

    /// The velocity of the provided [Key].
    pub fn key_velocity(&self, key: Key) -> (r: u8)
        ensures
            r == self@[key@ as int],
    {
        let k = key.as_u8();
        self.velocities[k as usize]
    }

    /// The maximum velocity of all [Key]s in this packet.
    pub fn max_velocity(&self) -> (r: u8)
        ensures
            forall|i: int| 0 <= i < 128 ==> self@[i] <= r,
            exists|i: int| 0 <= i < 128 && self@[i] == r,
    {
        let mut best: u8 = self.velocities[0];
        assert(self@[0] == best);
        let mut i: usize = 1;
        while i < 128
            invariant
                1 <= i <= 128,
                forall|j: int| 0 <= j < i ==> self@[j] <= best,
                exists|j: int| 0 <= j < i && self@[j] == best,
            decreases 128 - i,
        {
            if self.velocities[i] > best {
                best = self.velocities[i];
                assert(self@[i as int] == best);
            }
            i = i + 1;
        }
        best
    }

    /// Whether or not a [Key] has a non-zero velocity in this packet.
    pub fn is_key_on(&self, key: Key) -> (r: bool)
        ensures
            r == (self@[key@ as int] != 0),
    {
        self.key_velocity(key) != 0
    }

    /// Whether or not a [Key] has zero velocity in this packet.
    pub fn is_key_off(&self, key: Key) -> (r: bool)
        ensures
            r == (self@[key@ as int] == 0),
    {
        !self.is_key_on(key)
    }

    /// Every possible key (see [Key::all_keys]), each with its velocity in
    /// this packet. Also see [Self::on_key_velocities].
    pub fn key_velocities(&self) -> (r: Vec<(Key, u8)>)
        ensures
            r@.len() == 128,
            forall|i: int| 0 <= i < 128 ==> (#[trigger] r@[i]).0@ == i && r@[i].1 == self@[i],
    {
        let mut r: Vec<(Key, u8)> = Vec::new();
        let mut k: u8 = 0;
        while k < 128
            invariant
                k <= 128,
                r@.len() == k,
                forall|i: int| 0 <= i < k ==> (#[trigger] r@[i]).0@ == i && r@[i].1 == self@[i],
            decreases 128 - k,
        {
            let key = Key::from_u8_in_range(k);
            r.push((key, self.key_velocity(key)));
            k = k + 1;
        }
        r
    }

    /// Like [Self::key_velocities], but keys with a velocity of 0 are left
    /// out; the others stay in key order.
    pub fn on_key_velocities(&self) -> (r: Vec<(Key, u8)>)
        ensures
            r@ == self.key_velocity_pairs().filter(|p: (Key, u8)| p.1 != 0),
            forall|i: int| 0 <= i < r@.len() ==> (#[trigger] r@[i]).1 > 0,
    {
        let all = self.key_velocities();
        let ghost pairs = all@;
        assert(pairs =~= self.key_velocity_pairs()) by {
            assert forall|i: int| 0 <= i < 128 implies #[trigger] pairs[i] == self.key_velocity_pairs()[i] by {
                Key::lemma_view_injective(pairs[i].0, self.key_velocity_pairs()[i].0);
            }
        }
        let mut r: Vec<(Key, u8)> = Vec::new();
        let mut i: usize = 0;
        while i < all.len()
            invariant
                i <= all@.len(),
                all@ == pairs,
                r@ == pairs.subrange(0, i as int).filter(|p: (Key, u8)| p.1 != 0),
            decreases all@.len() - i,
        {
            let p = all[i];
            proof {
                reveal_with_fuel(Seq::<_>::filter, 1);
                assert(pairs.subrange(0, i + 1).drop_last() =~= pairs.subrange(0, i as int));
            }
            if p.1 != 0 {
                r.push(p);
            }
            i = i + 1;
        }
        assert(pairs.subrange(0, all@.len() as int) =~= pairs);
        proof {
            let f = |p: (Key, u8)| p.1 != 0;
            broadcast use vstd::seq_lib::group_filter_ensures;
            assert forall|j: int| 0 <= j < r@.len() implies (#[trigger] r@[j]).1 > 0 by {
                assert(f(r@[j]));
            }
        }
        r
    }

    /// The pairs [Self::key_velocities] returns.
    pub closed spec fn key_velocity_pairs(&self) -> Seq<(Key, u8)> {
        Seq::new(128, |i: int| (Key(i as u8), self.velocities@[i]))
    }

    /// Sets a [Key]'s velocity in the packet.
    pub fn set_key_velocity(&mut self, key: Key, velocity: u8)
        ensures
            final(self)@ == old(self)@.update(key@ as int, velocity),
    {
        let k = key.as_u8() as usize;
        self.velocities[k] = velocity;
    }

    /// Sets every [Key]'s velocity to 0.
    pub fn clear(&mut self)
        ensures
            final(self)@ == Seq::new(128, |i: int| 0u8),
    {
        *self = Self::new();
    }
}

/// The default [MidiPacket] has all zero velocities.
impl Default for MidiPacket {
    fn default() -> (r: Self)
        ensures
            r@ == Seq::new(128, |i: int| 0u8),
    {
        Self::new()
    }
}

/// A musical note that can be represented in MIDI (e.g. *A-1* or *C#*), like a
/// "key" on a piano. Its value is in `0..=127`.
#[derive(Debug, Clone, Copy, Eq, PartialEq, Ord, PartialOrd, Default, Hash, Structural)]
pub struct Key(u8);

impl View for Key {
    type V = nat;

    /// The key's value.
    closed spec fn view(&self) -> nat {
        self.0 as nat
    }
}

/// An error converting a [u8] to a [Key]: the value is outside the range of
/// possible MIDI key values.
#[derive(Debug, Clone, Copy, Eq, PartialEq, Ord, PartialOrd, Default, Hash, Structural)]
pub struct KeyRangeError;

/// The key value of `pitch` in `octave`: `(octave + 1) * 12 + semitone`.
pub open spec fn key_value(pitch: PitchClass, octave: int) -> int {
    (octave + 1) * 12 + pitch.semitone_value()
}

impl Key {
    #[verifier::type_invariant]
    spec fn inv(self) -> bool {
        self.0 <= 127
    }

    /// Maximum value for a key.
    pub const MAX_U8: u8 = 127;

    /// Minimum value for a key.
    pub const MIN_U8: u8 = 0;

    /// Create a new [Key] from a pitch class and an octave. An error is
    /// returned if the key is lower than *C-1* or higher than *G9*.
    pub fn new(pitch: PitchClass, octave: i8) -> (r: Result<Self, KeyRangeError>)
        ensures
            0 <= key_value(pitch, octave as int) <= 127 <==> r is Ok,
            r matches Ok(k) ==> k@ == key_value(pitch, octave as int),
            r matches Err(e) ==> e == KeyRangeError,
    {
        let key: i16 = (octave as i16 + 1) * 12 + pitch.semitone() as i16;
        if 0 <= key && key <= 127 {
            Ok(Self(key as u8))
        } else {
            Err(KeyRangeError)
        }
    }

    /// Create a key from a key value. An error is returned if the value is
    /// over 127.
    pub fn from_u8(key: u8) -> (r: Result<Self, KeyRangeError>)
        ensures
            key <= 127 <==> r is Ok,
            r matches Ok(k) ==> k@ == key,
            r matches Err(e) ==> e == KeyRangeError,
    {
        if key <= 127 {
            Ok(Self(key))
        } else {
            Err(KeyRangeError)
        }
    }

    /// The key with a value already known to be in range.
    fn from_u8_in_range(key: u8) -> (r: Self)
        requires
            key <= 127,
        ensures
            r@ == key,
            r == Key(key),
    {
        Self(key)
    }

    /// Two keys with the same value are the same key.
    pub proof fn lemma_view_injective(a: Key, b: Key)
        requires
            a@ == b@,
        ensures
            a == b,
    {
    }

    /// This note's pitch class.
    pub fn pitch_class(&self) -> (r: PitchClass)
        ensures
            r.semitone_value() == self@ % 12,
    {
        let s = self.as_u8() % 12;
        match PitchClass::from_semitone(s) {
            Some(p) => p,
            None => {
                assert(false);
                PitchClass::C
            },
        }
    }

    /// This note's octave: `key / 12 - 1`.
    pub fn octave(&self) -> (r: i8)
        ensures
            r == (self@ / 12) as int - 1,
    {
        (self.as_u8() / 12) as i8 - 1
    }

    /// The key's value.
    pub fn as_u8(&self) -> (r: u8)
        ensures
            r == self@,
            r <= 127,
    {
        proof {
            use_type_invariant(self);
        }
        self.0
    }

    /// All possible keys in order.
    pub fn all_keys() -> (r: Vec<Self>)
        ensures
            r@.len() == 128,
            forall|i: int| 0 <= i < 128 ==> (#[trigger] r@[i])@ == i,
    {
        let mut r: Vec<Key> = Vec::new();
        let mut k: u8 = Self::MIN_U8;
        while k < Self::MAX_U8 + 1
            invariant
                k <= 128,
                r@.len() == k,
                forall|i: int| 0 <= i < k ==> (#[trigger] r@[i])@ == i,
            decreases 128 - k,
        {
            r.push(Self::from_u8_in_range(k));
            k = k + 1;
        }
        r
    }
}

/// A key's pitch class and octave give the key back.
pub proof fn lemma_key_pitch_octave_round_trip(k: nat, p: PitchClass, octave: int)
    requires
        k <= 127,
        p.semitone_value() == k % 12,
        octave == (k / 12) as int - 1,
    ensures
        key_value(p, octave) == k,
{
}

/// A musical note's pitch class (e.g. *A*, *C#*). Also see [Key].
#[derive(Debug, Clone, Copy, PartialEq, Eq, PartialOrd, Ord, Hash, Structural)]
pub enum PitchClass {
    C,
    CSharp,
    D,
    DSharp,
    E,
    F,
    FSharp,
    G,
    GSharp,
    A,
    ASharp,
    B,
}

impl PitchClass {
    /// The pitch class's semitone in `0..=11`.
    pub open spec fn semitone_value(self) -> nat {
        match self {
            PitchClass::C => 0,
            PitchClass::CSharp => 1,
            PitchClass::D => 2,
            PitchClass::DSharp => 3,
            PitchClass::E => 4,
            PitchClass::F => 5,
            PitchClass::FSharp => 6,
            PitchClass::G => 7,
            PitchClass::GSharp => 8,
            PitchClass::A => 9,
            PitchClass::ASharp => 10,
            PitchClass::B => 11,
        }
    }

    /// Create a [PitchClass] from a semitone. [None] is returned if
    /// `semitone` is not in the range `0..=11`.
    pub fn from_semitone(semitone: u8) -> (r: Option<Self>)
        ensures
            r is Some <==> semitone <= 11,
            r matches Some(p) ==> p.semitone_value() == semitone,
    {
        match semitone {
            0 => Some(PitchClass::C),
            1 => Some(PitchClass::CSharp),
            2 => Some(PitchClass::D),
            3 => Some(PitchClass::DSharp),
            4 => Some(PitchClass::E),
            5 => Some(PitchClass::F),
            6 => Some(PitchClass::FSharp),
            7 => Some(PitchClass::G),
            8 => Some(PitchClass::GSharp),
            9 => Some(PitchClass::A),
            10 => Some(PitchClass::ASharp),
            11 => Some(PitchClass::B),
            _ => None,
        }
    }

    /// The pitch's semitone value in the range `0..=11`.
    pub fn semitone(self) -> (r: u8)
        ensures
            r == self.semitone_value(),
    {
        match self {
            PitchClass::C => 0,
            PitchClass::CSharp => 1,
            PitchClass::D => 2,
            PitchClass::DSharp => 3,
            PitchClass::E => 4,
            PitchClass::F => 5,
            PitchClass::FSharp => 6,
            PitchClass::G => 7,
            PitchClass::GSharp => 8,
            PitchClass::A => 9,
            PitchClass::ASharp => 10,
            PitchClass::B => 11,
        }
    }

    /// This [PitchClass] written out (e.g. `"A"`, `"C#"`).
    pub fn as_str(self) -> (r: &'static str)
        ensures
            r@ == pitch_class_name(self.semitone_value()),
    {
        proof {
            reveal_strlit("C");
            reveal_strlit("C#");
            reveal_strlit("D");
            reveal_strlit("D#");
            reveal_strlit("E");
            reveal_strlit("F");
            reveal_strlit("F#");
            reveal_strlit("G");
            reveal_strlit("G#");
            reveal_strlit("A");
            reveal_strlit("A#");
            reveal_strlit("B");
        }
        match self {
            PitchClass::C => "C",
            PitchClass::CSharp => "C#",
            PitchClass::D => "D",
            PitchClass::DSharp => "D#",
            PitchClass::E => "E",
            PitchClass::F => "F",
            PitchClass::FSharp => "F#",
            PitchClass::G => "G",
            PitchClass::GSharp => "G#",
            PitchClass::A => "A",
            PitchClass::ASharp => "A#",
            PitchClass::B => "B",
        }
    }
}

/// The name of the pitch class with semitone `s`: a letter, followed by `#`
/// for the sharps.
pub open spec fn pitch_class_name(s: nat) -> Seq<char> {
    let letter = if s <= 1 {
        'C'
    } else if s <= 3 {
        'D'
    } else if s == 4 {
        'E'
    } else if s <= 6 {
        'F'
    } else if s <= 8 {
        'G'
    } else if s <= 10 {
        'A'
    } else {
        'B'
    };
    if s == 1 || s == 3 || s == 6 || s == 8 || s == 10 {
        seq![letter, '#']
    } else {
        seq![letter]
    }
}

/// A pitch class's semitone gives the pitch class back.
pub proof fn lemma_semitone_round_trip(p: PitchClass, q: PitchClass)
    requires
        p.semitone_value() == q.semitone_value(),
    ensures
        p == q,
{
}

} // verus!
