//! Notes, devices and the dispatch of note events to commands.

use vstd::prelude::*;
use vstd::string::*;
use crate::decimal::{
    decimal_digits, lemma_signed_decimal_form, lemma_signed_decimal_injective, push_decimal,
    push_signed_decimal, signed_decimal,
};
use crate::keymap::Keymap;

verus! {

/// The name of a pitch class, counted in semitones above C.
pub open spec fn pitch_class(index: int) -> Seq<char> {
    if index == 0 {
        seq!['C']
    } else if index == 1 {
        seq!['C', '#']
    } else if index == 2 {
        seq!['D']
    } else if index == 3 {
        seq!['D', '#']
    } else if index == 4 {
        seq!['E']
    } else if index == 5 {
        seq!['F']
    } else if index == 6 {
        seq!['F', '#']
    } else if index == 7 {
        seq!['G']
    } else if index == 8 {
        seq!['G', '#']
    } else if index == 9 {
        seq!['A']
    } else if index == 10 {
        seq!['A', '#']
    } else {
        seq!['B']
    }
}

/// The octave that a note is labelled with: twelve semitones to the octave,
/// note 0 in octave -2, moved by the shift.
pub open spec fn octave_of(note_number: int, octave_shift: int) -> int {
    note_number / 12 - 2 + octave_shift
}

/// The name of a note: its pitch class, then its octave in decimal notation.
pub open spec fn note_name(note_number: int, octave_shift: int) -> Seq<char> {
    pitch_class(note_number % 12) + signed_decimal(octave_of(note_number, octave_shift))
}

/// The name of a pitch class as a string.
fn pitch_class_str(index: u8) -> (r: &'static str)
    requires
        index < 12,
    ensures
        r@ == pitch_class(index as int),
{
    proof {
        reveal_strlit("C");
        reveal_strlit("C#");
        reveal_strlit("D");
        reveal_strlit("D#");
        reveal_strlit("E");
        reveal_strlit("F");
        reveal_strlit("F#");
        reveal_strlit("G");
        reveal_strlit("G#");
        reveal_strlit("A");
        reveal_strlit("A#");
        reveal_strlit("B");
    }
    let r: &'static str = match index {
        0 => "C",
        1 => "C#",
        2 => "D",
        3 => "D#",
        4 => "E",
        5 => "F",
        6 => "F#",
        7 => "G",
        8 => "G#",
        9 => "A",
        10 => "A#",
        _ => "B",
    };
    assert(r@ =~= pitch_class(index as int));
    r
}

/// Names the note with the given MIDI number, its octave moved by
/// `octave_shift`.
pub fn id_to_key(key_id: u8, octave_shift: i8) -> (key_name: String)
    requires
        key_id <= 127,
    ensures
        key_name@ == note_name(key_id as int, octave_shift as int),
{
    let mut key_name = String::from_str(pitch_class_str(key_id % 12));
    let octave: i64 = (key_id / 12) as i64 - 2 + octave_shift as i64;
    push_signed_decimal(&mut key_name, octave);
    key_name
}

/// A note name is never empty: it is one of the twelve pitch-class names
/// followed by an integer in decimal notation.
pub proof fn lemma_note_name_form(note_number: int, octave_shift: int)
    requires
        0 <= note_number <= 127,
    ensures
        note_name(note_number, octave_shift).len() >= 2,
        exists|index: int, octave: int|
            0 <= index < 12 && note_name(note_number, octave_shift) == #[trigger] pitch_class(index)
                + #[trigger] signed_decimal(octave),
{
    let index = note_number % 12;
    let octave = octave_of(note_number, octave_shift);
    lemma_signed_decimal_form(octave);
    assert(pitch_class(index).len() >= 1);
    assert(note_name(note_number, octave_shift) == pitch_class(index) + signed_decimal(octave));
}

/// The name identifies the note: under one octave shift, notes with different
/// numbers have different names.
pub proof fn lemma_note_name_injective(a: int, b: int, octave_shift: int)
    requires
        note_name(a, octave_shift) == note_name(b, octave_shift),
    ensures
        a == b,
{
    let class_a = pitch_class(a % 12);
    let class_b = pitch_class(b % 12);
    let octave_a = signed_decimal(octave_of(a, octave_shift));
    let octave_b = signed_decimal(octave_of(b, octave_shift));
    lemma_signed_decimal_form(octave_of(a, octave_shift));
    lemma_signed_decimal_form(octave_of(b, octave_shift));
    let name_a = class_a + octave_a;
    let name_b = class_b + octave_b;
    assert(name_a[0] == name_b[0]);
    assert(name_a[1] == name_b[1]);
    assert(class_a.len() == 1 ==> name_a[1] == octave_a[0]);
    assert(class_b.len() == 1 ==> name_b[1] == octave_b[0]);
    assert(a % 12 == b % 12);
    assert(octave_a =~= name_a.subrange(class_a.len() as int, name_a.len() as int));
    assert(octave_b =~= name_b.subrange(class_b.len() as int, name_b.len() as int));
    lemma_signed_decimal_injective(octave_of(a, octave_shift), octave_of(b, octave_shift));
}

/// One decoded note-on message.
#[derive(Debug, Clone, Copy, PartialEq, Eq, Structural)]
pub struct NoteEvent {
    note_number: u8,
    velocity: u8,
}

/// Whether a raw MIDI message is a note-on: one status byte `0x90` to `0x9F`
/// (any channel), then the note number and the velocity, each at most 127.
pub open spec fn is_note_on(message: Seq<u8>) -> bool {
    &&& message.len() == 3
    &&& 0x90 <= message[0] <= 0x9F
    &&& message[1] <= 127
    &&& message[2] <= 127
}

impl NoteEvent {
    #[verifier::type_invariant]
    spec fn in_range(self) -> bool {
        self.note_number <= 127 && self.velocity <= 127
    }

    pub closed spec fn spec_note_number(&self) -> u8 {
        self.note_number
    }

    pub closed spec fn spec_velocity(&self) -> u8 {
        self.velocity
    }

    /// An event for the given note and velocity; `None` if either is above
    /// 127.
    pub fn new(note_number: u8, velocity: u8) -> (r: Option<NoteEvent>)
        ensures
            r is Some <==> note_number <= 127 && velocity <= 127,
            r matches Some(event) ==> event.note_number() == note_number && event.velocity()
                == velocity,
    {
        if note_number <= 127 && velocity <= 127 {
            Some(NoteEvent { note_number, velocity })
        } else {
            None
        }
    }

    /// Reads a raw MIDI message. A note-on message gives its event; any other
    /// message gives `None`.
    pub fn decode(message: &[u8]) -> (r: Option<NoteEvent>)
        ensures
            r is Some <==> is_note_on(message@),
            r matches Some(event) ==> event.note_number() == message@[1] && event.velocity()
                == message@[2],
    {
        if message.len() != 3 {
            return None;
        }
        let status: u8 = message[0];
        if status < 0x90 || status > 0x9F {
            return None;
        }
        NoteEvent::new(message[1], message[2])
    }

    /// The note number, from 0 to 127.
    #[verifier::when_used_as_spec(spec_note_number)]
    pub fn note_number(&self) -> (r: u8)
        ensures
            r == self.note_number(),
            r <= 127,
    {
        proof {
            use_type_invariant(self);
        }
        self.note_number
    }

    /// The strike intensity, from 0 to 127.
    #[verifier::when_used_as_spec(spec_velocity)]
    pub fn velocity(&self) -> (r: u8)
        ensures
            r == self.velocity(),
            r <= 127,
    {
        proof {
            use_type_invariant(self);
        }
        self.velocity
    }
}

/// Why a device cannot be used.
#[derive(Debug, Clone, Copy, PartialEq, Eq, Structural)]
pub enum DeviceError {
    /// The catalog has no device at the index asked for.
    DeviceNotFound,
    /// The catalog is empty.
    NoDevicesAvailable,
    /// The driver refused to open the port.
    ConnectionError,
}

impl DeviceError {
    /// The error in words, for the operator.
    pub fn message(&self) -> (r: &'static str)
        ensures
            r@ == match *self {
                DeviceError::DeviceNotFound => "no input port at the given index"@,
                DeviceError::NoDevicesAvailable => "no input port found"@,
                DeviceError::ConnectionError => "the input port could not be opened"@,
            },
    {
        match self {
            DeviceError::DeviceNotFound => "no input port at the given index",
            DeviceError::NoDevicesAvailable => "no input port found",
            DeviceError::ConnectionError => "the input port could not be opened",
        }
    }
}

/// One input port of the catalog: its place in the enumeration and its name.
#[derive(Debug)]
pub struct DeviceDescriptor {
    pub index: usize,
    pub name: String,
}

/// The input ports found by one enumeration, in the order in which the
/// hardware reported them.
#[derive(Debug)]
pub struct DeviceCatalog {
    names: Vec<String>,
}

impl View for DeviceCatalog {
    type V = Seq<Seq<char>>;

    closed spec fn view(&self) -> Seq<Seq<char>> {
        Seq::new(self.names@.len(), |i: int| self.names@[i]@)
    }
}

/// The line that shows one device to the operator: its index, a colon, a
/// space, its name.
pub open spec fn device_line(index: nat, name: Seq<char>) -> Seq<char> {
    decimal_digits(index) + seq![':', ' '] + name
}

impl DeviceCatalog {
    /// The catalog of the ports with the given names.
    pub fn new(names: Vec<String>) -> (r: DeviceCatalog)
        ensures
            r@.len() == names@.len(),
            forall|i: int| 0 <= i < names@.len() ==> r@[i] == #[trigger] names@[i]@,
    {
        DeviceCatalog { names }
    }

    /// The number of devices.
    pub fn len(&self) -> (r: usize)
        ensures
            r == self@.len(),
    {
        self.names.len()
    }

    /// All devices, in enumeration order.
    pub fn list(&self) -> (r: Vec<DeviceDescriptor>)
        ensures
            r@.len() == self@.len(),
            forall|i: int|
                0 <= i < r@.len() ==> (#[trigger] r@[i]).index == i && r@[i].name@ == self@[i],
    {
        let mut devices: Vec<DeviceDescriptor> = Vec::new();
        let mut i: usize = 0;
        while i < self.names.len()
            invariant
                i <= self.names@.len(),
                devices@.len() == i,
                forall|j: int|
                    0 <= j < i ==> (#[trigger] devices@[j]).index == j && devices@[j].name@
                        == self@[j],
            decreases self.names@.len() - i,
        {
            devices.push(DeviceDescriptor { index: i, name: self.names[i].clone() });
            i += 1;
        }
        devices
    }

    /// The device at `index`. An index at or beyond the end of the catalog,
    /// and so any index into an empty catalog, finds no device.
    pub fn select(&self, index: usize) -> (r: Result<DeviceDescriptor, DeviceError>)
        ensures
            match r {
                Ok(device) => index < self@.len() && device.index == index && device.name@
                    == self@[index as int],
                Err(e) => index >= self@.len() && e == DeviceError::DeviceNotFound,
            },
    {
        if index < self.names.len() {
            Ok(DeviceDescriptor { index, name: self.names[index].clone() })
        } else {
            Err(DeviceError::DeviceNotFound)
        }
    }
}

/// The lines that show a catalog to the operator, one device to a line. An
/// empty catalog is an error, not an empty listing.
pub fn list_devices(catalog: &DeviceCatalog) -> (r: Result<Vec<String>, DeviceError>)
    ensures
        match r {
            Ok(lines) => {
                &&& catalog@.len() > 0
                &&& lines@.len() == catalog@.len()
                &&& forall|i: int|
                    0 <= i < lines@.len() ==> (#[trigger] lines@[i])@ == device_line(
                        i as nat,
                        catalog@[i],
                    )
            },
            Err(e) => catalog@.len() == 0 && e == DeviceError::NoDevicesAvailable,
        },
{
    if catalog.names.len() == 0 {
        return Err(DeviceError::NoDevicesAvailable);
    }
    let mut lines: Vec<String> = Vec::new();
    let mut i: usize = 0;
    while i < catalog.names.len()
        invariant
            i <= catalog.names@.len(),
            lines@.len() == i,
            forall|j: int|
                0 <= j < i ==> (#[trigger] lines@[j])@ == device_line(j as nat, catalog@[j]),
        decreases catalog.names@.len() - i,
    {
        let mut line = String::new();
        push_decimal(&mut line, i as u64);
        proof {
            reveal_strlit(": ");
        }
        line.append(": ");
        line.append(catalog.names[i].as_str());
        assert(line@ =~= device_line(i as nat, catalog@[i as int]));
        lines.push(line);
        i += 1;
    }
    Ok(lines)
}

/// The command that a keymap binds to a note under an octave shift.
pub open spec fn command_of(
    keymap: Map<Seq<char>, Seq<char>>,
    octave_shift: int,
    note_number: int,
) -> Option<Seq<char>> {
    let name = note_name(note_number, octave_shift);
    if keymap.contains_key(name) {
        Some(keymap[name])
    } else {
        None
    }
}

/// The command that a raw message triggers: that of its note if it is a
/// note-on, none otherwise.
pub open spec fn command_of_message(
    keymap: Map<Seq<char>, Seq<char>>,
    octave_shift: int,
    message: Seq<u8>,
) -> Option<Seq<char>> {
    if is_note_on(message) {
        command_of(keymap, octave_shift, message[1] as int)
    } else {
        None
    }
}

/// A keymap that binds the name of one note and nothing else yields its
/// command for that note and for no other.
pub proof fn lemma_one_note_one_command(
    keymap: Map<Seq<char>, Seq<char>>,
    octave_shift: int,
    note_number: int,
    other: int,
)
    requires
        keymap.contains_key(note_name(note_number, octave_shift)),
        forall|name: Seq<char>|
            keymap.contains_key(name) ==> name == note_name(note_number, octave_shift),
    ensures
        command_of(keymap, octave_shift, note_number) == Some(
            keymap[note_name(note_number, octave_shift)],
        ),
        other != note_number ==> command_of(keymap, octave_shift, other) is None,
{
    if other != note_number && keymap.contains_key(note_name(other, octave_shift)) {
        lemma_note_name_injective(other, note_number, octave_shift);
    }
}

/// Turns note events into commands. It owns the keymap and the octave shift
/// from the moment it is made, and neither can be changed afterwards.
#[derive(Debug)]
pub struct Dispatcher {
    keymap: Keymap,
    octave_shift: i8,
}

impl Dispatcher {
    pub closed spec fn keymap(&self) -> Map<Seq<char>, Seq<char>> {
        self.keymap@
    }

    pub closed spec fn octave_shift(&self) -> i8 {
        self.octave_shift
    }

    /// A dispatcher for the given keymap and octave shift.
    pub fn new(keymap: Keymap, octave_shift: i8) -> (r: Dispatcher)
        ensures
            r.keymap() == keymap@,
            r.octave_shift() == octave_shift,
    {
        Dispatcher { keymap, octave_shift }
    }

    /// The command to run for a note event: the one that the keymap binds to
    /// the name of its note, or `None` where it binds none. The velocity plays
    /// no part.
    pub fn on_note(&self, event: NoteEvent) -> (r: Option<&str>)
        ensures
            match r {
                Some(command) => command_of(
                    self.keymap(),
                    self.octave_shift() as int,
                    event.note_number() as int,
                ) == Some(command@),
                None => command_of(
                    self.keymap(),
                    self.octave_shift() as int,
                    event.note_number() as int,
                ) is None,
            },
    {
        let key_name = id_to_key(event.note_number(), self.octave_shift);
        self.keymap.lookup(key_name.as_str())
    }

    /// The command to run for a raw MIDI message: that of its note if the
    /// message is a note-on; `None` for any other message.
    pub fn on_message(&self, message: &[u8]) -> (r: Option<&str>)
        ensures
            match r {
                Some(command) => command_of_message(
                    self.keymap(),
                    self.octave_shift() as int,
                    message@,
                ) == Some(command@),
                None => command_of_message(self.keymap(), self.octave_shift() as int, message@)
                    is None,
            },
    {
        match NoteEvent::decode(message) {
            Some(event) => self.on_note(event),
            None => None,
        }
    }
}

} // verus!
