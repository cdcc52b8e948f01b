//! The sound catalog and socket settings, as plain values.
//!
//! Reading and writing the files that hold them happens outside the
//! library; here they are built, checked and chosen from.
use vstd::prelude::*;

verus! {

/// The UDP port the trigger listener binds when nothing else is configured.
pub const DEFAULT_PORT: u16 = 12345;

/// How many trigger numbers the channel between listener and dispatcher holds.
pub const CHANNEL_CAPACITY: usize = 10;

/// One entry of the sound catalog: a label to show and a file under the
/// sounds directory.
pub struct SoundField {
    pub label: String,
    pub file: String,
}

impl SoundField {
    pub fn new(label: &str, file: &str) -> (r: SoundField)
        ensures
            r.label@ == label@,
            r.file@ == file@,
    {
        SoundField { label: label.to_string(), file: file.to_string() }
    }

    /// A field-by-field copy.
    pub fn duplicate(&self) -> (r: SoundField)
        ensures
            r == *self,
    {
        SoundField { label: self.label.clone(), file: self.file.clone() }
    }
}

/// The shape of the stored sound catalog: the entries in display order.
pub struct SoundsFile {
    pub sounds: Vec<SoundField>,
}

/// Whether the trigger listener runs, and on which port.
#[derive(Clone, Copy, PartialEq, Eq, Structural)]
pub struct SocketConfig {
    pub enabled: bool,
    pub port: u16,
}

impl SocketConfig {
    /// The listener enabled, on the default port.
    pub fn initial() -> (r: SocketConfig)
        ensures
            r.enabled,
            r.port == DEFAULT_PORT,
    {
        SocketConfig { enabled: true, port: DEFAULT_PORT }
    }
}

/// A copy of a catalog, entry by entry.
pub fn copy_sounds(sounds: &Vec<SoundField>) -> (r: Vec<SoundField>)
    ensures
        r@ == sounds@,
{
    let mut r: Vec<SoundField> = Vec::new();
    let mut i: usize = 0;
    while i < sounds.len()
        invariant
            i <= sounds@.len(),
            r@ == sounds@.take(i as int),
        decreases sounds@.len() - i,
    {
        r.push(sounds[i].duplicate());
        i = i + 1;
        assert(r@ =~= sounds@.take(i as int));
    }
    assert(sounds@.take(i as int) =~= sounds@);
    r
}

/// The catalog to run with: the stored one, or an empty one where none was
/// stored.
pub fn load_sounds(stored: Option<SoundsFile>) -> (r: Vec<SoundField>)
    ensures
        stored matches Some(f) ==> r@ == f.sounds@,
        stored is None ==> r@.len() == 0,
{
    match stored {
        Some(f) => f.sounds,
        None => Vec::new(),
    }
}

/// The document to store for a catalog.
pub fn save_sounds(sounds: &Vec<SoundField>) -> (r: SoundsFile)
    ensures
        r.sounds@ == sounds@,
{
    SoundsFile { sounds: copy_sounds(sounds) }
}

/// The output device a fresh configuration starts with: the system default
/// where there is one, else the first listed device, else none.
pub fn initial_device(devices: &Vec<String>, default: &Option<String>) -> (r: Option<String>)
    ensures
        *default matches Some(d) ==> r == Some(d),
        *default is None && devices@.len() > 0 ==> r == Some(devices@[0]),
        *default is None && devices@.len() == 0 ==> r is None,
{
    match default {
        Some(d) => Some(d.clone()),
        None => {
            if devices.len() > 0 {
                Some(devices[0].clone())
            } else {
                None
            }
        },
    }
}

} // verus!
