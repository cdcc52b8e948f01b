//! The application state of the soundboard and the decisions it makes on
//! each event: which sound to play, on which device, and what to do next.
//!
//! The state is changed only by the events below; playing, enumerating
//! devices, storing the configuration and running the listener are actions
//! that the caller performs.
use vstd::prelude::*;
use crate::config::{SocketConfig, SoundField};
use crate::sound_button::SoundButton;

verus! {

/// A request to play one file of the sounds directory on one device.
pub struct PlaybackRequest {
    pub sounds_dir: String,
    pub file: String,
    pub device_name: String,
}

/// The events the application reacts to.
pub enum Message {
    /// A sound button, by its 0-based ordinal.
    ButtonPressed(usize),
    OutputDeviceSelected(String),
    RefreshDevices,
    /// The result of a device enumeration: the list and the default device.
    DevicesListed(Vec<String>, Option<String>),
    TokioStartListening,
    /// The listener setting switched on or off at run time.
    SocketToggled(bool),
    /// A remote trigger, by its 1-based number.
    TokioMessageReceived(usize),
    Noop,
}

/// What the caller is to do after an event.
pub enum Action {
    Play(PlaybackRequest),
    SaveConfig,
    ListDevices,
    StartListener(u16),
    StopListener,
    Nothing,
}

pub struct SoundPad {
    pub buttons: Vec<SoundButton>,
    pub sounds_dir: String,
    pub output_devices: Vec<String>,
    pub device: String,
    pub socket: SocketConfig,
}

impl SoundPad {
    /// Each button's id is its position.
    pub open spec fn wf(&self) -> bool {
        forall|i: int| 0 <= i < self.buttons@.len() ==> (#[trigger] self.buttons@[i]).id == i
    }

    /// The buttons show the catalog, entry by entry.
    pub open spec fn shows_catalog(&self, catalog: Seq<SoundField>) -> bool {
        &&& self.buttons@.len() == catalog.len()
        &&& forall|i: int|
            0 <= i < catalog.len() ==> (#[trigger] self.buttons@[i]).label == catalog[i].label
                && self.buttons@[i].file == catalog[i].file
    }

    /// The request that plays the button at `index` with the current device.
    pub open spec fn request_for(&self, index: int) -> PlaybackRequest {
        PlaybackRequest {
            sounds_dir: self.sounds_dir,
            file: self.buttons@[index].file,
            device_name: self.device,
        }
    }

    /// What pressing the button with ordinal `id` plays, if there is one.
    pub open spec fn spec_press(&self, id: int) -> Option<PlaybackRequest> {
        if 0 <= id < self.buttons@.len() {
            Some(self.request_for(id))
        } else {
            None
        }
    }

    /// What the remote trigger `n` plays: the catalog entry at `n - 1`, for
    /// `n` from 1 to the number of entries; nothing for any other `n`.
    pub open spec fn spec_dispatch(&self, n: int) -> Option<PlaybackRequest> {
        if 1 <= n <= self.buttons@.len() {
            Some(self.request_for(n - 1))
        } else {
            None
        }
    }

    /// The state with `name` as the selected device.
    pub open spec fn with_device(self, name: String) -> SoundPad {
        SoundPad { device: name, ..self }
    }

    pub fn new(
        catalog: &Vec<SoundField>,
        sounds_dir: String,
        output_devices: Vec<String>,
        device: String,
        socket: SocketConfig,
    ) -> (r: SoundPad)
        ensures
            r.wf(),
            r.shows_catalog(catalog@),
            r.sounds_dir == sounds_dir,
            r.output_devices == output_devices,
            r.device == device,
            r.socket == socket,
    {
        let mut buttons: Vec<SoundButton> = Vec::new();
        let mut next_id: usize = 0;
        while next_id < catalog.len()
            invariant
                next_id <= catalog@.len(),
                buttons@.len() == next_id,
                forall|i: int|
                    0 <= i < next_id ==> (#[trigger] buttons@[i]).id == i && buttons@[i].label
                        == catalog@[i].label && buttons@[i].file == catalog@[i].file,
            decreases catalog@.len() - next_id,
        {
            let sound = &catalog[next_id];
            buttons.push(
                SoundButton { id: next_id, label: sound.label.clone(), file: sound.file.clone() },
            );
            next_id = next_id + 1;
        }
        SoundPad { buttons, sounds_dir, output_devices, device, socket }
    }

    fn request(&self, index: usize) -> (r: PlaybackRequest)
        requires
            index < self.buttons@.len(),
        ensures
            r == self.request_for(index as int),
    {
        PlaybackRequest {
            sounds_dir: self.sounds_dir.clone(),
            file: self.buttons[index].file.clone(),
            device_name: self.device.clone(),
        }
    }

    /// The playback for a button press, by 0-based ordinal.
    pub fn press_button(&self, id: usize) -> (r: Option<PlaybackRequest>)
        ensures
            r == self.spec_press(id as int),
    {
        if id < self.buttons.len() {
            Some(self.request(id))
        } else {
            None
        }
    }

    /// The playback for a remote trigger, by 1-based number; `None` for 0
    /// and for numbers past the catalog, which are dropped.
    pub fn dispatch_trigger(&self, n: usize) -> (r: Option<PlaybackRequest>)
        ensures
            r == self.spec_dispatch(n as int),
    {
        if n >= 1 && n <= self.buttons.len() {
            Some(self.request(n - 1))
        } else {
            None
        }
    }

    pub fn select_device(&mut self, name: String)
        ensures
            *final(self) == old(self).with_device(name),
    {
        self.device = name;
    }

    /// Takes a new device enumeration: the list is replaced, and the
    /// selected device becomes the default device where there is one.
    pub fn refresh_devices(&mut self, devices: Vec<String>, default: Option<String>)
        ensures
            final(self).output_devices == devices,
            default matches Some(d) ==> final(self).device == d,
            default is None ==> final(self).device == old(self).device,
            final(self).buttons == old(self).buttons,
            final(self).sounds_dir == old(self).sounds_dir,
            final(self).socket == old(self).socket,
    {
        self.output_devices = devices;
        match default {
            Some(d) => {
                self.device = d;
            },
            None => {},
        }
    }

    /// Applies an event to the state and says what the caller does next.
    pub fn update(&mut self, message: Message) -> (r: Action)
        ensures
            match message {
                Message::ButtonPressed(id) => *final(self) == *old(self) && match old(
                    self,
                ).spec_press(id as int) {
                    Some(req) => r == Action::Play(req),
                    None => r is Nothing,
                },
                Message::OutputDeviceSelected(name) => *final(self) == old(self).with_device(name)
                    && r is SaveConfig,
                Message::RefreshDevices => *final(self) == *old(self) && r is ListDevices,
                Message::DevicesListed(devices, default) => {
                    &&& final(self).output_devices == devices
                    &&& final(self).device == match default {
                        Some(d) => d,
                        None => old(self).device,
                    }
                    &&& final(self).buttons == old(self).buttons
                    &&& final(self).sounds_dir == old(self).sounds_dir
                    &&& final(self).socket == old(self).socket
                    &&& r is Nothing
                },
                Message::TokioStartListening => *final(self) == *old(self) && if old(
                    self,
                ).socket.enabled {
                    r == Action::StartListener(old(self).socket.port)
                } else {
                    r is Nothing
                },
                Message::SocketToggled(on) => {
                    &&& *final(self) == (SoundPad {
                        socket: SocketConfig { enabled: on, ..old(self).socket },
                        ..*old(self)
                    })
                    &&& if on {
                        r == Action::StartListener(old(self).socket.port)
                    } else {
                        r is StopListener
                    }
                },
                Message::TokioMessageReceived(n) => *final(self) == *old(self) && match old(
                    self,
                ).spec_dispatch(n as int) {
                    Some(req) => r == Action::Play(req),
                    None => r is Nothing,
                },
                Message::Noop => *final(self) == *old(self) && r is Nothing,
            },
    {
        match message {
            Message::ButtonPressed(id) => match self.press_button(id) {
                Some(req) => Action::Play(req),
                None => Action::Nothing,
            },
            Message::OutputDeviceSelected(name) => {
                self.select_device(name);
                Action::SaveConfig
            },
            Message::RefreshDevices => Action::ListDevices,
            Message::DevicesListed(devices, default) => {
                self.refresh_devices(devices, default);
                Action::Nothing
            },
            Message::TokioStartListening => {
                if self.socket.enabled {
                    Action::StartListener(self.socket.port)
                } else {
                    Action::Nothing
                }
            },
            Message::SocketToggled(on) => {
                self.socket.enabled = on;
                if on {
                    Action::StartListener(self.socket.port)
                } else {
                    Action::StopListener
                }
            },
            Message::TokioMessageReceived(n) => match self.dispatch_trigger(n) {
                Some(req) => Action::Play(req),
                None => Action::Nothing,
            },
            Message::Noop => Action::Nothing,
        }
    }
}

/// A trigger `n` from 1 to the number of catalog entries plays the catalog
/// entry at `n - 1`, from the sounds directory, on the selected device.
pub proof fn law_trigger_resolves_to_catalog_entry(pad: SoundPad, catalog: Seq<SoundField>, n: int)
    requires
        pad.shows_catalog(catalog),
        1 <= n <= catalog.len(),
    ensures
        pad.spec_dispatch(n) == Some(
            PlaybackRequest {
                sounds_dir: pad.sounds_dir,
                file: catalog[n - 1].file,
                device_name: pad.device,
            },
        ),
{
}

/// A trigger outside 1 to the number of catalog entries, 0 included, plays
/// nothing.
pub proof fn law_out_of_range_trigger_is_dropped(pad: SoundPad, catalog: Seq<SoundField>, n: int)
    requires
        pad.shows_catalog(catalog),
        n < 1 || n > catalog.len(),
    ensures
        pad.spec_dispatch(n) is None,
{
}

/// After device `name` is selected, every trigger that plays anything plays
/// on `name`, whatever the device list held before.
pub proof fn law_selected_device_is_used(pad: SoundPad, name: String, n: int)
    requires
        1 <= n <= pad.buttons@.len(),
    ensures
        pad.with_device(name).spec_dispatch(n) matches Some(req) && req.device_name == name,
{
}

} // verus!
