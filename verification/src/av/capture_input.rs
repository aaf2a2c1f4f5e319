//! Capture inputs: a device wrapped as a session input, and the ports it
//! exposes.

use vstd::prelude::*;

use crate::av::capture_device::{Device, Position, Type, ERROR_CODE_NOT_CONNECTED};
use crate::av::media_format::MediaType;
use crate::cm::{FormatDesc, Time};
use crate::ns::Error;

verus! {

/// Whether a port meets the port-search criteria: the media type (when one
/// is named), the source device type (when one is named), and the source
/// position (unspecified matches any).
pub open spec fn port_matches(
    p: Port,
    media_type: Option<MediaType>,
    src_device_type: Option<Type>,
    src_device_pos: Position,
) -> bool {
    &&& match media_type {
        Some(mt) => p.media_type_field == mt,
        None => true,
    }
    &&& match src_device_type {
        Some(t) => p.src_device_type_field == Some(t),
        None => true,
    }
    &&& (src_device_pos == Position::Unspecified || p.src_device_pos_field == src_device_pos)
}

/// The ports of a list that meet the criteria, in list order.
pub open spec fn matching_ports(
    ports: Seq<Port>,
    media_type: Option<MediaType>,
    src_device_type: Option<Type>,
    src_device_pos: Position,
) -> Seq<Port>
    decreases ports.len(),
{
    if ports.len() == 0 {
        Seq::empty()
    } else {
        let init = matching_ports(ports.drop_last(), media_type, src_device_type, src_device_pos);
        if port_matches(ports.last(), media_type, src_device_type, src_device_pos) {
            init.push(ports.last())
        } else {
            init
        }
    }
}

/// The port a device input exposes for one of its device's media types: an
/// enabled port in the device's active format, clocked by the device.
pub open spec fn port_for(device: Device, media_type: MediaType) -> Port {
    Port {
        media_type_field: media_type,
        format_desc_field: Some(device.active_format_field.format_desc_field),
        enabled_field: true,
        clock_field: Some(device.clock_field),
        src_device_type_field: Some(device.device_type_field),
        src_device_pos_field: device.position_field,
    }
}

/// The modes of multichannel audio capture.
#[derive(Clone, Copy, Debug, PartialEq, Eq, Structural)]
pub enum MultichannelAudioMode {
    /// No multichannel audio: the default single-channel recording.
    Disabled,
    /// Record audio in stereo.
    Stereo,
}

/// One stream of data a capture input provides.
#[derive(Clone, Copy, Debug, PartialEq, Eq, Structural)]
pub struct Port {
    pub media_type_field: MediaType,
    pub format_desc_field: Option<FormatDesc>,
    pub enabled_field: bool,
    pub clock_field: Option<Time>,
    pub src_device_type_field: Option<Type>,
    pub src_device_pos_field: Position,
}

impl Port {
    /// The media type of the data this port provides.
    pub fn media_type(&self) -> (r: MediaType)
        ensures
            r == self.media_type_field,
    {
        self.media_type_field
    }

    /// The format of the data this port provides, where one is known.
    pub fn format_desc(&self) -> (r: Option<FormatDesc>)
        ensures
            r == self.format_desc_field,
    {
        self.format_desc_field
    }

    pub fn enabled(&self) -> (r: bool)
        ensures
            r == self.enabled_field,
    {
        self.enabled_field
    }

    pub fn set_enabled(&mut self, val: bool)
        ensures
            *final(self) == (Port { enabled_field: val, ..*old(self) }),
    {
        self.enabled_field = val;
    }

    /// The native clock of this port, where one exists.
    pub fn clock(&self) -> (r: Option<Time>)
        ensures
            r == self.clock_field,
    {
        self.clock_field
    }

    /// The type of the source device providing input through this port.
    pub fn src_device_type(&self) -> (r: Option<Type>)
        ensures
            r == self.src_device_type_field,
    {
        self.src_device_type_field
    }

    /// The position of the source device providing input through this port.
    pub fn src_device_pos(&self) -> (r: Position)
        ensures
            r == self.src_device_pos_field,
    {
        self.src_device_pos_field
    }
}

/// A source of media data attached to a capture session.
#[derive(Debug)]
pub struct Input {
    pub ports_field: Vec<Port>,
}

impl Input {
    pub fn ports(&self) -> (r: &Vec<Port>)
        ensures
            r == self.ports_field,
    {
        &self.ports_field
    }
}

/// A capture input that wraps one device and owns it for its lifetime.
#[derive(Debug)]
pub struct DeviceInput {
    pub input: Input,
    pub device_field: Device,
    pub unified_auto_exposure_defaults_enabled_field: bool,
    pub video_min_frame_duration_override_field: Time,
    pub multichannel_audio_mode_field: MultichannelAudioMode,
}

impl DeviceInput {
    /// Build one port per media type the device offers.
    fn ports_for_device(device: &Device) -> (r: Vec<Port>)
        ensures
            r@.len() == device.media_types@.len(),
            forall|i: int|
                0 <= i < r@.len() ==> #[trigger] r@[i] == port_for(
                    *device,
                    device.media_types@[i],
                ),
    {
        let mut r: Vec<Port> = Vec::new();
        let mut i: usize = 0;
        while i < device.media_types.len()
            invariant
                0 <= i <= device.media_types@.len(),
                r@.len() == i,
                forall|j: int|
                    0 <= j < i ==> #[trigger] r@[j] == port_for(*device, device.media_types@[j]),
            decreases device.media_types@.len() - i,
        {
            r.push(
                Port {
                    media_type_field: device.media_types[i],
                    format_desc_field: Some(device.active_format_field.format_desc_field),
                    enabled_field: true,
                    clock_field: Some(device.clock_field),
                    src_device_type_field: Some(device.device_type_field),
                    src_device_pos_field: device.position_field,
                },
            );
            i = i + 1;
        }
        r
    }

    /// The native initializer: wrap a connected device as an input; for a
    /// disconnected device the error output is populated instead.
    pub fn init_with_device_err(device: Device, error: &mut Option<Error>) -> (r: Option<
        DeviceInput,
    >)
        ensures
            match r {
                Some(input) => {
                    &&& device.is_connected_field
                    &&& input.device_field == device
                    &&& *final(error) is None
                    &&& input.input.ports_field@.len() == device.media_types@.len()
                    &&& forall|i: int|
                        0 <= i < input.input.ports_field@.len()
                            ==> #[trigger] input.input.ports_field@[i] == port_for(
                            device,
                            device.media_types@[i],
                        )
                    &&& !input.unified_auto_exposure_defaults_enabled_field
                    &&& !input.video_min_frame_duration_override_field.valid
                    &&& input.multichannel_audio_mode_field == MultichannelAudioMode::Disabled
                },
                None => !device.is_connected_field && match *final(error) {
                    Some(e) => e.domain@ == "AVFoundationErrorDomain"@ && e.code
                        == ERROR_CODE_NOT_CONNECTED,
                    None => false,
                },
            },
    {
        if device.is_connected() {
            let ports_field = Self::ports_for_device(&device);
            *error = None;
            Some(
                DeviceInput {
                    input: Input { ports_field },
                    device_field: device,
                    unified_auto_exposure_defaults_enabled_field: false,
                    video_min_frame_duration_override_field: Time::invalid(),
                    multichannel_audio_mode_field: MultichannelAudioMode::Disabled,
                },
            )
        } else {
            *error = Some(
                Error::new(
                    "AVFoundationErrorDomain".to_owned(),
                    ERROR_CODE_NOT_CONNECTED,
                    "the device is not connected".to_owned(),
                ),
            );
            None
        }
    }

    /// Wrap a device as a capture input, taking ownership of it; a
    /// disconnected device yields the structured error instead.
    pub fn with_device(device: Device) -> (r: Result<DeviceInput, Error>)
        ensures
            match r {
                Ok(input) => {
                    &&& device.is_connected_field
                    &&& input.device_field == device
                    &&& input.input.ports_field@.len() == device.media_types@.len()
                    &&& forall|i: int|
                        0 <= i < input.input.ports_field@.len()
                            ==> #[trigger] input.input.ports_field@[i] == port_for(
                            device,
                            device.media_types@[i],
                        )
                },
                Err(e) => !device.is_connected_field && e.domain@ == "AVFoundationErrorDomain"@
                    && e.code == ERROR_CODE_NOT_CONNECTED,
            },
    {
        let mut error: Option<Error> = None;
        let res = Self::init_with_device_err(device, &mut error);
        match error {
            Some(e) => Err(e),
            None => match res {
                Some(input) => Ok(input),
                None => unreached(),
            },
        }
    }

    /// The device this input wraps.
    pub fn device(&self) -> (r: &Device)
        ensures
            r == self.device_field,
    {
        &self.device_field
    }

    pub fn unified_auto_exposure_defaults_enabled(&self) -> (r: bool)
        ensures
            r == self.unified_auto_exposure_defaults_enabled_field,
    {
        self.unified_auto_exposure_defaults_enabled_field
    }

    pub fn set_unified_auto_exposure_defaults_enabled(&mut self, val: bool)
        ensures
            *final(self) == (DeviceInput {
                unified_auto_exposure_defaults_enabled_field: val,
                ..*old(self)
            }),
    {
        self.unified_auto_exposure_defaults_enabled_field = val;
    }

    /// The ports of this input whose stream matches the given criteria —
    /// the media type (when one is named), the source device type (when one
    /// is named), and the source position (unspecified matches any) — every
    /// matching port, in port order.
    #[verifier::loop_isolation(false)]
    pub fn ports_with(
        &self,
        media_type: Option<&MediaType>,
        src_device_type: Option<&Type>,
        src_device_pos: Position,
    ) -> (r: Vec<Port>)
        ensures
            r@ == matching_ports(
                self.input.ports_field@,
                match media_type {
                    Some(mt) => Some(*mt),
                    None => None,
                },
                match src_device_type {
                    Some(t) => Some(*t),
                    None => None,
                },
                src_device_pos,
            ),
    {
        let ghost mt: Option<MediaType> = match media_type {
            Some(m) => Some(*m),
            None => None,
        };
        let ghost st: Option<Type> = match src_device_type {
            Some(t) => Some(*t),
            None => None,
        };
        let ghost all = self.input.ports_field@;
        let mut r: Vec<Port> = Vec::new();
        let mut i: usize = 0;
        while i < self.input.ports_field.len()
            invariant
                0 <= i <= all.len(),
                r@ == matching_ports(all.take(i as int), mt, st, src_device_pos),
            decreases all.len() - i,
        {
            let p = self.input.ports_field[i];
            proof {
                assert(all.take(i as int + 1).drop_last() =~= all.take(i as int));
                assert(all.take(i as int + 1).last() == all[i as int]);
            }
            let media_ok = match media_type {
                Some(m) => p.media_type_field == *m,
                None => true,
            };
            let type_ok = match src_device_type {
                Some(t) => match p.src_device_type_field {
                    Some(pt) => pt == *t,
                    None => false,
                },
                None => true,
            };
            let pos_ok = match src_device_pos {
                Position::Unspecified => true,
                _ => p.src_device_pos_field == src_device_pos,
            };
            if media_ok && type_ok && pos_ok {
                proof {
                    assert(port_matches(p, mt, st, src_device_pos));
                }
                r.push(p);
            } else {
                proof {
                    assert(!port_matches(p, mt, st, src_device_pos));
                }
            }
            i = i + 1;
        }
        proof {
            assert(all.take(all.len() as int) =~= all);
        }
        r
    }

    /// A modifier of the device's shortest frame duration; the invalid time
    /// means no override.
    pub fn video_min_frame_duration_override(&self) -> (r: Time)
        ensures
            r == self.video_min_frame_duration_override_field,
    {
        self.video_min_frame_duration_override_field
    }

    pub fn set_video_min_frame_duration_override(&mut self, val: Time)
        ensures
            *final(self) == (DeviceInput {
                video_min_frame_duration_override_field: val,
                ..*old(self)
            }),
    {
        self.video_min_frame_duration_override_field = val;
    }

    /// Whether the wrapped device can record in the given multichannel
    /// audio mode: stereo needs an audio-carrying device; disabling is
    /// always possible.
    pub fn is_multichannel_audio_mode_supported(&self, val: MultichannelAudioMode) -> (r: bool)
        ensures
            r == (val == MultichannelAudioMode::Disabled
                || self.device_field.media_types@.contains(MediaType::Audio)),
    {
        match val {
            MultichannelAudioMode::Disabled => true,
            MultichannelAudioMode::Stereo => self.device_field.has_media_type(&MediaType::Audio),
        }
    }

    pub fn multichannel_audio_mode(&self) -> (r: MultichannelAudioMode)
        ensures
            r == self.multichannel_audio_mode_field,
    {
        self.multichannel_audio_mode_field
    }

    pub fn set_multichannel_audio_mode(&mut self, val: MultichannelAudioMode)
        requires
            val == MultichannelAudioMode::Disabled || old(
                self,
            ).device_field.media_types@.contains(MediaType::Audio),
        ensures
            *final(self) == (DeviceInput { multichannel_audio_mode_field: val, ..*old(self) }),
    {
        self.multichannel_audio_mode_field = val;
    }
}

} // verus!
