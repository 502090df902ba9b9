//! The audio devices offered to the user.
//!
//! A device that can record is offered as a microphone, one that can play as
//! a source of system audio, and one that can do both as both.

use vstd::prelude::*;
use vstd::string::StringExecFns;
use crate::text::{decimal, usize_to_string};

verus! {

/// One audio device as it is offered to the user.
#[derive(Debug, Clone)]
pub struct AudioDeviceInfo {
    /// Unique identifier.
    pub id: String,
    /// Display name.
    pub name: String,
    /// `input` or `output`.
    pub device_type: String,
    /// Whether it is the system's default device of its type.
    pub is_default: bool,
}

/// A device entry as plain values.
pub ghost struct DeviceView {
    pub id: Seq<char>,
    pub name: Seq<char>,
    pub device_type: Seq<char>,
    pub is_default: bool,
}

impl View for AudioDeviceInfo {
    type V = DeviceView;

    open spec fn view(&self) -> DeviceView {
        DeviceView {
            id: self.id@,
            name: self.name@,
            device_type: self.device_type@,
            is_default: self.is_default,
        }
    }
}

/// The plain values of a list of entries.
pub open spec fn device_views(v: Seq<AudioDeviceInfo>) -> Seq<DeviceView> {
    v.map_values(|d: AudioDeviceInfo| d@)
}

/// The entry that offers the device as a microphone.
pub open spec fn input_entry(index: nat, name: Seq<char>, is_default: bool) -> DeviceView {
    DeviceView {
        id: "input:"@ + decimal(index) + ":"@ + name,
        name: name + " (麦克风)"@,
        device_type: "input"@,
        is_default,
    }
}

/// The entry that offers the device as a source of system audio.
pub open spec fn output_entry(index: nat, name: Seq<char>, is_default: bool) -> DeviceView {
    DeviceView {
        id: "output:"@ + decimal(index) + ":"@ + name,
        name: name + " (系统音频)"@,
        device_type: "output"@,
        is_default,
    }
}

/// Whether `name` is the name of the default device, where there is one.
pub open spec fn names_default(default_name: Option<&str>, name: Seq<char>) -> bool {
    match default_name {
        Some(d) => d@ == name,
        None => false,
    }
}

/// The entries of one device: first as a microphone, then as a source of
/// system audio, each where the device supports it.
pub open spec fn entries_of(
    index: nat,
    name: Seq<char>,
    supports_input: bool,
    supports_output: bool,
    default_input: Option<&str>,
    default_output: Option<&str>,
) -> Seq<DeviceView> {
    (if supports_input {
        seq![input_entry(index, name, names_default(default_input, name))]
    } else {
        Seq::empty()
    }) + (if supports_output {
        seq![output_entry(index, name, names_default(default_output, name))]
    } else {
        Seq::empty()
    })
}

/// Whether `name` is the name of the default device.
fn is_default_name(default_name: Option<&str>, name: &str) -> (r: bool)
    ensures
        r == names_default(default_name, name@),
{
    match default_name {
        Some(d) => d.to_owned() == name.to_owned(),
        None => false,
    }
}

/// The entries for the device that the host lists at position `index`
/// under the name `name`.
pub fn device_entries(
    index: usize,
    name: &str,
    supports_input: bool,
    supports_output: bool,
    default_input: Option<&str>,
    default_output: Option<&str>,
) -> (r: Vec<AudioDeviceInfo>)
    ensures
        device_views(r@) == entries_of(
            index as nat,
            name@,
            supports_input,
            supports_output,
            default_input,
            default_output,
        ),
{
    let mut entries: Vec<AudioDeviceInfo> = Vec::new();
    if supports_input {
        let id = "input:".to_owned().concat(usize_to_string(index).as_str()).concat(":").concat(
            name,
        );
        entries.push(
            AudioDeviceInfo {
                id,
                name: name.to_owned().concat(" (麦克风)"),
                device_type: "input".to_owned(),
                is_default: is_default_name(default_input, name),
            },
        );
    }
    if supports_output {
        let id = "output:".to_owned().concat(usize_to_string(index).as_str()).concat(":").concat(
            name,
        );
        entries.push(
            AudioDeviceInfo {
                id,
                name: name.to_owned().concat(" (系统音频)"),
                device_type: "output".to_owned(),
                is_default: is_default_name(default_output, name),
            },
        );
    }
    proof {
        assert(device_views(entries@) =~= entries_of(
            index as nat,
            name@,
            supports_input,
            supports_output,
            default_input,
            default_output,
        ));
    }
    entries
}

} // verus!
