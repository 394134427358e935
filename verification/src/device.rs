//! The keyboard itself: exclusive transport ownership, the blocking
//! command/acknowledgement exchange with its retry budget, capability
//! discovery, the non-blocking event poll, and every lighting, mode and
//! game-mode command the session issues.

use vstd::prelude::*;

use crate::capability::{Capability, CapabilityData, CapabilityTable};
use crate::color::Color;
use crate::events::{events_from_interrupt, spec_translate_all, DeviceEvent, KeyBitmasks};
use crate::frame::{
    classify_frame, encode_frame, encode_header, is_ack, is_response, spec_header, FrameClass,
    FRAME_LENGTH,
};
use crate::rgb::{EffectConfiguration, EffectGroup, ScancodeAssignments};
use crate::scancode::Scancode;

verus! {

/// How many inbound frames are examined for an acknowledgement before a
/// command exchange is abandoned.
pub const RETRY_BUDGET: usize = 30;

/// How a device command can fail.
#[derive(Debug)]
pub enum CommandError {
    /// The transport itself failed; fatal to the session.
    HidError(hidapi::HidError),
    /// The device answered the given command with an error frame; the
    /// operation failed but the session continues.
    ProtocolFailure(u16),
    /// The retry budget ran out without an acknowledgement or error for the
    /// given command; fatal, since the exchange alignment is now unknown.
    AckTimeout(u16),
    /// A programming-contract violation, reported rather than defaulted.
    LogicError(String),
    /// Any other failure, with a description.
    Failure(String),
}

pub type CommandResult<T> = Result<T, CommandError>;

/// The devices's control owner.
#[derive(Copy, Clone, Eq, PartialEq, Hash, Structural)]
pub enum ControlMode {
    Hardware,
    Software,
}

impl ControlMode {
    pub open spec fn spec_code(self) -> u8 {
        match self {
            ControlMode::Hardware => 0x01u8,
            ControlMode::Software => 0x02u8,
        }
    }

    pub fn code(self) -> (c: u8)
        ensures
            c == self.spec_code(),
    {
        match self {
            ControlMode::Hardware => 0x01,
            ControlMode::Software => 0x02,
        }
    }
}

/// Whether the G-keys report to the host or act as F-keys.
#[derive(Copy, Clone, Eq, PartialEq, Hash, Structural)]
pub enum GKeysMode {
    Default,
    Software,
}

impl GKeysMode {
    pub open spec fn spec_code(self) -> u8 {
        match self {
            GKeysMode::Default => 0x00u8,
            GKeysMode::Software => 0x01u8,
        }
    }

    pub fn code(self) -> (c: u8)
        ensures
            c == self.spec_code(),
    {
        match self {
            GKeysMode::Default => 0x00,
            GKeysMode::Software => 0x01,
        }
    }
}

/// The command words of the vendor protocol, as sent after the standard
/// session initializer (their low nibble encodes that session).
#[derive(Copy, Clone, Eq, PartialEq, Structural)]
pub enum Command {
    InitializeSession,
    SetModeLeds,
    Set13,
    Set4,
    SetEffect,
    Commit,
    ResetGameMode,
    GameModeAddKeys,
    SetMacroRecordMode,
    SetControlMode,
    SetGKeysMode,
    GetVersion,
    CapabilityInfo,
    LightingEnabled,
    EffectsEnabled,
}

impl Command {
    pub open spec fn spec_code(self) -> u16 {
        match self {
            Command::InitializeSession => 0x001au16,
            Command::SetModeLeds => 0x0b1au16,
            Command::Set13 => 0x106au16,
            Command::Set4 => 0x101au16,
            Command::SetEffect => 0x0f1au16,
            Command::Commit => 0x107au16,
            Command::ResetGameMode => 0x083au16,
            Command::GameModeAddKeys => 0x081au16,
            Command::SetMacroRecordMode => 0x0c0au16,
            Command::SetControlMode => 0x111au16,
            Command::SetGKeysMode => 0x0a2au16,
            Command::GetVersion => 0x021au16,
            Command::CapabilityInfo => 0x000au16,
            Command::LightingEnabled => 0x0f7au16,
            Command::EffectsEnabled => 0x0f5au16,
        }
    }

    pub fn code(self) -> (c: u16)
        ensures
            c == self.spec_code(),
    {
        match self {
            Command::InitializeSession => 0x001a,
            Command::SetModeLeds => 0x0b1a,
            Command::Set13 => 0x106a,
            Command::Set4 => 0x101a,
            Command::SetEffect => 0x0f1a,
            Command::Commit => 0x107a,
            Command::ResetGameMode => 0x083a,
            Command::GameModeAddKeys => 0x081a,
            Command::SetMacroRecordMode => 0x0c0a,
            Command::SetControlMode => 0x111a,
            Command::SetGKeysMode => 0x0a2a,
            Command::GetVersion => 0x021a,
            Command::CapabilityInfo => 0x000a,
            Command::LightingEnabled => 0x0f7a,
            Command::EffectsEnabled => 0x0f5a,
        }
    }
}

#[verifier::external_type_specification]
#[verifier::external_body]
pub struct ExHidDevice(hidapi::HidDevice);

#[verifier::external_type_specification]
#[verifier::external_body]
pub struct ExHidError(hidapi::HidError);

/// Relies on hidapi's HidDevice::set_blocking_mode: switches whether reads
/// wait for data.
#[verifier::external_body]
fn hid_set_blocking(device: &hidapi::HidDevice, blocking: bool) -> (r: Result<
    (),
    hidapi::HidError,
>) {
    device.set_blocking_mode(blocking)
}

/// Relies on hidapi's HidDevice::write: sends one output report.
#[verifier::external_body]
fn hid_write(device: &hidapi::HidDevice, data: &Vec<u8>) -> (r: Result<usize, hidapi::HidError>) {
    device.write(data.as_slice())
}

/// Relies on hidapi's HidDevice::read: reads one input report, at most a
/// frame long, into a fresh buffer; the buffer is empty when a non-blocking
/// read found nothing.
#[verifier::external_body]
fn hid_read_frame(device: &hidapi::HidDevice) -> (r: Result<Vec<u8>, hidapi::HidError>)
    ensures
        r matches Ok(frame) ==> frame@.len() <= FRAME_LENGTH,
{
    let mut buffer = vec![0u8; FRAME_LENGTH];
    match device.read(buffer.as_mut_slice()) {
        Ok(bytes_read) => {
            buffer.truncate(bytes_read);
            Ok(buffer)
        },
        Err(e) => Err(e),
    }
}

/// Relies on hidapi's HidDevice::get_serial_number_string.
#[verifier::external_body]
fn hid_serial_number(device: &hidapi::HidDevice) -> (r: Option<String>) {
    match device.get_serial_number_string() {
        Ok(serial) => serial,
        Err(_) => None,
    }
}

/// Relies on hidapi's HidDevice::get_product_string.
#[verifier::external_body]
fn hid_product_string(device: &hidapi::HidDevice) -> (r: Option<String>) {
    match device.get_product_string() {
        Ok(product) => product,
        Err(_) => None,
    }
}

/// One physical keyboard under exclusive control: the device handle, what
/// discovery learned, the last seen key bitmasks, the mode-LED state, and
/// the queue of interrupts that arrived during command exchanges.
pub struct G815Keyboard {
    device: hidapi::HidDevice,
    capabilities: CapabilityTable,
    key_bitmasks: KeyBitmasks,
    mode_leds: u8,
    interrupt_queue: Vec<Vec<u8>>,
}

impl G815Keyboard {
    /// The capability table as discovery left it.
    pub closed spec fn spec_caps(self) -> CapabilityTable {
        self.capabilities
    }

    /// The last observed bitmask of each key group.
    pub closed spec fn spec_masks(self) -> KeyBitmasks {
        self.key_bitmasks
    }

    /// The mode-LED bitmask last sent to the device.
    pub closed spec fn spec_mode_leds(self) -> u8 {
        self.mode_leds
    }

    /// Interrupts that arrived during command exchanges, oldest first.
    pub closed spec fn spec_queue(self) -> Seq<Vec<u8>> {
        self.interrupt_queue@
    }

    pub open spec fn wf(self) -> bool {
        self.spec_caps().wf()
    }

    /// The interrupt queue only grew: nothing already queued was dropped or
    /// reordered.
    pub open spec fn queue_extended(old_kb: G815Keyboard, new_kb: G815Keyboard) -> bool {
        &&& old_kb.spec_queue().len() <= new_kb.spec_queue().len()
        &&& forall|j: int|
            0 <= j < old_kb.spec_queue().len() ==> new_kb.spec_queue()[j]@ == old_kb.spec_queue()[j]@
    }

    /// One command exchange happened: the queue grew only by unsolicited
    /// interrupts (never by a frame that answers this command), and nothing
    /// else about the session changed.
    pub open spec fn exchange_step(old_kb: G815Keyboard, new_kb: G815Keyboard, command: u16) -> bool {
        &&& Self::queue_extended(old_kb, new_kb)
        &&& forall|j: int|
            old_kb.spec_queue().len() <= j < new_kb.spec_queue().len() ==> !is_response(
                spec_header(command),
                new_kb.spec_queue()[j]@,
            )
        &&& new_kb.spec_caps() == old_kb.spec_caps()
        &&& new_kb.spec_masks() == old_kb.spec_masks()
        &&& new_kb.spec_mode_leds() == old_kb.spec_mode_leds()
    }

    /// Takes ownership of an opened device handle. Capability discovery has
    /// not run yet.
    pub fn new(device: hidapi::HidDevice) -> (kb: G815Keyboard)
        ensures
            kb.wf(),
            kb.spec_queue().len() == 0,
            forall|c: Capability| kb.spec_caps().spec_data(c) is None,
            forall|id: u8| kb.spec_caps().spec_reverse(id) is None,
            forall|t: crate::events::KeyType| kb.spec_masks().spec_get(t) == 0u8,
            kb.spec_mode_leds() == 0u8,
    {
        G815Keyboard {
            device,
            capabilities: CapabilityTable::new(),
            key_bitmasks: KeyBitmasks::new(),
            mode_leds: 0,
            interrupt_queue: Vec::new(),
        }
    }

    /// The device's serial number, if it reports one.
    pub fn serial_number(&self) -> Option<String> {
        hid_serial_number(&self.device)
    }

    /// The device's product name, if it reports one.
    pub fn product_string(&self) -> Option<String> {
        hid_product_string(&self.device)
    }

    /// Sends one command frame and reads inbound frames until the device
    /// acknowledges or rejects it. Interrupts that arrive in between are
    /// queued in order, never dropped. On success the result is the
    /// acknowledgement frame with the echoed header stripped.
    fn write_command(&mut self, command: u16, payload: &Vec<u8>) -> (r: CommandResult<Vec<u8>>)
        requires
            payload@.len() + 4 <= FRAME_LENGTH,
        ensures
            Self::exchange_step(*old(self), *final(self), command),
            r matches Ok(response) ==> exists|f: Seq<u8>|
                is_ack(spec_header(command), f) && response@ == f.skip(4),
            r matches Err(e) ==> match e {
                CommandError::HidError(_) => true,
                CommandError::ProtocolFailure(c) => c == command,
                CommandError::AckTimeout(c) => c == command && final(self).spec_queue().len()
                    == old(self).spec_queue().len() + RETRY_BUDGET,
                _ => false,
            },
    {
        let frame = encode_frame(command, payload);
        let header = encode_header(command);
        if let Err(e) = hid_set_blocking(&self.device, true) {
            return Err(CommandError::HidError(e));
        }
        if let Err(e) = hid_write(&self.device, &frame) {
            return Err(CommandError::HidError(e));
        }
        let ghost orig = *self;
        let mut attempts: usize = 0;
        while attempts < RETRY_BUDGET
            invariant
                orig == *old(self),
                header@ == spec_header(command),
                attempts <= RETRY_BUDGET,
                self.capabilities == orig.capabilities,
                self.key_bitmasks == orig.key_bitmasks,
                self.mode_leds == orig.mode_leds,
                self.interrupt_queue@.len() == orig.interrupt_queue@.len() + attempts,
                forall|j: int|
                    0 <= j < orig.interrupt_queue@.len() ==> self.interrupt_queue@[j]@
                        == orig.interrupt_queue@[j]@,
                forall|j: int|
                    orig.interrupt_queue@.len() <= j < self.interrupt_queue@.len() ==> !is_response(
                        spec_header(command),
                        self.interrupt_queue@[j]@,
                    ),
            decreases RETRY_BUDGET - attempts,
        {
            let inbound = match hid_read_frame(&self.device) {
                Ok(frame) => frame,
                Err(e) => {
                    return Err(CommandError::HidError(e));
                },
            };
            match classify_frame(&header, &inbound) {
                FrameClass::Ack(response) => {
                    if let Err(e) = hid_set_blocking(&self.device, false) {
                        return Err(CommandError::HidError(e));
                    }
                    return Ok(response);
                },
                FrameClass::ErrorResponse => {
                    return Err(CommandError::ProtocolFailure(command));
                },
                FrameClass::Interrupt => {
                    self.interrupt_queue.push(inbound);
                },
            }
            attempts = attempts + 1;
        }
        Err(CommandError::AckTimeout(command))
    }

    /// Drains the interrupt queue and makes one non-blocking read, turning
    /// every buffer, in arrival order, into semantic events.
    pub fn get_events(&mut self) -> (events: Vec<DeviceEvent>)
        ensures
            final(self).spec_queue().len() == 0,
            final(self).spec_caps() == old(self).spec_caps(),
            final(self).spec_mode_leds() == old(self).spec_mode_leds(),
            exists|extra: Seq<Vec<u8>>|
                {
                    let all = #[trigger] spec_translate_all(
                        old(self).spec_masks(),
                        old(self).spec_caps(),
                        old(self).spec_queue() + extra,
                    );
                    &&& extra.len() <= 1
                    &&& events@ == all.0
                    &&& final(self).spec_masks() == all.1
                },
    {
        let ghost orig = *self;
        let mut buffers: Vec<Vec<u8>> = Vec::new();
        core::mem::swap(&mut buffers, &mut self.interrupt_queue);
        match hid_read_frame(&self.device) {
            Ok(frame) => {
                if frame.len() > 0 {
                    buffers.push(frame);
                }
            },
            Err(_) => {},
        }
        let ghost extra = buffers@.skip(orig.interrupt_queue@.len() as int);
        assert(orig.interrupt_queue@ + extra =~= buffers@);
        let mut events: Vec<DeviceEvent> = Vec::new();
        let mut i: usize = 0;
        while i < buffers.len()
            invariant
                orig == *old(self),
                i <= buffers@.len(),
                self.capabilities == orig.capabilities,
                self.mode_leds == orig.mode_leds,
                self.interrupt_queue@.len() == 0,
                events@ == spec_translate_all(
                    orig.key_bitmasks,
                    orig.capabilities,
                    buffers@.take(i as int),
                ).0,
                self.key_bitmasks == spec_translate_all(
                    orig.key_bitmasks,
                    orig.capabilities,
                    buffers@.take(i as int),
                ).1,
            decreases buffers@.len() - i,
        {
            let mut more = events_from_interrupt(
                &mut self.key_bitmasks,
                &self.capabilities,
                &buffers[i],
            );
            events.append(&mut more);
            proof {
                assert(buffers@.take(i as int + 1).drop_last() =~= buffers@.take(i as int));
                assert(buffers@.take(i as int + 1).last() == buffers@[i as int]);
            }
            i = i + 1;
        }
        assert(buffers@.take(buffers@.len() as int) =~= buffers@);
        proof {
            let all = spec_translate_all(orig.spec_masks(), orig.spec_caps(), orig.spec_queue() + extra);
            assert(orig.spec_queue() + extra == buffers@);
            assert(events@ == all.0);
            assert(self.key_bitmasks == all.1);
        }
        events
    }

    fn execute(&mut self, command: Command, payload: &Vec<u8>) -> (r: CommandResult<Vec<u8>>)
        requires
            payload@.len() + 4 <= FRAME_LENGTH,
        ensures
            Self::exchange_step(*old(self), *final(self), command.spec_code()),
            r matches Ok(response) ==> exists|f: Seq<u8>|
                is_ack(spec_header(command.spec_code()), f) && response@ == f.skip(4),
            r matches Err(e) ==> spec_command_error(e, command.spec_code()),
    {
        let code = command.code();
        self.write_command(code, payload)
    }

    /// Runs the discovery handshake for one capability: asks the device for
    /// its dynamic id, and, when the id is non-zero, fetches the capability
    /// metadata and fills in the reverse index. A dynamic id of 0 records the
    /// capability as unsupported and leaves the reverse index untouched; a
    /// non-zero id populates exactly one reverse-index entry.
    pub fn load_capability_data(&mut self, capability: Capability) -> (r: CommandResult<()>)
        requires
            old(self).wf(),
            old(self).spec_caps().spec_data(capability) is None,
        ensures
            final(self).wf(),
            Self::queue_extended(*old(self), *final(self)),
            final(self).spec_masks() == old(self).spec_masks(),
            final(self).spec_mode_leds() == old(self).spec_mode_leds(),
            r is Err ==> final(self).spec_caps() == old(self).spec_caps(),
            r is Ok ==> final(self).spec_caps().spec_data(capability) is Some,
            r is Ok ==> forall|x: Capability|
                x != capability ==> final(self).spec_caps().spec_data(x) == old(
                    self,
                ).spec_caps().spec_data(x),
            r is Ok ==> {
                let data = final(self).spec_caps().spec_data(capability)->Some_0;
                &&& (data.id == 0 ==> data.key_type is None && data.key_count is None && (
                forall|x: u8|
                    final(self).spec_caps().spec_reverse(x) == old(self).spec_caps().spec_reverse(
                        x,
                    )))
                &&& (data.id != 0 ==> data.key_type == Some(capability.spec_key_type())
                    && data.key_count is Some && final(self).spec_caps().spec_reverse(data.id)
                    == Some(capability) && (forall|x: u8|
                    x != data.id ==> final(self).spec_caps().spec_reverse(x) == old(
                        self,
                    ).spec_caps().spec_reverse(x)))
                &&& ((capability == Capability::GameMode || capability == Capability::MacroRecording
                    || capability == Capability::BrightnessAdjustment) && data.id != 0
                    ==> data.key_count == Some(1u8))
            },
    {
        let capability_id = capability.id();
        let mut discovery_payload: Vec<u8> = Vec::new();
        discovery_payload.push((capability_id / 256) as u8);
        discovery_payload.push((capability_id % 256) as u8);
        let id_response = match self.execute(Command::CapabilityInfo, &discovery_payload) {
            Ok(response) => response,
            Err(e) => {
                return Err(e);
            },
        };
        if id_response.len() == 0 {
            return Err(CommandError::Failure("empty capability discovery response".to_owned()));
        }
        let dynamic_id = id_response[0];
        if dynamic_id == 0 {
            self.capabilities.record(
                capability,
                CapabilityData { id: 0, key_type: None, key_count: None, raw: None },
            );
            return Ok(());
        }
        let data_command: u16 = (dynamic_id as u16) * 256 + 0x000a;
        let empty_payload: Vec<u8> = Vec::new();
        let data = match self.write_command(data_command, &empty_payload) {
            Ok(response) => response,
            Err(e) => {
                return Err(e);
            },
        };
        let key_count: u8 = match capability {
            Capability::GKeys | Capability::ModeSwitching => {
                if data.len() == 0 {
                    return Err(
                        CommandError::Failure("short capability metadata response".to_owned()),
                    );
                }
                data[0]
            },
            _ => 1,
        };
        if self.capabilities.reverse_lookup(dynamic_id).is_some() {
            return Err(CommandError::Failure("duplicate dynamic capability id".to_owned()));
        }
        self.capabilities.record(
            capability,
            CapabilityData {
                id: dynamic_id,
                key_type: Some(capability.key_type()),
                key_count: Some(key_count),
                raw: Some(data),
            },
        );
        Ok(())
    }

    /// Discovers the whole fixed capability list. A capability the device
    /// does not support is recorded as such, not treated as an error.
    pub fn load_capabilities(&mut self) -> (r: CommandResult<()>)
        requires
            old(self).wf(),
            forall|c: Capability| old(self).spec_caps().spec_data(c) is None,
        ensures
            final(self).wf(),
            Self::queue_extended(*old(self), *final(self)),
            final(self).spec_masks() == old(self).spec_masks(),
            final(self).spec_mode_leds() == old(self).spec_mode_leds(),
            r is Ok ==> forall|c: Capability| final(self).spec_caps().spec_data(c) is Some,
    {
        if let Err(e) = self.load_capability_data(Capability::GKeys) {
            return Err(e);
        }
        if let Err(e) = self.load_capability_data(Capability::ModeSwitching) {
            return Err(e);
        }
        if let Err(e) = self.load_capability_data(Capability::GameMode) {
            return Err(e);
        }
        if let Err(e) = self.load_capability_data(Capability::MacroRecording) {
            return Err(e);
        }
        if let Err(e) = self.load_capability_data(Capability::BrightnessAdjustment) {
            return Err(e);
        }
        assert forall|c: Capability| self.spec_caps().spec_data(c) is Some by {
            match c {
                Capability::GKeys => {},
                Capability::ModeSwitching => {},
                Capability::GameMode => {},
                Capability::MacroRecording => {},
                Capability::BrightnessAdjustment => {},
            }
        }
        Ok(())
    }

    /// What discovery recorded for `capability`; asking before discovery ran
    /// is a contract violation and reports a logic error.
    pub fn capability_data(&self, capability: Capability) -> (r: CommandResult<&CapabilityData>)
        ensures
            r matches Ok(data) ==> self.spec_caps().spec_data(capability) == Some(*data),
            r matches Err(e) ==> self.spec_caps().spec_data(capability) is None && e is LogicError,
    {
        match self.capabilities.data(capability) {
            Some(data) => Ok(data),
            None => Err(
                CommandError::LogicError(
                    "capability data requested before discovery".to_owned(),
                ),
            ),
        }
    }

    /// Whether the device supports `capability`: discovered with a non-zero
    /// dynamic id.
    pub fn has_capability(&self, capability: Capability) -> (supported: bool)
        ensures
            supported == match self.spec_caps().spec_data(capability) {
                Some(data) => data.id > 0,
                None => false,
            },
    {
        match self.capabilities.data(capability) {
            Some(data) => data.id > 0,
            None => false,
        }
    }

    /// How many hardware modes the device has: the mode-switch capability's
    /// key count.
    pub fn mode_count(&self) -> (r: CommandResult<u8>)
        ensures
            r matches Ok(count) ==> match self.spec_caps().spec_data(Capability::ModeSwitching) {
                Some(data) => count == match data.key_count {
                    Some(found) => found,
                    None => 0u8,
                },
                None => false,
            },
            r is Err ==> self.spec_caps().spec_data(Capability::ModeSwitching) is None,
    {
        match self.capability_data(Capability::ModeSwitching) {
            Ok(data) => match data.key_count {
                Some(count) => Ok(count),
                None => Ok(0),
            },
            Err(e) => Err(e),
        }
    }
}

/// Firmware identity parsed from a version response: a three-byte name and
/// the binary-coded-decimal version fields.
pub struct VersionInfo {
    pub name: Vec<u8>,
    pub major: u16,
    pub minor: u16,
    pub build: u16,
}

/// Decodes a version response: three name bytes, then major, minor and
/// build, each two binary-coded-decimal digits (major offset by 100).
/// A response shorter than the format is malformed.
pub fn parse_version(data: &Vec<u8>) -> (r: Option<VersionInfo>)
    ensures
        data@.len() >= 8 ==> (r matches Some(v) && v.name@ == data@.subrange(1, 4) && v.major == 100
            + 10 * (data@[4] as u16 / 16) + (data@[4] as u16 % 16) && v.minor == 10 * (
        data@[5] as u16 / 16) + (data@[5] as u16 % 16) && v.build == 10 * (data@[7] as u16 / 16) + (
        data@[7] as u16 % 16)),
        data@.len() < 8 ==> r is None,
{
    if data.len() < 8 {
        return None;
    }
    let mut name: Vec<u8> = Vec::new();
    name.push(data[1]);
    name.push(data[2]);
    name.push(data[3]);
    assert(name@ =~= data@.subrange(1, 4));
    let major: u16 = 100 + 10 * (data[4] as u16 / 16) + (data[4] as u16 % 16);
    let minor: u16 = 10 * (data[5] as u16 / 16) + (data[5] as u16 % 16);
    let build: u16 = 10 * (data[7] as u16 / 16) + (data[7] as u16 % 16);
    Some(VersionInfo { name, major, minor, build })
}

/// The 16-byte payload of one "set up to 13 keys to one color" command:
/// the color, then the keys' RGB ids, zero padded.
pub open spec fn spec_set13_payload(color: Color, keys: Seq<Scancode>) -> Seq<u8>
    recommends
        keys.len() <= 13,
{
    seq![color.r, color.g, color.b] + Seq::new(
        13,
        |i: int|
            if i < keys.len() {
                keys[i].spec_rgb_id()
            } else {
                0u8
            },
    )
}

/// Builds the payload for the keys `start .. end` of `keys`.
fn build_set13_payload(color: Color, keys: &Vec<Scancode>, start: usize, end: usize) -> (data: Vec<
    u8,
>)
    requires
        start <= end <= keys@.len(),
        end - start <= 13,
    ensures
        data@ == spec_set13_payload(color, keys@.subrange(start as int, end as int)),
        data@.len() == 16,
{
    let ghost chunk = keys@.subrange(start as int, end as int);
    let mut data: Vec<u8> = Vec::new();
    data.push(color.r);
    data.push(color.g);
    data.push(color.b);
    let mut i: usize = 0;
    while i < 13
        invariant
            i <= 13,
            start <= end <= keys@.len(),
            end - start <= 13,
            chunk == keys@.subrange(start as int, end as int),
            data@.len() == 3 + i,
            data@[0] == color.r,
            data@[1] == color.g,
            data@[2] == color.b,
            forall|j: int|
                3 <= j < data@.len() ==> data@[j] == (if j - 3 < chunk.len() {
                    chunk[j - 3].spec_rgb_id()
                } else {
                    0u8
                }),
        decreases 13 - i,
    {
        if i < end - start {
            data.push(keys[start + i].rgb_id());
        } else {
            data.push(0);
        }
        i = i + 1;
    }
    assert(data@ =~= spec_set13_payload(color, chunk));
    data
}

/// The flat key-and-color bytes of one "set up to 4 keys, one color each"
/// command: each key's RGB id followed by its color.
pub open spec fn spec_set4_entries(keys: Seq<(Scancode, Color)>) -> Seq<u8>
    decreases keys.len(),
{
    if keys.len() == 0 {
        Seq::empty()
    } else {
        spec_set4_entries(keys.drop_last()) + seq![
            keys.last().0.spec_rgb_id(),
            keys.last().1.r,
            keys.last().1.g,
            keys.last().1.b,
        ]
    }
}

/// The whole payload of one such command: the entries, closed by a `0xff`
/// terminator when fewer than 4 keys are set.
pub open spec fn spec_set4_payload(keys: Seq<(Scancode, Color)>) -> Seq<u8>
    recommends
        keys.len() <= 4,
{
    spec_set4_entries(keys) + if keys.len() < 4 {
        seq![0xffu8]
    } else {
        Seq::empty()
    }
}

/// Builds the payload for the key-color pairs `start .. end` of `keys`.
fn build_set4_payload(keys: &Vec<(Scancode, Color)>, start: usize, end: usize) -> (data: Vec<u8>)
    requires
        start <= end <= keys@.len(),
        end - start <= 4,
    ensures
        data@ == spec_set4_payload(keys@.subrange(start as int, end as int)),
        data@.len() <= 16,
{
    let ghost chunk = keys@.subrange(start as int, end as int);
    let mut data: Vec<u8> = Vec::new();
    let mut i: usize = start;
    while i < end
        invariant
            start <= i <= end <= keys@.len(),
            end - start <= 4,
            chunk == keys@.subrange(start as int, end as int),
            data@ == spec_set4_entries(chunk.take(i - start)),
            data@.len() == 4 * (i - start),
        decreases end - i,
    {
        let (scancode, color) = keys[i];
        data.push(scancode.rgb_id());
        data.push(color.r);
        data.push(color.g);
        data.push(color.b);
        proof {
            assert(chunk.take(i + 1 - start).drop_last() =~= chunk.take(i - start));
            assert(chunk.take(i + 1 - start).last() == keys@[i as int]);
            assert(data@ =~= spec_set4_entries(chunk.take(i + 1 - start)));
        }
        i = i + 1;
    }
    assert(chunk.take(end - start) =~= chunk);
    if end - start < 4 {
        data.push(0xff);
    }
    assert(data@ =~= spec_set4_payload(chunk));
    data
}

/// The 16-byte payload of a "set effect" command for `group`: the effect's
/// wire id and its color, duration, brightness and direction parameters in
/// the slots this effect uses, closed by the constant trailer.
pub open spec fn spec_effect_payload(group: EffectGroup, effect: EffectConfiguration) -> Seq<u8> {
    let g = group.spec_code();
    match effect {
        EffectConfiguration::Off => seq![g, 0u8, 0u8, 0u8, 0u8, 0u8, 0u8, 0u8, 0u8, 0u8, 0u8, 0u8, 1u8, 0u8, 0u8, 0u8],
        EffectConfiguration::Static { color } => seq![
            g,
            1u8,
            color.r,
            color.g,
            color.b,
            2u8,
            0u8,
            0u8,
            0u8,
            0u8,
            0u8,
            0u8,
            1u8,
            0u8,
            0u8,
            0u8,
        ],
        EffectConfiguration::Breathing { color, duration, brightness } => seq![
            g,
            2u8,
            color.r,
            color.g,
            color.b,
            (duration / 256) as u8,
            (duration % 256) as u8,
            brightness,
            0u8,
            0u8,
            0u8,
            0u8,
            1u8,
            0u8,
            0u8,
            0u8,
        ],
        EffectConfiguration::Cycle { duration, brightness } => seq![
            g,
            3u8,
            0u8,
            0u8,
            0u8,
            0u8,
            0u8,
            (duration / 256) as u8,
            (duration % 256) as u8,
            brightness,
            0u8,
            0u8,
            1u8,
            0u8,
            0u8,
            0u8,
        ],
        EffectConfiguration::ColorWave { direction, duration, brightness } => seq![
            g,
            4u8,
            0u8,
            0u8,
            0u8,
            0u8,
            0u8,
            0u8,
            (duration % 256) as u8,
            direction.spec_code(),
            brightness,
            (duration / 256) as u8,
            1u8,
            0u8,
            0u8,
            0u8,
        ],
        EffectConfiguration::Ripple { color, duration } => seq![
            g,
            5u8,
            color.r,
            color.g,
            color.b,
            0u8,
            0u8,
            (duration % 256) as u8,
            0u8,
            0u8,
            0u8,
            0u8,
            1u8,
            0u8,
            0u8,
            0u8,
        ],
    }
}

/// Builds the "set effect" payload for `group` and `effect`.
pub fn build_effect_payload(group: EffectGroup, effect: &EffectConfiguration) -> (data: Vec<u8>)
    ensures
        data@ == spec_effect_payload(group, *effect),
        data@.len() == 16,
{
    let g = group.code();
    let mut data: Vec<u8> = Vec::new();
    data.push(g);
    match effect {
        EffectConfiguration::Off => {
            data.push(0);
            let mut i: usize = 0;
            while i < 10
                invariant
                    i <= 10,
                    data@.len() == 2 + i,
                    data@[0] == g && data@[1] == 0u8,
                    forall|j: int| 2 <= j < data@.len() ==> data@[j] == 0u8,
                decreases 10 - i,
            {
                data.push(0);
                i = i + 1;
            }
        },
        EffectConfiguration::Static { color } => {
            data.push(1);
            data.push(color.r);
            data.push(color.g);
            data.push(color.b);
            data.push(2);
            let mut i: usize = 0;
            while i < 6
                invariant
                    i <= 6,
                    data@.len() == 6 + i,
                    data@.subrange(0, 6) == seq![g, 1u8, color.r, color.g, color.b, 2u8],
                    forall|j: int| 6 <= j < data@.len() ==> data@[j] == 0u8,
                decreases 6 - i,
            {
                data.push(0);
                i = i + 1;
            }
        },
        EffectConfiguration::Breathing { color, duration, brightness } => {
            data.push(2);
            data.push(color.r);
            data.push(color.g);
            data.push(color.b);
            data.push((duration / 256) as u8);
            data.push((duration % 256) as u8);
            data.push(*brightness);
            data.push(0);
            data.push(0);
            data.push(0);
            data.push(0);
        },
        EffectConfiguration::Cycle { duration, brightness } => {
            data.push(3);
            data.push(0);
            data.push(0);
            data.push(0);
            data.push(0);
            data.push(0);
            data.push((duration / 256) as u8);
            data.push((duration % 256) as u8);
            data.push(*brightness);
            data.push(0);
            data.push(0);
        },
        EffectConfiguration::ColorWave { direction, duration, brightness } => {
            data.push(4);
            data.push(0);
            data.push(0);
            data.push(0);
            data.push(0);
            data.push(0);
            data.push(0);
            data.push((duration % 256) as u8);
            data.push(direction.code());
            data.push(*brightness);
            data.push((duration / 256) as u8);
        },
        EffectConfiguration::Ripple { color, duration } => {
            data.push(5);
            data.push(color.r);
            data.push(color.g);
            data.push(color.b);
            data.push(0);
            data.push(0);
            data.push((duration % 256) as u8);
            data.push(0);
            data.push(0);
            data.push(0);
            data.push(0);
        },
    }
    data.push(1);
    data.push(0);
    data.push(0);
    data.push(0);
    proof {
        match *effect {
            EffectConfiguration::Off => {
                assert(data@ =~= spec_effect_payload(group, *effect));
            },
            EffectConfiguration::Static { .. } => {
                assert(data@ =~= spec_effect_payload(group, *effect));
            },
            EffectConfiguration::Breathing { .. } => {
                assert(data@ =~= spec_effect_payload(group, *effect));
            },
            EffectConfiguration::Cycle { .. } => {
                assert(data@ =~= spec_effect_payload(group, *effect));
            },
            EffectConfiguration::ColorWave { .. } => {
                assert(data@ =~= spec_effect_payload(group, *effect));
            },
            EffectConfiguration::Ripple { .. } => {
                assert(data@ =~= spec_effect_payload(group, *effect));
            },
        }
    }
    data
}

/// Keys the device refuses to disable in game mode: keys with no real
/// scancode (the G-keys, media keys, logo and light key) and the few
/// modifiers the vendor software also keeps enabled.
pub open spec fn game_mode_excluded(s: Scancode) -> bool {
    ||| s == Scancode::LeftMeta
    ||| s == Scancode::RightMeta
    ||| s == Scancode::ContextMenu
    ||| s == Scancode::Mute
    ||| s == Scancode::Light
    ||| s == Scancode::G1
    ||| s == Scancode::G2
    ||| s == Scancode::G3
    ||| s == Scancode::G4
    ||| s == Scancode::G5
    ||| s == Scancode::G6
    ||| s == Scancode::G7
    ||| s == Scancode::G8
    ||| s == Scancode::Logo
    ||| s == Scancode::MediaPrevious
    ||| s == Scancode::MediaNext
    ||| s == Scancode::MediaPlayPause
}

/// The HID codes of the keys in `keys` that game mode may disable, in
/// order, excluded keys dropped.
pub open spec fn spec_game_mode_key_codes(keys: Seq<Scancode>) -> Seq<u8>
    decreases keys.len(),
{
    if keys.len() == 0 {
        Seq::empty()
    } else {
        spec_game_mode_key_codes(keys.drop_last()) + if game_mode_excluded(keys.last()) {
            Seq::empty()
        } else {
            seq![keys.last().spec_hid_code()]
        }
    }
}

/// Filters and converts a key list for the game-mode key-disable command.
pub fn game_mode_key_codes(keys: &Vec<Scancode>) -> (codes: Vec<u8>)
    ensures
        codes@ == spec_game_mode_key_codes(keys@),
{
    let mut codes: Vec<u8> = Vec::new();
    let mut i: usize = 0;
    while i < keys.len()
        invariant
            i <= keys@.len(),
            codes@ == spec_game_mode_key_codes(keys@.take(i as int)),
        decreases keys@.len() - i,
    {
        let key = keys[i];
        let excluded = match key {
            Scancode::LeftMeta | Scancode::RightMeta | Scancode::ContextMenu | Scancode::Mute
                | Scancode::Light | Scancode::G1 | Scancode::G2 | Scancode::G3 | Scancode::G4
                | Scancode::G5 | Scancode::G6 | Scancode::G7 | Scancode::G8 | Scancode::Logo
                | Scancode::MediaPrevious | Scancode::MediaNext | Scancode::MediaPlayPause => true,
            _ => false,
        };
        if !excluded {
            codes.push(key.hid_code());
        }
        proof {
            assert(keys@.take(i as int + 1).drop_last() =~= keys@.take(i as int));
            assert(keys@.take(i as int + 1).last() == keys@[i as int]);
            assert(codes@ =~= spec_game_mode_key_codes(keys@.take(i as int + 1)));
        }
        i = i + 1;
    }
    assert(keys@.take(keys@.len() as int) =~= keys@);
    codes
}

impl G815Keyboard {
    /// Both session state invariants that every command sequence preserves:
    /// the queue only grows and discovery state and bitmasks are untouched.
    pub open spec fn session_step(old_kb: G815Keyboard, new_kb: G815Keyboard) -> bool {
        &&& Self::queue_extended(old_kb, new_kb)
        &&& new_kb.spec_caps() == old_kb.spec_caps()
        &&& new_kb.spec_masks() == old_kb.spec_masks()
    }

    /// Reads the firmware identity of one firmware bank.
    pub fn version_info(&mut self, firmware_bank: u8) -> (r: CommandResult<VersionInfo>)
        ensures
            Self::exchange_step(*old(self), *final(self), Command::GetVersion.spec_code()),
            r matches Err(e) ==> spec_command_error(e, Command::GetVersion.spec_code()) || e
                is Failure,
    {
        let mut payload: Vec<u8> = Vec::new();
        payload.push(firmware_bank);
        let response = match self.execute(Command::GetVersion, &payload) {
            Ok(response) => response,
            Err(e) => {
                return Err(e);
            },
        };
        match parse_version(&response) {
            Some(version) => Ok(version),
            None => Err(CommandError::Failure("short version response".to_owned())),
        }
    }

    /// The firmware identity of the bootloader bank.
    pub fn bootloader_version(&mut self) -> (r: CommandResult<VersionInfo>)
        ensures
            Self::exchange_step(*old(self), *final(self), Command::GetVersion.spec_code()),
    {
        self.version_info(0x00)
    }

    /// The firmware identity of the main firmware bank.
    pub fn firmware_version(&mut self) -> (r: CommandResult<VersionInfo>)
        ensures
            Self::exchange_step(*old(self), *final(self), Command::GetVersion.spec_code()),
    {
        self.version_info(0x01)
    }

    /// Hands device control to the host or back to the hardware.
    pub fn set_control_mode(&mut self, mode: ControlMode) -> (r: CommandResult<()>)
        ensures
            Self::exchange_step(*old(self), *final(self), Command::SetControlMode.spec_code()),
            r matches Err(e) ==> spec_command_error(e, Command::SetControlMode.spec_code()),
    {
        let mut payload: Vec<u8> = Vec::new();
        payload.push(mode.code());
        match self.execute(Command::SetControlMode, &payload) {
            Ok(_) => Ok(()),
            Err(e) => Err(e),
        }
    }

    /// Switches the G-keys between F-key behavior and host reporting.
    pub fn set_gkeys_mode(&mut self, mode: GKeysMode) -> (r: CommandResult<()>)
        ensures
            Self::exchange_step(*old(self), *final(self), Command::SetGKeysMode.spec_code()),
            r matches Err(e) ==> spec_command_error(e, Command::SetGKeysMode.spec_code()),
    {
        let mut payload: Vec<u8> = Vec::new();
        payload.push(mode.code());
        match self.execute(Command::SetGKeysMode, &payload) {
            Ok(_) => Ok(()),
            Err(e) => Err(e),
        }
    }

    /// Makes the lighting changes staged by the set-key commands visible.
    pub fn commit(&mut self) -> (r: CommandResult<()>)
        ensures
            Self::exchange_step(*old(self), *final(self), Command::Commit.spec_code()),
            r matches Err(e) ==> spec_command_error(e, Command::Commit.spec_code()),
    {
        let empty: Vec<u8> = Vec::new();
        match self.execute(Command::Commit, &empty) {
            Ok(_) => Ok(()),
            Err(e) => Err(e),
        }
    }

    /// Lights the mode LEDs given by `mask`, one bit per mode; a repeated
    /// mask is not re-sent.
    pub fn set_mode_leds(&mut self, mask: u8) -> (r: CommandResult<()>)
        ensures
            Self::queue_extended(*old(self), *final(self)),
            forall|j: int|
                old(self).spec_queue().len() <= j < final(self).spec_queue().len()
                    ==> !is_response(
                    spec_header(Command::SetModeLeds.spec_code()),
                    final(self).spec_queue()[j]@,
                ),
            final(self).spec_caps() == old(self).spec_caps(),
            final(self).spec_masks() == old(self).spec_masks(),
            final(self).spec_mode_leds() == mask,
            r matches Err(e) ==> spec_command_error(e, Command::SetModeLeds.spec_code()),
    {
        if self.mode_leds == mask {
            return Ok(());
        }
        self.mode_leds = mask;
        let mut payload: Vec<u8> = Vec::new();
        payload.push(mask);
        match self.execute(Command::SetModeLeds, &payload) {
            Ok(_) => Ok(()),
            Err(e) => Err(e),
        }
    }

    /// Lights the LED of hardware mode `mode` alone.
    pub fn set_mode(&mut self, mode: u8) -> (r: CommandResult<()>)
        requires
            1 <= mode <= 8,
        ensures
            Self::session_step(*old(self), *final(self)),
            final(self).spec_mode_leds() == 1u8 << ((mode - 1) as u8),
            r matches Err(e) ==> spec_command_error(e, Command::SetModeLeds.spec_code()),
    {
        self.set_mode_leds(1u8 << (mode - 1))
    }

    /// Turns the macro-record indicator on or off.
    pub fn set_macro_recording(&mut self, recording: bool) -> (r: CommandResult<()>)
        ensures
            Self::exchange_step(*old(self), *final(self), Command::SetMacroRecordMode.spec_code()),
            r matches Err(e) ==> spec_command_error(e, Command::SetMacroRecordMode.spec_code()),
    {
        let mut payload: Vec<u8> = Vec::new();
        payload.push(if recording { 1 } else { 0 });
        match self.execute(Command::SetMacroRecordMode, &payload) {
            Ok(_) => Ok(()),
            Err(e) => Err(e),
        }
    }

    /// Sets every key in `keys` to `color`, batching at most 13 keys per
    /// command.
    pub fn set_13(&mut self, color: Color, keys: &Vec<Scancode>) -> (r: CommandResult<()>)
        ensures
            Self::exchange_step(*old(self), *final(self), Command::Set13.spec_code()),
            r matches Err(e) ==> spec_command_error(e, Command::Set13.spec_code()),
    {
        let ghost orig = *self;
        let mut start: usize = 0;
        while start < keys.len()
            invariant
                orig == *old(self),
                start <= keys@.len(),
                Self::exchange_step(orig, *self, Command::Set13.spec_code()),
            decreases keys@.len() - start,
        {
            let end = if keys.len() - start < 13 {
                keys.len()
            } else {
                start + 13
            };
            let payload = build_set13_payload(color, keys, start, end);
            match self.execute(Command::Set13, &payload) {
                Ok(_) => {},
                Err(e) => {
                    return Err(e);
                },
            }
            start = end;
        }
        Ok(())
    }

    /// Sets up to 4 individual keys to individual colors per command.
    pub fn set_4(&mut self, keys: &Vec<(Scancode, Color)>) -> (r: CommandResult<()>)
        ensures
            Self::exchange_step(*old(self), *final(self), Command::Set4.spec_code()),
            r matches Err(e) ==> spec_command_error(e, Command::Set4.spec_code()),
    {
        let ghost orig = *self;
        let mut start: usize = 0;
        while start < keys.len()
            invariant
                orig == *old(self),
                start <= keys@.len(),
                Self::exchange_step(orig, *self, Command::Set4.spec_code()),
            decreases keys@.len() - start,
        {
            let end = if keys.len() - start < 4 {
                keys.len()
            } else {
                start + 4
            };
            let payload = build_set4_payload(keys, start, end);
            match self.execute(Command::Set4, &payload) {
                Ok(_) => {},
                Err(e) => {
                    return Err(e);
                },
            }
            start = end;
        }
        Ok(())
    }

    /// Sets the whole key matrix to one color.
    pub fn set_all(&mut self, color: Color) -> (r: CommandResult<()>)
        ensures
            Self::exchange_step(*old(self), *final(self), Command::Set13.spec_code()),
            r matches Err(e) ==> spec_command_error(e, Command::Set13.spec_code()),
    {
        let all = crate::scancode::all_scancodes();
        self.set_13(color, &all)
    }

    /// Applies a device-ready color table, one set-keys command batch per
    /// color.
    pub fn apply_scancode_assignments(&mut self, color_map: &ScancodeAssignments) -> (r:
        CommandResult<()>)
        ensures
            Self::exchange_step(*old(self), *final(self), Command::Set13.spec_code()),
            r matches Err(e) ==> spec_command_error(e, Command::Set13.spec_code()),
    {
        let ghost orig = *self;
        let mut i: usize = 0;
        while i < color_map.len()
            invariant
                orig == *old(self),
                i <= color_map@.len(),
                Self::exchange_step(orig, *self, Command::Set13.spec_code()),
            decreases color_map@.len() - i,
        {
            let (color, keys) = &color_map[i];
            match self.set_13(*color, keys) {
                Ok(_) => {},
                Err(e) => {
                    return Err(e);
                },
            }
            i = i + 1;
        }
        Ok(())
    }

    /// Configures one lighting group's animated effect. The ripple effect
    /// only accepts durations up to 200; longer ones are rejected without
    /// touching the device.
    pub fn set_effect(&mut self, group: EffectGroup, effect: &EffectConfiguration) -> (r:
        CommandResult<()>)
        ensures
            Self::exchange_step(*old(self), *final(self), Command::SetEffect.spec_code()),
            (effect matches EffectConfiguration::Ripple { duration, .. } && duration > 200) ==> (
            r matches Err(e) && e is Failure && *final(self) == *old(self)),
            r matches Err(e) ==> spec_command_error(e, Command::SetEffect.spec_code()) || (e
                is Failure && (effect matches EffectConfiguration::Ripple { duration, .. }
                && duration > 200)),
    {
        if let EffectConfiguration::Ripple { duration, .. } = effect {
            if *duration > 200 {
                return Err(
                    CommandError::Failure("duration for ripple must be at most 200".to_owned()),
                );
            }
        }
        let payload = build_effect_payload(group, effect);
        match self.execute(Command::SetEffect, &payload) {
            Ok(_) => Ok(()),
            Err(e) => Err(e),
        }
    }

    /// Switches both lighting groups' effects off.
    pub fn stop_effects(&mut self) -> (r: CommandResult<()>)
        ensures
            Self::exchange_step(*old(self), *final(self), Command::SetEffect.spec_code()),
            r matches Err(e) ==> spec_command_error(e, Command::SetEffect.spec_code()),
    {
        match self.set_effect(EffectGroup::Keys, &EffectConfiguration::Off) {
            Ok(_) => {},
            Err(e) => {
                return Err(e);
            },
        }
        match self.set_effect(EffectGroup::Logo, &EffectConfiguration::Off) {
            Ok(_) => {},
            Err(e) => {
                return Err(e);
            },
        }
        Ok(())
    }

    /// Stops all effects and blanks the whole keyboard.
    pub fn clear(&mut self) -> (r: CommandResult<()>)
        ensures
            Self::session_step(*old(self), *final(self)),
            final(self).spec_mode_leds() == old(self).spec_mode_leds(),
    {
        match self.stop_effects() {
            Ok(_) => {},
            Err(e) => {
                return Err(e);
            },
        }
        self.set_all(Color::black())
    }

    /// Adds `keys` to the set game mode disables, at most 15 per command;
    /// keys the device refuses to disable are dropped.
    pub fn add_game_mode_keys(&mut self, keys: &Vec<Scancode>) -> (r: CommandResult<()>)
        ensures
            Self::exchange_step(*old(self), *final(self), Command::GameModeAddKeys.spec_code()),
            r matches Err(e) ==> spec_command_error(e, Command::GameModeAddKeys.spec_code()),
    {
        let codes = game_mode_key_codes(keys);
        let ghost orig = *self;
        let mut start: usize = 0;
        while start < codes.len()
            invariant
                orig == *old(self),
                start <= codes@.len(),
                Self::exchange_step(orig, *self, Command::GameModeAddKeys.spec_code()),
            decreases codes@.len() - start,
        {
            let end = if codes.len() - start < 15 {
                codes.len()
            } else {
                start + 15
            };
            let mut payload: Vec<u8> = Vec::new();
            let mut i: usize = start;
            while i < end
                invariant
                    start <= i <= end <= codes@.len(),
                    end - start <= 15,
                    payload@ == codes@.subrange(start as int, i as int),
                decreases end - i,
            {
                payload.push(codes[i]);
                assert(payload@ =~= codes@.subrange(start as int, i as int + 1));
                i = i + 1;
            }
            match self.execute(Command::GameModeAddKeys, &payload) {
                Ok(_) => {},
                Err(e) => {
                    return Err(e);
                },
            }
            start = end;
        }
        Ok(())
    }

    /// Removes every key game mode was told to disable beyond the default.
    pub fn reset_game_mode_keys(&mut self) -> (r: CommandResult<()>)
        ensures
            Self::exchange_step(*old(self), *final(self), Command::ResetGameMode.spec_code()),
            r matches Err(e) ==> spec_command_error(e, Command::ResetGameMode.spec_code()),
    {
        let empty: Vec<u8> = Vec::new();
        match self.execute(Command::ResetGameMode, &empty) {
            Ok(_) => Ok(()),
            Err(e) => Err(e),
        }
    }

    /// Takes exclusive control of the device: initializes the session, puts
    /// control and the G-keys into software mode, clears the macro-record
    /// indicator, selects the first mode, resets game mode, enables lighting
    /// and effects, stops all effects and blanks the keyboard.
    pub fn take_control(&mut self) -> (r: CommandResult<()>)
        ensures
            Self::session_step(*old(self), *final(self)),
            r is Ok ==> final(self).spec_mode_leds() == 0x01u8,
    {
        let empty: Vec<u8> = Vec::new();
        match self.execute(Command::InitializeSession, &empty) {
            Ok(_) => {},
            Err(e) => {
                return Err(e);
            },
        }
        match self.set_control_mode(ControlMode::Software) {
            Ok(_) => {},
            Err(e) => {
                return Err(e);
            },
        }
        match self.set_gkeys_mode(GKeysMode::Software) {
            Ok(_) => {},
            Err(e) => {
                return Err(e);
            },
        }
        match self.set_macro_recording(false) {
            Ok(_) => {},
            Err(e) => {
                return Err(e);
            },
        }
        match self.set_mode(1) {
            Ok(_) => {},
            Err(e) => {
                return Err(e);
            },
        }
        proof {
            assert(1u8 << 0u8 == 1u8) by (bit_vector);
        }
        match self.reset_game_mode_keys() {
            Ok(_) => {},
            Err(e) => {
                return Err(e);
            },
        }
        let mut lighting_payload: Vec<u8> = Vec::new();
        lighting_payload.push(1);
        match self.execute(Command::LightingEnabled, &lighting_payload) {
            Ok(_) => {},
            Err(e) => {
                return Err(e);
            },
        }
        let mut effects_payload: Vec<u8> = Vec::new();
        effects_payload.push(0x01);
        effects_payload.push(0x03);
        effects_payload.push(0x03);
        match self.execute(Command::EffectsEnabled, &effects_payload) {
            Ok(_) => {},
            Err(e) => {
                return Err(e);
            },
        }
        match self.stop_effects() {
            Ok(_) => {},
            Err(e) => {
                return Err(e);
            },
        }
        self.clear()
    }

    /// Returns the device to hardware control: recording indicator off,
    /// G-keys back to their default behavior, hardware mode restored.
    pub fn release_control(&mut self) -> (r: CommandResult<()>)
        ensures
            Self::session_step(*old(self), *final(self)),
    {
        match self.set_macro_recording(false) {
            Ok(_) => {},
            Err(e) => {
                return Err(e);
            },
        }
        match self.set_gkeys_mode(GKeysMode::Default) {
            Ok(_) => {},
            Err(e) => {
                return Err(e);
            },
        }
        self.set_control_mode(ControlMode::Hardware)
    }
}

/// An error a command exchange may report for `command`.
pub open spec fn spec_command_error(e: CommandError, command: u16) -> bool {
    match e {
        CommandError::HidError(_) => true,
        CommandError::ProtocolFailure(c) => c == command,
        CommandError::AckTimeout(c) => c == command,
        _ => false,
    }
}

} // verus!
