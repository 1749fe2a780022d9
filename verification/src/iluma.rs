//! Capability dispatcher for the ILUMA sub-family: one operation per
//! controllable feature, each gated by the device's model and readiness.
//!
//! Every operation checks the model family first and fails fast, before any
//! transport work, on a non-ILUMA device; then it demands a resolved control
//! characteristic; only then does it produce the frames to write. The frames
//! come out as a [`CommandPlan`], which the transport-facing caller performs
//! with acknowledged writes, strictly in order, stopping at the first
//! failure.

use crate::device::is_iluma_model;
use crate::device::ready_for_commands;
use crate::device::IQOS;
use crate::error::IqosError;
use crate::signal::brightness_frames_spec;
use crate::signal::autostart_signal;
use crate::signal::encode_autostart;
use crate::signal::encode_brightness;
use crate::signal::encode_flexpuff;
use crate::signal::encode_smartgesture;
use crate::signal::flexpuff_signal;
use crate::signal::smartgesture_signal;
use crate::signal::vibration_frame;
use crate::signal::BrightnessLevel;
use crate::signal::VibrationSettings;
use vstd::prelude::*;

verus! {

/// Error of an ILUMA-only operation attempted on a device outside the
/// sub-family.
#[derive(Debug)]
pub struct NotIlumaError;

impl NotIlumaError {
    /// The error's one-line description.
    pub fn message(&self) -> (r: String)
        ensures
            r@ == "This device is not an IQOS ILUMA model"@,
    {
        String::from_str("This device is not an IQOS ILUMA model")
    }
}

/// The writes one command dispatch asks of the transport: the target
/// characteristic, the frames in the exact order they must be sent, and
/// whether each write needs acknowledgement (write-with-response).
///
/// Frames must not be reordered or interleaved with another command's
/// frames; a caller that dispatches concurrently on one device must
/// serialize the plans itself.
pub struct CommandPlan {
    pub characteristic_id: String,
    pub frames: Vec<Vec<u8>>,
    pub acknowledged: bool,
}

impl IQOS {
    /// Gate shared by every ILUMA operation: a non-ILUMA model fails with
    /// an incompatible-model error before anything else; a device whose
    /// control characteristic is not resolved fails as not ready; otherwise
    /// the target characteristic identifier comes back.
    fn command_target(&self) -> (r: Result<String, IqosError>)
        ensures
            !is_iluma_model(self@.model) ==> (r matches Err(e) && e is IncompatibleModelError),
            is_iluma_model(self@.model) && !ready_for_commands(self@) ==> (r matches Err(e)
                && e is NotReady),
            is_iluma_model(self@.model) && ready_for_commands(self@) ==> (r matches Ok(id)
                && id@ == self@.control_id),
    {
        if !self.is_iluma() {
            return Err(IqosError::IncompatibleModelError);
        }
        let id = self.control_characteristic_id();
        if !(matches!(self.connection_state(), crate::device::ConnectionState::Ready))
            || id.unicode_len() == 0 {
            return Err(IqosError::NotReady);
        }
        Ok(id.to_owned())
    }

    /// Plans the brightness command: on an ILUMA device that is ready, the
    /// three frames of the level, first to third, each written with
    /// acknowledgement to the control characteristic.
    pub fn update_brightness(&self, level: BrightnessLevel) -> (r: Result<CommandPlan, IqosError>)
        ensures
            !is_iluma_model(self@.model) ==> (r matches Err(e) && e is IncompatibleModelError),
            is_iluma_model(self@.model) && !ready_for_commands(self@) ==> (r matches Err(e)
                && e is NotReady),
            is_iluma_model(self@.model) && ready_for_commands(self@) ==> (r matches Ok(p)
                && p.frames.deep_view() == brightness_frames_spec(level)
                && p.characteristic_id@ == self@.control_id && p.acknowledged),
    {
        let characteristic_id = match self.command_target() {
            Ok(id) => id,
            Err(e) => {
                return Err(e);
            },
        };
        Ok(CommandPlan { characteristic_id, frames: encode_brightness(level), acknowledged: true })
    }

    /// Plans the vibration-settings command: one constructed frame, written
    /// with acknowledgement.
    pub fn update_vibration_settings(&self, settings: VibrationSettings) -> (r: Result<
        CommandPlan,
        IqosError,
    >)
        ensures
            !is_iluma_model(self@.model) ==> (r matches Err(e) && e is IncompatibleModelError),
            is_iluma_model(self@.model) && !ready_for_commands(self@) ==> (r matches Err(e)
                && e is NotReady),
            is_iluma_model(self@.model) && ready_for_commands(self@) ==> (r matches Ok(p)
                && p.frames.deep_view() == seq![vibration_frame(settings)]
                && p.characteristic_id@ == self@.control_id && p.acknowledged),
    {
        let characteristic_id = match self.command_target() {
            Ok(id) => id,
            Err(e) => {
                return Err(e);
            },
        };
        let mut frames: Vec<Vec<u8>> = Vec::new();
        frames.push(settings.build());
        proof {
            assert(frames.deep_view() =~~= seq![vibration_frame(settings)]);
        }
        Ok(CommandPlan { characteristic_id, frames, acknowledged: true })
    }

    /// Plans the smart-gesture on/off command: one literal frame, written
    /// with acknowledgement.
    pub fn update_smartgesture(&self, enable: bool) -> (r: Result<CommandPlan, IqosError>)
        ensures
            !is_iluma_model(self@.model) ==> (r matches Err(e) && e is IncompatibleModelError),
            is_iluma_model(self@.model) && !ready_for_commands(self@) ==> (r matches Err(e)
                && e is NotReady),
            is_iluma_model(self@.model) && ready_for_commands(self@) ==> (r matches Ok(p)
                && p.frames.deep_view() == seq![smartgesture_signal(enable)]
                && p.characteristic_id@ == self@.control_id && p.acknowledged),
    {
        let characteristic_id = match self.command_target() {
            Ok(id) => id,
            Err(e) => {
                return Err(e);
            },
        };
        let mut frames: Vec<Vec<u8>> = Vec::new();
        frames.push(encode_smartgesture(enable));
        proof {
            assert(frames.deep_view() =~~= seq![smartgesture_signal(enable)]);
        }
        Ok(CommandPlan { characteristic_id, frames, acknowledged: true })
    }

    /// Plans the auto-start on/off command: one literal frame, written with
    /// acknowledgement.
    pub fn update_autostart(&self, enable: bool) -> (r: Result<CommandPlan, IqosError>)
        ensures
            !is_iluma_model(self@.model) ==> (r matches Err(e) && e is IncompatibleModelError),
            is_iluma_model(self@.model) && !ready_for_commands(self@) ==> (r matches Err(e)
                && e is NotReady),
            is_iluma_model(self@.model) && ready_for_commands(self@) ==> (r matches Ok(p)
                && p.frames.deep_view() == seq![autostart_signal(enable)]
                && p.characteristic_id@ == self@.control_id && p.acknowledged),
    {
        let characteristic_id = match self.command_target() {
            Ok(id) => id,
            Err(e) => {
                return Err(e);
            },
        };
        let mut frames: Vec<Vec<u8>> = Vec::new();
        frames.push(encode_autostart(enable));
        proof {
            assert(frames.deep_view() =~~= seq![autostart_signal(enable)]);
        }
        Ok(CommandPlan { characteristic_id, frames, acknowledged: true })
    }

    /// Plans the flexpuff on/off command: one literal frame, written with
    /// acknowledgement.
    pub fn update_flexpuff(&self, enable: bool) -> (r: Result<CommandPlan, IqosError>)
        ensures
            !is_iluma_model(self@.model) ==> (r matches Err(e) && e is IncompatibleModelError),
            is_iluma_model(self@.model) && !ready_for_commands(self@) ==> (r matches Err(e)
                && e is NotReady),
            is_iluma_model(self@.model) && ready_for_commands(self@) ==> (r matches Ok(p)
                && p.frames.deep_view() == seq![flexpuff_signal(enable)]
                && p.characteristic_id@ == self@.control_id && p.acknowledged),
    {
        let characteristic_id = match self.command_target() {
            Ok(id) => id,
            Err(e) => {
                return Err(e);
            },
        };
        let mut frames: Vec<Vec<u8>> = Vec::new();
        frames.push(encode_flexpuff(enable));
        proof {
            assert(frames.deep_view() =~~= seq![flexpuff_signal(enable)]);
        }
        Ok(CommandPlan { characteristic_id, frames, acknowledged: true })
    }
}

} // verus!
