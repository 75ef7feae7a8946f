//! Command validator: decodes and validates an inbound relay command into a
//! well-formed domain command, or rejects it with the reason.

use vstd::prelude::*;

verus! {

/// The state a device's relay is commanded into.
#[derive(Clone, Copy, Debug, PartialEq, Eq, Structural)]
pub enum DesiredState {
    /// Relay off (wire value 0).
    Off,
    /// Relay on (wire value 1).
    On,
    /// Relay on with the device's predefined timer (wire value 2).
    TimedOn,
}

/// Why validation rejected an inbound command.
#[derive(Clone, Copy, Debug, PartialEq, Eq, Structural)]
pub enum ValidationError {
    /// The device identifier is empty.
    InvalidDevice,
    /// The requested state is not one of 0, 1, 2.
    InvalidState,
    /// The port does not fit in one unsigned byte.
    InvalidPort,
}

/// An inbound command body as decoded from the request, before validation:
/// plain integers, each of which may be out of range.
#[derive(Clone, Copy, Debug, PartialEq, Eq, Structural)]
pub struct RawCommandBody {
    /// Requested relay state; valid values are 0, 1 and 2.
    pub state: i64,
    /// Device port addressed by the command; valid values are 0 through 255.
    pub port: i64,
}

/// A validated relay command. Constructed only by [`validate`]; immutable
/// once constructed.
#[derive(Clone, Debug)]
pub struct RelayCommand {
    /// The device the command addresses; non-empty.
    pub device_id: String,
    /// The state the relay is commanded into.
    pub desired_state: DesiredState,
    /// The device port the command addresses.
    pub port: u8,
}

/// The mathematical value of a [`RelayCommand`].
pub struct RelayCommandModel {
    pub device_id: Seq<char>,
    pub desired_state: DesiredState,
    pub port: u8,
}

impl View for RelayCommand {
    type V = RelayCommandModel;

    open spec fn view(&self) -> RelayCommandModel {
        RelayCommandModel {
            device_id: self.device_id@,
            desired_state: self.desired_state,
            port: self.port,
        }
    }
}

impl RelayCommand {
    /// A well-formed command names a device: its identifier is non-empty.
    pub open spec fn wf(self) -> bool {
        self.device_id@.len() > 0
    }
}

impl DesiredState {
    /// The single byte that stands for this state on the wire.
    pub open spec fn spec_byte(self) -> u8 {
        match self {
            DesiredState::Off => 0,
            DesiredState::On => 1,
            DesiredState::TimedOn => 2,
        }
    }

    /// Returns the wire byte of this state.
    pub fn byte(&self) -> (b: u8)
        ensures
            b == self.spec_byte(),
    {
        match self {
            DesiredState::Off => 0,
            DesiredState::On => 1,
            DesiredState::TimedOn => 2,
        }
    }
}

/// The state that a valid wire value stands for.
pub open spec fn state_of_value(state: int) -> DesiredState
    recommends
        0 <= state <= 2,
{
    if state == 0 {
        DesiredState::Off
    } else if state == 1 {
        DesiredState::On
    } else {
        DesiredState::TimedOn
    }
}

/// Validation accepts exactly the commands whose device identifier is
/// non-empty, whose state is 0, 1 or 2, and whose port fits in one unsigned
/// byte — checked in that order, so the first broken rule names the error.
pub open spec fn spec_validate(id: Seq<char>, state: int, port: int) -> Result<
    RelayCommandModel,
    ValidationError,
> {
    if id.len() == 0 {
        Err(ValidationError::InvalidDevice)
    } else if !(0 <= state <= 2) {
        Err(ValidationError::InvalidState)
    } else if !(0 <= port <= 255) {
        Err(ValidationError::InvalidPort)
    } else {
        Ok(
            RelayCommandModel {
                device_id: id,
                desired_state: state_of_value(state),
                port: port as u8,
            },
        )
    }
}

/// Validates an inbound command body against a device identifier, returning
/// the fully-populated domain command or the first rule it breaks.
pub fn validate(device_id: &str, body: &RawCommandBody) -> (r: Result<
    RelayCommand,
    ValidationError,
>)
    ensures
        r matches Ok(c) ==> spec_validate(device_id@, body.state as int, body.port as int)
            == Ok::<RelayCommandModel, ValidationError>(c@),
        r matches Err(e) ==> spec_validate(device_id@, body.state as int, body.port as int)
            == Err::<RelayCommandModel, ValidationError>(e),
        r matches Ok(c) ==> c.wf(),
{
    if device_id.is_empty() {
        return Err(ValidationError::InvalidDevice);
    }
    let desired_state = match body.state {
        0 => DesiredState::Off,
        1 => DesiredState::On,
        2 => DesiredState::TimedOn,
        _ => {
            return Err(ValidationError::InvalidState);
        },
    };
    if body.port < 0 || body.port > 255 {
        return Err(ValidationError::InvalidPort);
    }
    Ok(RelayCommand { device_id: device_id.to_owned(), desired_state, port: body.port as u8 })
}

} // verus!
