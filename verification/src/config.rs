//! The stored night-light setting and the changes that a user may ask for.

use vstd::prelude::*;

verus! {

/// Lowest colour temperature that can be configured, in Kelvin.
pub const MIN_TEMPERATURE: u32 = 1000;

/// Highest colour temperature that can be configured, in Kelvin.
pub const MAX_TEMPERATURE: u32 = 10_000;

/// Colour temperature of a fresh configuration, in Kelvin.
pub const DEFAULT_TEMPERATURE: u32 = 4000;

/// A colour temperature that can be configured.
pub open spec fn valid_temperature(kelvin: u32) -> bool {
    MIN_TEMPERATURE <= kelvin <= MAX_TEMPERATURE
}

/// One operation of the display settings service.
#[derive(Clone, Copy, Debug, PartialEq, Eq, Structural)]
pub enum DisplayCommand {
    /// Set the colour temperature, in Kelvin.
    SetTemperature(u32),
    /// Switch the night light on, with its automatic schedule off.
    Enable,
    /// Switch the night light off.
    Disable,
}

/// A change that a user asks for; a field that is absent stays as it is.
#[derive(Clone, Copy, Debug, PartialEq, Eq, Structural)]
pub struct UpdateConfigRequest {
    /// The new colour temperature, in Kelvin.
    pub temperature: Option<u32>,
    /// Whether the night light shall be on.
    pub enabled: Option<bool>,
}

/// Why a requested change is refused.
#[derive(Clone, Copy, Debug, PartialEq, Eq, Structural)]
pub enum ConfigError {
    /// The temperature lies outside 1000 K to 10000 K.
    TemperatureOutOfRange,
    /// The request names neither a temperature nor a state.
    NoValidParameters,
}

/// The verdict on a request before anything is changed: a temperature out
/// of range refuses it, and so does a request that names nothing.
pub open spec fn request_verdict(request: UpdateConfigRequest) -> Result<(), ConfigError> {
    match request.temperature {
        Some(kelvin) => if valid_temperature(kelvin) {
            Ok(())
        } else {
            Err(ConfigError::TemperatureOutOfRange)
        },
        None => if request.enabled.is_some() {
            Ok(())
        } else {
            Err(ConfigError::NoValidParameters)
        },
    }
}

/// Checks a request before anything is changed.
pub fn validate_update(request: &UpdateConfigRequest) -> (verdict: Result<(), ConfigError>)
    ensures
        verdict == request_verdict(*request),
{
    match request.temperature {
        Some(kelvin) => {
            if MIN_TEMPERATURE <= kelvin && kelvin <= MAX_TEMPERATURE {
                Ok(())
            } else {
                Err(ConfigError::TemperatureOutOfRange)
            }
        },
        None => {
            if request.enabled.is_some() {
                Ok(())
            } else {
                Err(ConfigError::NoValidParameters)
            }
        },
    }
}

/// The configured colour temperature and whether the night light is on.
/// The temperature always lies between 1000 K and 10000 K.
#[derive(Clone, Copy, Debug, PartialEq, Eq, Structural)]
pub struct NightLightConfig {
    temperature: u32,
    enabled: bool,
}

impl NightLightConfig {
    #[verifier::type_invariant]
    spec fn inv(&self) -> bool {
        valid_temperature(self.temperature)
    }

    /// The configured colour temperature, in Kelvin.
    pub closed spec fn spec_temperature(&self) -> u32 {
        self.temperature
    }

    /// Whether the night light is on.
    pub closed spec fn spec_enabled(&self) -> bool {
        self.enabled
    }

    /// The commands that bring the display to the state `enabled`: switching
    /// on also sets the configured temperature.
    pub open spec fn state_commands(&self, enabled: bool) -> Seq<DisplayCommand> {
        if enabled {
            seq![DisplayCommand::Enable, DisplayCommand::SetTemperature(self.spec_temperature())]
        } else {
            seq![DisplayCommand::Disable]
        }
    }

    /// The configured colour temperature, in Kelvin.
    pub fn temperature(&self) -> (kelvin: u32)
        ensures
            kelvin == self.spec_temperature(),
            valid_temperature(kelvin),
    {
        proof {
            use_type_invariant(self);
        }
        self.temperature
    }

    /// Whether the night light is on.
    pub fn enabled(&self) -> (enabled: bool)
        ensures
            enabled == self.spec_enabled(),
    {
        self.enabled
    }

    /// Stores a temperature that a user asked for. Out of range, it is
    /// refused and nothing changes. In range, it is stored, and where the
    /// night light is on, the command that shows it is returned.
    pub fn set_temperature(&mut self, kelvin: u32) -> (outcome: Result<
        Option<DisplayCommand>,
        ConfigError,
    >)
        ensures
            final(self).spec_enabled() == old(self).spec_enabled(),
            valid_temperature(kelvin) ==> final(self).spec_temperature() == kelvin && outcome == Ok::<
                Option<DisplayCommand>,
                ConfigError,
            >(
                if old(self).spec_enabled() {
                    Some(DisplayCommand::SetTemperature(kelvin))
                } else {
                    None
                },
            ),
            !valid_temperature(kelvin) ==> final(self).spec_temperature() == old(
                self,
            ).spec_temperature() && outcome == Err::<Option<DisplayCommand>, ConfigError>(
                ConfigError::TemperatureOutOfRange,
            ),
    {
        if kelvin < MIN_TEMPERATURE || kelvin > MAX_TEMPERATURE {
            return Err(ConfigError::TemperatureOutOfRange);
        }
        self.temperature = kelvin;
        if self.enabled {
            Ok(Some(DisplayCommand::SetTemperature(kelvin)))
        } else {
            Ok(None)
        }
    }

    /// Stores the state that a user asked for and returns the commands that
    /// bring the display to it, in the order in which to run them.
    pub fn set_enabled(&mut self, enabled: bool) -> (commands: Vec<DisplayCommand>)
        ensures
            final(self).spec_enabled() == enabled,
            final(self).spec_temperature() == old(self).spec_temperature(),
            commands@ == old(self).state_commands(enabled),
    {
        proof {
            use_type_invariant(&*self);
        }
        self.enabled = enabled;
        let mut commands: Vec<DisplayCommand> = Vec::new();
        if enabled {
            commands.push(DisplayCommand::Enable);
            commands.push(DisplayCommand::SetTemperature(self.temperature));
        } else {
            commands.push(DisplayCommand::Disable);
        }
        assert(commands@ =~= old(self).state_commands(enabled));
        commands
    }

    /// Records a temperature that the display has taken on. One that could
    /// not be configured is not recorded.
    pub fn confirm_temperature(&mut self, kelvin: u32)
        ensures
            final(self).spec_enabled() == old(self).spec_enabled(),
            final(self).spec_temperature() == if valid_temperature(kelvin) {
                kelvin
            } else {
                old(self).spec_temperature()
            },
    {
        if MIN_TEMPERATURE <= kelvin && kelvin <= MAX_TEMPERATURE {
            self.temperature = kelvin;
        }
    }

    /// Records that the night light has been switched off.
    pub fn confirm_disabled(&mut self)
        ensures
            !final(self).spec_enabled(),
            final(self).spec_temperature() == old(self).spec_temperature(),
    {
        proof {
            use_type_invariant(&*self);
        }
        self.enabled = false;
    }
}

impl Default for NightLightConfig {
    /// 4000 K, switched off.
    fn default() -> (config: NightLightConfig)
        ensures
            config.spec_temperature() == DEFAULT_TEMPERATURE,
            !config.spec_enabled(),
    {
        NightLightConfig { temperature: DEFAULT_TEMPERATURE, enabled: false }
    }
}

} // verus!
