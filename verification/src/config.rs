//! The configuration stage: from validated dimensions to an initialized
//! encoder.
//!
//! The stage is entered in two steps. [`SvtAv1EncoderConfig::prepare`] checks the
//! dimensions and the preset and, only where they are in range, yields a
//! [`ConfigRequest`]. With that request the caller lets the core construct a
//! component and fill in its default configuration, and
//! [`SvtAv1EncoderConfig::new`] puts the two together. No stage exists for
//! inputs out of range, and no call is made for them.
//!
//! The stage is left through [`SvtAv1EncoderConfig::into_encoder`], which
//! applies the configuration and then initializes the encoder, or through
//! [`SvtAv1EncoderConfig::teardown`].

use crate::configuration::SvtAv1EncConfiguration;
use crate::encoder::Stage;
use crate::encoder::SvtAv1Encoder;
use crate::handle::NativeHandle;
use crate::handle::Teardown;
use crate::status::ErrorType;
use vstd::prelude::*;
use vstd::string::StringSliceAdditionalSpecFns;

verus! {

/// Smallest frame width.
pub const MIN_WIDTH: u32 = 64;

/// Largest frame width.
pub const MAX_WIDTH: u32 = 16384;

/// Smallest frame height.
pub const MIN_HEIGHT: u32 = 64;

/// Largest frame height.
pub const MAX_HEIGHT: u32 = 8704;

/// Lowest preset.
pub const MIN_PRESET: i8 = -2;

/// Highest preset.
pub const MAX_PRESET: i8 = 13;

/// Whether a frame of this size can be encoded.
pub open spec fn valid_dimensions(width: u32, height: u32) -> bool {
    MIN_WIDTH <= width <= MAX_WIDTH && MIN_HEIGHT <= height <= MAX_HEIGHT
}

/// Whether a preset, where one is given, is one the encoder knows.
pub open spec fn valid_preset(preset: Option<i8>) -> bool {
    match preset {
        Some(preset) => MIN_PRESET <= preset <= MAX_PRESET,
        None => true,
    }
}

/// The configuration a new stage starts with: the defaults of the core with
/// the given width and height, and with the given preset where there is one.
pub open spec fn configured(
    defaults: SvtAv1EncConfiguration,
    width: u32,
    height: u32,
    preset: Option<i8>,
) -> SvtAv1EncConfiguration {
    SvtAv1EncConfiguration {
        source_width: width,
        source_height: height,
        enc_mode: match preset {
            Some(preset) => preset,
            None => defaults.enc_mode,
        },
        ..defaults
    }
}

/// Whether no byte of `bytes` is zero.
pub open spec fn nul_free(bytes: Seq<u8>) -> bool {
    forall|i: int| 0 <= i < bytes.len() ==> bytes[i] != 0
}

/// Dimensions and preset that have passed validation.
#[derive(Debug)]
pub struct ConfigRequest {
    width: u32,
    height: u32,
    preset: Option<i8>,
}

impl ConfigRequest {
    #[verifier::type_invariant]
    spec fn valid(self) -> bool {
        valid_dimensions(self.width, self.height) && valid_preset(self.preset)
    }

    /// The frame width asked for.
    pub closed spec fn spec_width(&self) -> u32 {
        self.width
    }

    /// The frame height asked for.
    pub closed spec fn spec_height(&self) -> u32 {
        self.height
    }

    /// The preset asked for, if any.
    pub closed spec fn spec_preset(&self) -> Option<i8> {
        self.preset
    }

    /// The frame width asked for.
    pub fn width(&self) -> (width: u32)
        ensures
            width == self.spec_width(),
            MIN_WIDTH <= width <= MAX_WIDTH,
    {
        proof {
            use_type_invariant(self);
        }
        self.width
    }

    /// The frame height asked for.
    pub fn height(&self) -> (height: u32)
        ensures
            height == self.spec_height(),
            MIN_HEIGHT <= height <= MAX_HEIGHT,
    {
        proof {
            use_type_invariant(self);
        }
        self.height
    }

    /// The preset asked for, if any.
    pub fn preset(&self) -> (preset: Option<i8>)
        ensures
            preset == self.spec_preset(),
            valid_preset(preset),
    {
        proof {
            use_type_invariant(self);
        }
        self.preset
    }
}

/// A named setting ready for the parser of the core: name and value as byte
/// strings, each ended by a zero byte and free of zero bytes before it.
#[derive(Debug)]
pub struct ParameterRequest {
    /// The name, zero-terminated.
    pub name: Vec<u8>,
    /// The value, zero-terminated.
    pub value: Vec<u8>,
}

/// The bytes of `text` followed by one zero byte, or `None` where `text`
/// itself holds a zero byte and so cannot be told from a shorter string.
pub fn c_string(text: &str) -> (bytes: Option<Vec<u8>>)
    ensures
        bytes is Some <==> nul_free(text.spec_bytes()),
        bytes is Some ==> bytes->0@ == text.spec_bytes().push(0u8),
{
    let raw = text.as_bytes();
    let mut out: Vec<u8> = Vec::new();
    let mut i: usize = 0;
    while i < raw.len()
        invariant
            raw@ == text.spec_bytes(),
            i <= raw@.len(),
            out@ == raw@.subrange(0, i as int),
            nul_free(raw@.subrange(0, i as int)),
        decreases raw@.len() - i,
    {
        let byte = raw[i];
        if byte == 0 {
            assert(raw@[i as int] == 0);
            return None;
        }
        out.push(byte);
        assert(raw@.subrange(0, i + 1) =~= raw@.subrange(0, i as int).push(byte));
        i += 1;
    }
    assert(raw@.subrange(0, i as int) =~= raw@);
    out.push(0);
    Some(out)
}

/// Which of the two calls of finalization is due.
#[derive(Debug, Copy, Clone, Hash, PartialEq, Eq, Structural)]
pub enum FinalizeStep {
    /// The configuration is to be handed to the component.
    SetParameter,
    /// The encoder is to be initialized.
    Init,
}

/// Where finalization stands, without the values that travel along.
#[derive(Debug, Copy, Clone, Hash, PartialEq, Eq, Structural)]
pub enum FinalizeState {
    /// The given call is due.
    Due(FinalizeStep),
    /// The encoder exists.
    Ready,
    /// A call failed with the given status.
    Failed(ErrorType),
}

/// Where finalization stands after the call that was due has returned
/// `status`. Success moves on, from applying the configuration to
/// initializing and from initializing to ready; anything else is the end.
pub open spec fn finalize_next(step: FinalizeStep, status: ErrorType) -> FinalizeState {
    if status != ErrorType::ErrorNone {
        FinalizeState::Failed(status)
    } else {
        match step {
            FinalizeStep::SetParameter => FinalizeState::Due(FinalizeStep::Init),
            FinalizeStep::Init => FinalizeState::Ready,
        }
    }
}

/// Configuration of an encoder that is not initialized yet: the settings, open
/// to change, and the handle they will be applied to.
#[derive(Debug)]
pub struct SvtAv1EncoderConfig {
    /// The settings. Any field may be changed until the configuration is
    /// applied.
    pub config: SvtAv1EncConfiguration,
    handle: NativeHandle,
}

/// A configuration on its way to an encoder: one of the two calls of
/// finalization is due.
#[derive(Debug)]
pub struct PendingEncoder {
    config: SvtAv1EncConfiguration,
    handle: NativeHandle,
    step: FinalizeStep,
}

/// Where finalization stands after a call has returned.
#[derive(Debug)]
pub enum Finalize {
    /// The configuration was accepted; initialization is due.
    Pending(PendingEncoder),
    /// Both calls succeeded: the encoder owns the handle now.
    Ready(SvtAv1Encoder),
    /// A call failed with the given status. No encoder exists; the handle is
    /// given back for release.
    Failed(ErrorType, Teardown),
}

impl Finalize {
    /// Where finalization stands.
    pub open spec fn state(&self) -> FinalizeState {
        match self {
            Finalize::Pending(pending) => FinalizeState::Due(pending.spec_step()),
            Finalize::Ready(_) => FinalizeState::Ready,
            Finalize::Failed(error, _) => FinalizeState::Failed(*error),
        }
    }
}

impl SvtAv1EncoderConfig {
    /// The settings as they stand.
    pub closed spec fn spec_config(&self) -> SvtAv1EncConfiguration {
        self.config
    }

    /// The address of the native component.
    pub closed spec fn spec_addr(&self) -> usize {
        self.handle@
    }

    /// Validates the inputs of a new configuration, before anything is asked of
    /// the core. Width must lie in 64 to 16384, height in 64 to 8704, and a
    /// preset, where given, in -2 to 13. Anything else is a bad parameter.
    pub fn prepare(
        width: u32,
        height: u32,
        preset: Option<i8>,
    ) -> (request: Result<ConfigRequest, ErrorType>)
        ensures
            request is Ok <==> valid_dimensions(width, height) && valid_preset(preset),
            request matches Ok(r) ==> {
                &&& r.spec_width() == width
                &&& r.spec_height() == height
                &&& r.spec_preset() == preset
            },
            request matches Err(e) ==> e == ErrorType::ErrorBadParameter,
    {
        if width < MIN_WIDTH || width > MAX_WIDTH {
            return Err(ErrorType::ErrorBadParameter);
        }
        if height < MIN_HEIGHT || height > MAX_HEIGHT {
            return Err(ErrorType::ErrorBadParameter);
        }
        if let Some(preset) = preset {
            if preset < MIN_PRESET || preset > MAX_PRESET {
                return Err(ErrorType::ErrorBadParameter);
            }
        }
        Ok(ConfigRequest { width, height, preset })
    }

    /// The configuration stage over a freshly constructed component.
    ///
    /// `handle` owns the component and `defaults` is the configuration that the
    /// core filled in while constructing it. The stage takes the defaults and
    /// sets width, height and, where one was asked for, the preset.
    pub fn new(
        request: ConfigRequest,
        handle: NativeHandle,
        defaults: SvtAv1EncConfiguration,
    ) -> (stage: SvtAv1EncoderConfig)
        ensures
            stage.spec_config() == configured(
                defaults,
                request.spec_width(),
                request.spec_height(),
                request.spec_preset(),
            ),
            valid_dimensions(request.spec_width(), request.spec_height()),
            valid_preset(request.spec_preset()),
            stage.spec_addr() == handle@,
    {
        proof {
            use_type_invariant(&request);
        }
        let enc_mode = match request.preset {
            Some(preset) => preset,
            None => defaults.enc_mode,
        };
        let config = SvtAv1EncConfiguration {
            source_width: request.width,
            source_height: request.height,
            enc_mode,
            ..defaults
        };
        SvtAv1EncoderConfig { config, handle }
    }

    /// The address of the native component, for the call about to be made.
    pub fn addr(&self) -> (addr: usize)
        ensures
            addr == self.spec_addr(),
    {
        self.handle.addr()
    }

    /// Describes the call that applies one named setting: name and value as
    /// zero-terminated byte strings. There is no request where either holds a
    /// zero byte. Whether the name is known and the value fits is for the
    /// parser of the core to say.
    pub fn set_parameter_from_str(
        &self,
        name: &str,
        value: &str,
    ) -> (request: Option<ParameterRequest>)
        ensures
            request is Some <==> nul_free(name.spec_bytes()) && nul_free(value.spec_bytes()),
            request matches Some(r) ==> {
                &&& r.name@ == name.spec_bytes().push(0u8)
                &&& r.value@ == value.spec_bytes().push(0u8)
            },
    {
        let name = match c_string(name) {
            Some(name) => name,
            None => {
                return None;
            },
        };
        let value = match c_string(value) {
            Some(value) => value,
            None => {
                return None;
            },
        };
        Some(ParameterRequest { name, value })
    }

    /// Takes in the outcome of the parser call: its status and the
    /// configuration as the parser left it. The parser works on the
    /// configuration in place, so what it left is kept whatever the status; a
    /// status other than success is the error.
    pub fn parameter_parsed(
        &mut self,
        status: ErrorType,
        config: SvtAv1EncConfiguration,
    ) -> (result: Result<(), ErrorType>)
        ensures
            result == status.spec_into_result(),
            final(self).spec_config() == config,
            final(self).spec_addr() == old(self).spec_addr(),
    {
        self.config = config;
        status.into_result()
    }

    /// Begins finalization. The settings can no longer be changed; the first
    /// call due hands them to the component.
    pub fn into_encoder(self) -> (pending: PendingEncoder)
        ensures
            pending.spec_step() == FinalizeStep::SetParameter,
            pending.spec_config() == self.spec_config(),
            pending.spec_addr() == self.spec_addr(),
    {
        PendingEncoder {
            config: self.config,
            handle: self.handle,
            step: FinalizeStep::SetParameter,
        }
    }

    /// Gives the configuration up without making an encoder of it. What is left
    /// is to destroy the component; nothing was initialized.
    pub fn teardown(self) -> (teardown: Teardown)
        ensures
            teardown.spec_addr() == self.spec_addr(),
            !teardown.spec_initialized(),
    {
        Teardown::new(self.handle, false)
    }
}

impl PendingEncoder {
    /// The call that is due.
    pub closed spec fn spec_step(&self) -> FinalizeStep {
        self.step
    }

    /// The settings being applied.
    pub closed spec fn spec_config(&self) -> SvtAv1EncConfiguration {
        self.config
    }

    /// The address of the native component.
    pub closed spec fn spec_addr(&self) -> usize {
        self.handle@
    }

    /// The call that is due.
    pub fn step(&self) -> (step: FinalizeStep)
        ensures
            step == self.spec_step(),
    {
        self.step
    }

    /// The settings to hand to the component.
    pub fn config(&self) -> (config: SvtAv1EncConfiguration)
        ensures
            config == self.spec_config(),
    {
        self.config
    }

    /// The address of the native component, for the call about to be made.
    pub fn addr(&self) -> (addr: usize)
        ensures
            addr == self.spec_addr(),
    {
        self.handle.addr()
    }

    /// Takes in the status of the call that was due.
    ///
    /// After a successful `SetParameter`, `Init` is due. After a successful
    /// `Init` the encoder exists, ready, on the same component. After a failure
    /// of either there is no encoder: the status is the error, and the handle
    /// comes back for release, with nothing to deinitialize.
    pub fn advance(self, status: ErrorType) -> (outcome: Finalize)
        ensures
            outcome.state() == finalize_next(self.spec_step(), status),
            match outcome {
                Finalize::Pending(next) => {
                    &&& status == ErrorType::ErrorNone
                    &&& self.spec_step() == FinalizeStep::SetParameter
                    &&& next.spec_step() == FinalizeStep::Init
                    &&& next.spec_config() == self.spec_config()
                    &&& next.spec_addr() == self.spec_addr()
                },
                Finalize::Ready(encoder) => {
                    &&& status == ErrorType::ErrorNone
                    &&& self.spec_step() == FinalizeStep::Init
                    &&& encoder.spec_stage() == Stage::Ready
                    &&& encoder.spec_addr() == self.spec_addr()
                },
                Finalize::Failed(error, teardown) => {
                    &&& status != ErrorType::ErrorNone
                    &&& error == status
                    &&& teardown.spec_addr() == self.spec_addr()
                    &&& !teardown.spec_initialized()
                },
            },
    {
        match status {
            ErrorType::ErrorNone => match self.step {
                FinalizeStep::SetParameter => Finalize::Pending(
                    PendingEncoder {
                        config: self.config,
                        handle: self.handle,
                        step: FinalizeStep::Init,
                    },
                ),
                FinalizeStep::Init => Finalize::Ready(SvtAv1Encoder::start(self.handle)),
            },
            error => Finalize::Failed(error, Teardown::new(self.handle, false)),
        }
    }
}

/// A new configuration shows the width and the height it was asked for, and
/// the preset that was asked for or else the default one. Nothing else differs
/// from the defaults: putting the three default values back gives the defaults
/// again.
pub proof fn lemma_configured_reflects_inputs(
    defaults: SvtAv1EncConfiguration,
    width: u32,
    height: u32,
    preset: Option<i8>,
)
    ensures
        configured(defaults, width, height, preset).source_width == width,
        configured(defaults, width, height, preset).source_height == height,
        preset matches Some(p) ==> configured(defaults, width, height, preset).enc_mode == p,
        preset is None ==> configured(defaults, width, height, preset).enc_mode
            == defaults.enc_mode,
        configured(
            configured(defaults, width, height, preset),
            defaults.source_width,
            defaults.source_height,
            Some(defaults.enc_mode),
        ) == defaults,
{
}

/// Dimensions are accepted exactly in 64 to 16384 by 64 to 8704, and a preset
/// exactly in -2 to 13; no preset is always accepted.
pub proof fn lemma_accepted_ranges(width: u32, height: u32, preset: i8)
    ensures
        valid_dimensions(width, height) <==> (64 <= width <= 16384 && 64 <= height <= 8704),
        valid_preset(Some(preset)) <==> -2 <= preset <= 13,
        valid_preset(None),
{
}

/// An encoder comes to exist only by two successes in a row: the
/// configuration accepted, then the encoder initialized. The first failure
/// ends finalization with its status, and after a failed first call the second
/// is never due.
pub proof fn lemma_finalize_needs_both(step: FinalizeStep, status: ErrorType)
    ensures
        finalize_next(step, status) == FinalizeState::Ready <==> (step == FinalizeStep::Init
            && status == ErrorType::ErrorNone),
        finalize_next(step, status) == FinalizeState::Due(FinalizeStep::Init) <==> (step
            == FinalizeStep::SetParameter && status == ErrorType::ErrorNone),
        finalize_next(step, status) != FinalizeState::Due(FinalizeStep::SetParameter),
        status != ErrorType::ErrorNone <==> finalize_next(step, status) == FinalizeState::Failed(
            status,
        ),
{
}

} // verus!
