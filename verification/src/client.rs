//! The client controller: its state, and the control operations on it.

use vstd::prelude::*;
use crate::config::{CHANNEL_COUNT, DEFAULT_BITRATE, MAX_BITRATE, MIN_BITRATE, SAMPLE_RATE};
use crate::device::{device_fits, supports_stream, ConfigRange};
use crate::error_codes::{
    is_failure, INPUT_STREAM_FAILED, INVALID_AUDIO_PARAM, NO_INPUT_DEVICE, NO_OUTPUT_DEVICE,
    NULL_POINTER, OUTPUT_STREAM_FAILED, SUCCESS, UNSUPPORTED_SAMPLE_FORMAT,
};

verus! {

/// Where a client is in its life.
#[derive(Clone, Copy, Debug, PartialEq, Eq, Structural)]
pub enum Phase {
    /// Set up, with no stream or background loop active.
    Created,
    /// Streams and background loops are active.
    Running,
    /// Stopped: streams are gone and the loops have been told to end.
    Stopped,
}

/// What a client's state is made of.
#[derive(Clone, Copy, Debug, PartialEq, Eq, Structural)]
pub struct ClientState {
    /// Where the client is in its life.
    pub phase: Phase,
    /// The transmission gate: whether captured audio is encoded and sent.
    pub transmitting: bool,
    /// Target bitrate of the encoder, in bits per second.
    pub bitrate: u32,
}

/// Whether `bitrate`, in bits per second, is one the encoder may be asked for.
pub open spec fn bitrate_in_range(bitrate: int) -> bool {
    MIN_BITRATE <= bitrate <= MAX_BITRATE
}

/// The state of a client that was just created.
pub open spec fn initial_state() -> ClientState {
    ClientState { phase: Phase::Created, transmitting: false, bitrate: DEFAULT_BITRATE }
}

/// How the encoder is to be set before it encodes a frame.
#[derive(Clone, Copy, Debug, PartialEq, Eq, Structural)]
pub struct EncoderSettings {
    /// Samples per second.
    pub sample_rate: u32,
    /// Number of channels.
    pub channels: u16,
    /// Whether the codec is tuned for speech.
    pub voice: bool,
    /// Whether the codec may vary its bitrate.
    pub variable_bitrate: bool,
    /// Target bitrate in bits per second.
    pub bitrate: i32,
}

/// The encoder's settings at a target bitrate: mono at the stream's sample
/// rate, tuned for speech, with variable bitrate.
pub open spec fn settings_at(bitrate: u32) -> EncoderSettings {
    EncoderSettings {
        sample_rate: SAMPLE_RATE,
        channels: CHANNEL_COUNT,
        voice: true,
        variable_bitrate: true,
        bitrate: bitrate as i32,
    }
}

/// The controller of one session. Its bitrate is always in range.
pub struct VoiceClient {
    state: ClientState,
}

impl View for VoiceClient {
    type V = ClientState;

    closed spec fn view(&self) -> ClientState {
        self.state
    }
}

impl VoiceClient {
    #[verifier::type_invariant]
    spec fn valid(self) -> bool {
        bitrate_in_range(self.state.bitrate as int)
    }

    /// A client in its initial state: created, silent, at the default
    /// bitrate.
    pub fn new() -> (client: Self)
        ensures
            client@ == initial_state(),
    {
        VoiceClient {
            state: ClientState {
                phase: Phase::Created,
                transmitting: false,
                bitrate: DEFAULT_BITRATE,
            },
        }
    }

    /// Whether streams and background loops are active. The loops poll this
    /// and end once it is false.
    pub fn is_running(&self) -> (running: bool)
        ensures
            running == (self@.phase == Phase::Running),
    {
        self.state.phase == Phase::Running
    }

    /// The transmission gate.
    pub fn is_transmitting(&self) -> (transmitting: bool)
        ensures
            transmitting == self@.transmitting,
    {
        self.state.transmitting
    }

    /// The target bitrate in bits per second; always in range.
    pub fn bitrate(&self) -> (bitrate: u32)
        ensures
            bitrate == self@.bitrate,
            bitrate_in_range(bitrate as int),
    {
        proof {
            use_type_invariant(self);
        }
        self.state.bitrate
    }

    /// What the encoder is given before each frame: the settings at the
    /// bitrate that was set last.
    pub fn encoder_settings(&self) -> (settings: EncoderSettings)
        ensures
            settings == settings_at(self@.bitrate),
            settings.bitrate == self@.bitrate,
    {
        proof {
            use_type_invariant(self);
        }
        EncoderSettings {
            sample_rate: SAMPLE_RATE,
            channels: CHANNEL_COUNT,
            voice: true,
            variable_bitrate: true,
            bitrate: self.state.bitrate as i32,
        }
    }

    /// The whole state, as plain values.
    pub fn state(&self) -> (state: ClientState)
        ensures
            state == self@,
            bitrate_in_range(state.bitrate as int),
    {
        proof {
            use_type_invariant(self);
        }
        self.state
    }
}

/// What setting the bitrate came to.
#[derive(Clone, Copy, Debug, PartialEq, Eq, Structural)]
pub struct BitrateUpdate {
    /// The status code of the operation.
    pub code: i32,
    /// The settings to hand to the encoder at once, if there are any.
    pub apply: Option<EncoderSettings>,
}

/// Sets the target bitrate. A bitrate out of range is rejected and changes
/// nothing. One in range is what the encoder is given before every frame
/// from now on; the encoder of a running client is to be given it at once.
pub fn voice_client_set_bitrate(client: Option<&mut VoiceClient>, bitrate: u32) -> (update:
    BitrateUpdate)
    ensures
        client is None ==> update == (BitrateUpdate { code: NULL_POINTER, apply: None }),
        client matches Some(c) ==> {
            if bitrate_in_range(bitrate as int) {
                &&& update.code == SUCCESS
                &&& update.apply == (if c@.phase == Phase::Running {
                    Some(settings_at(bitrate))
                } else {
                    None
                })
                &&& final(c)@ == (ClientState { bitrate, ..c@ })
            } else {
                &&& update == (BitrateUpdate { code: INVALID_AUDIO_PARAM, apply: None })
                &&& final(c)@ == c@
            }
        },
{
    match client {
        None => BitrateUpdate { code: NULL_POINTER, apply: None },
        Some(c) => {
            if bitrate < MIN_BITRATE || bitrate > MAX_BITRATE {
                BitrateUpdate { code: INVALID_AUDIO_PARAM, apply: None }
            } else {
                c.state.bitrate = bitrate;
                let apply = if c.is_running() {
                    Some(c.encoder_settings())
                } else {
                    None
                };
                BitrateUpdate { code: SUCCESS, apply }
            }
        },
    }
}

/// Opens or closes the transmission gate.
pub fn voice_client_set_transmitting(client: Option<&mut VoiceClient>, transmitting: bool)
    ensures
        client matches Some(c) ==> final(c)@ == (ClientState { transmitting, ..c@ }),
{
    match client {
        None => {},
        Some(c) => {
            proof {
                use_type_invariant(&*c);
            }
            c.state.transmitting = transmitting;
        },
    }
}

/// Stops the client: whatever its phase was, it is stopped afterwards, and
/// nothing else changes. The caller drops both streams; the background loops
/// see that the client no longer runs and end by themselves.
pub fn voice_client_stop(client: Option<&mut VoiceClient>)
    ensures
        client matches Some(c) ==> final(c)@ == (ClientState { phase: Phase::Stopped, ..c@ }),
{
    match client {
        None => {},
        Some(c) => {
            proof {
                use_type_invariant(&*c);
            }
            c.state.phase = Phase::Stopped;
        },
    }
}

/// Stops the client, if there is one, and gives it up. Says whether there was
/// one, and the state it was left in.
pub fn voice_client_free(client: Option<VoiceClient>) -> (last: Option<ClientState>)
    ensures
        last is Some <==> client is Some,
        client matches Some(c) ==> last == Some(ClientState { phase: Phase::Stopped, ..c@ }),
{
    match client {
        None => None,
        Some(c) => {
            let mut c = c;
            voice_client_stop(Some(&mut c));
            Some(c.state())
        },
    }
}

/// A step of setting a client up. Each names what the caller does next.
#[derive(Clone, Copy, Debug, PartialEq, Eq, Structural)]
pub enum CreateStage {
    /// Bind a datagram socket to any local address.
    Bind,
    /// Connect the socket to the peer.
    Connect,
    /// Make the socket non-blocking.
    SetNonBlocking,
    /// Read back the peer's address.
    PeerAddress,
    /// Create the encoder with `settings_at(DEFAULT_BITRATE)`.
    CreateEncoder,
    /// Set the encoder's bitrate to the default.
    SetBitrate,
    /// Switch the encoder to variable bitrate.
    EnableVbr,
}

/// How setting up goes on after a step.
#[derive(Clone, Copy, Debug, PartialEq, Eq, Structural)]
pub enum CreateProgress {
    /// Do this step next.
    Continue(CreateStage),
    /// Everything is in place: the client is `VoiceClient::new()`.
    Ready,
    /// Give up and release what was set up: there is no client.
    Abort,
}

/// What follows `stage`, given whether it succeeded. A failure of the socket
/// or of creating the encoder ends the setup; a failure to tune the encoder
/// does not.
pub open spec fn create_outcome(stage: CreateStage, succeeded: bool) -> CreateProgress {
    match stage {
        CreateStage::Bind => if succeeded {
            CreateProgress::Continue(CreateStage::Connect)
        } else {
            CreateProgress::Abort
        },
        CreateStage::Connect => if succeeded {
            CreateProgress::Continue(CreateStage::SetNonBlocking)
        } else {
            CreateProgress::Abort
        },
        CreateStage::SetNonBlocking => if succeeded {
            CreateProgress::Continue(CreateStage::PeerAddress)
        } else {
            CreateProgress::Abort
        },
        CreateStage::PeerAddress => if succeeded {
            CreateProgress::Continue(CreateStage::CreateEncoder)
        } else {
            CreateProgress::Abort
        },
        CreateStage::CreateEncoder => if succeeded {
            CreateProgress::Continue(CreateStage::SetBitrate)
        } else {
            CreateProgress::Abort
        },
        CreateStage::SetBitrate => CreateProgress::Continue(CreateStage::EnableVbr),
        CreateStage::EnableVbr => CreateProgress::Ready,
    }
}

/// Begins to set a client up for the peer at `server_ip`: an empty address is
/// refused at once, any other is tried.
pub fn voice_client_new(server_ip: &str) -> (progress: CreateProgress)
    ensures
        progress == if server_ip@.len() == 0 {
            CreateProgress::Abort
        } else {
            CreateProgress::Continue(CreateStage::Bind)
        },
{
    if server_ip.is_empty() {
        CreateProgress::Abort
    } else {
        CreateProgress::Continue(CreateStage::Bind)
    }
}

/// Decides what follows a step of the setup.
pub fn create_step(stage: CreateStage, succeeded: bool) -> (progress: CreateProgress)
    ensures
        progress == create_outcome(stage, succeeded),
{
    match stage {
        CreateStage::Bind => if succeeded {
            CreateProgress::Continue(CreateStage::Connect)
        } else {
            CreateProgress::Abort
        },
        CreateStage::Connect => if succeeded {
            CreateProgress::Continue(CreateStage::SetNonBlocking)
        } else {
            CreateProgress::Abort
        },
        CreateStage::SetNonBlocking => if succeeded {
            CreateProgress::Continue(CreateStage::PeerAddress)
        } else {
            CreateProgress::Abort
        },
        CreateStage::PeerAddress => if succeeded {
            CreateProgress::Continue(CreateStage::CreateEncoder)
        } else {
            CreateProgress::Abort
        },
        CreateStage::CreateEncoder => if succeeded {
            CreateProgress::Continue(CreateStage::SetBitrate)
        } else {
            CreateProgress::Abort
        },
        CreateStage::SetBitrate => CreateProgress::Continue(CreateStage::EnableVbr),
        CreateStage::EnableVbr => CreateProgress::Ready,
    }
}

/// A step of starting a client. Each names what the caller does next.
#[derive(Clone, Copy, Debug, PartialEq, Eq, Structural)]
pub enum StartStage {
    /// Look up the default capture device.
    InputDevice,
    /// Look up the default playback device.
    OutputDevice,
    /// List the configurations the capture device offers.
    InputConfigs,
    /// List the configurations the playback device offers.
    OutputConfigs,
    /// Build the capture stream.
    BuildInput,
    /// Start the capture stream.
    PlayInput,
    /// Build the playback stream.
    BuildOutput,
    /// Start the playback stream.
    PlayOutput,
}

/// How a step of starting ended.
#[derive(Debug)]
pub enum StartEvent {
    /// The step succeeded.
    Done,
    /// The step failed, or what it looked for is not there.
    Failed,
    /// The configurations that a device offers.
    Configs(Vec<ConfigRange>),
}

/// How starting goes on after a step.
#[derive(Clone, Copy, Debug, PartialEq, Eq, Structural)]
pub enum StartProgress {
    /// Do this step next.
    Continue(StartStage),
    /// Both streams play: spawn the receiver and heartbeat loops, and report
    /// success.
    Launch,
    /// Give up with this status code: drop any stream built so far and spawn
    /// nothing.
    Abort(i32),
}

/// What follows `stage`, given how it ended. The devices are looked up, then
/// each must offer the pipeline's configuration, then the streams are built
/// and started, capture first. The first step that fails ends the start with
/// the code of its kind.
pub open spec fn start_outcome(stage: StartStage, event: StartEvent) -> StartProgress {
    match stage {
        StartStage::InputDevice => if event is Done {
            StartProgress::Continue(StartStage::OutputDevice)
        } else {
            StartProgress::Abort(NO_INPUT_DEVICE)
        },
        StartStage::OutputDevice => if event is Done {
            StartProgress::Continue(StartStage::InputConfigs)
        } else {
            StartProgress::Abort(NO_OUTPUT_DEVICE)
        },
        StartStage::InputConfigs => match event {
            StartEvent::Configs(ranges) => if device_fits(ranges@) {
                StartProgress::Continue(StartStage::OutputConfigs)
            } else {
                StartProgress::Abort(UNSUPPORTED_SAMPLE_FORMAT)
            },
            _ => StartProgress::Abort(INPUT_STREAM_FAILED),
        },
        StartStage::OutputConfigs => match event {
            StartEvent::Configs(ranges) => if device_fits(ranges@) {
                StartProgress::Continue(StartStage::BuildInput)
            } else {
                StartProgress::Abort(UNSUPPORTED_SAMPLE_FORMAT)
            },
            _ => StartProgress::Abort(OUTPUT_STREAM_FAILED),
        },
        StartStage::BuildInput => if event is Done {
            StartProgress::Continue(StartStage::PlayInput)
        } else {
            StartProgress::Abort(INPUT_STREAM_FAILED)
        },
        StartStage::PlayInput => if event is Done {
            StartProgress::Continue(StartStage::BuildOutput)
        } else {
            StartProgress::Abort(INPUT_STREAM_FAILED)
        },
        StartStage::BuildOutput => if event is Done {
            StartProgress::Continue(StartStage::PlayOutput)
        } else {
            StartProgress::Abort(OUTPUT_STREAM_FAILED)
        },
        StartStage::PlayOutput => if event is Done {
            StartProgress::Launch
        } else {
            StartProgress::Abort(OUTPUT_STREAM_FAILED)
        },
    }
}

/// Begins to start a client: without a client there is nothing to start, with
/// one the devices are looked up first.
pub fn voice_client_start(client: Option<&VoiceClient>) -> (progress: StartProgress)
    ensures
        progress == if client is Some {
            StartProgress::Continue(StartStage::InputDevice)
        } else {
            StartProgress::Abort(NULL_POINTER)
        },
{
    match client {
        Some(_) => StartProgress::Continue(StartStage::InputDevice),
        None => StartProgress::Abort(NULL_POINTER),
    }
}

/// Decides what follows a step of the start. The client runs from the moment
/// the last step has succeeded; until then, and when the start is given up,
/// it stays as it was.
pub fn start_step(client: &mut VoiceClient, stage: StartStage, event: &StartEvent) -> (progress:
    StartProgress)
    ensures
        progress == start_outcome(stage, *event),
        progress matches StartProgress::Abort(code) ==> is_failure(code as int),
        final(client)@ == if progress is Launch {
            ClientState { phase: Phase::Running, ..old(client)@ }
        } else {
            old(client)@
        },
{
    match stage {
        StartStage::InputDevice => match event {
            StartEvent::Done => StartProgress::Continue(StartStage::OutputDevice),
            _ => StartProgress::Abort(NO_INPUT_DEVICE),
        },
        StartStage::OutputDevice => match event {
            StartEvent::Done => StartProgress::Continue(StartStage::InputConfigs),
            _ => StartProgress::Abort(NO_OUTPUT_DEVICE),
        },
        StartStage::InputConfigs => match event {
            StartEvent::Configs(ranges) => if supports_stream(ranges.as_slice()) {
                StartProgress::Continue(StartStage::OutputConfigs)
            } else {
                StartProgress::Abort(UNSUPPORTED_SAMPLE_FORMAT)
            },
            _ => StartProgress::Abort(INPUT_STREAM_FAILED),
        },
        StartStage::OutputConfigs => match event {
            StartEvent::Configs(ranges) => if supports_stream(ranges.as_slice()) {
                StartProgress::Continue(StartStage::BuildInput)
            } else {
                StartProgress::Abort(UNSUPPORTED_SAMPLE_FORMAT)
            },
            _ => StartProgress::Abort(OUTPUT_STREAM_FAILED),
        },
        StartStage::BuildInput => match event {
            StartEvent::Done => StartProgress::Continue(StartStage::PlayInput),
            _ => StartProgress::Abort(INPUT_STREAM_FAILED),
        },
        StartStage::PlayInput => match event {
            StartEvent::Done => StartProgress::Continue(StartStage::BuildOutput),
            _ => StartProgress::Abort(INPUT_STREAM_FAILED),
        },
        StartStage::BuildOutput => match event {
            StartEvent::Done => StartProgress::Continue(StartStage::PlayOutput),
            _ => StartProgress::Abort(OUTPUT_STREAM_FAILED),
        },
        StartStage::PlayOutput => match event {
            StartEvent::Done => {
                proof {
                    use_type_invariant(&*client);
                }
                client.state.phase = Phase::Running;
                StartProgress::Launch
            },
            _ => StartProgress::Abort(OUTPUT_STREAM_FAILED),
        },
    }
}

/// Where a start that stands at `stage` has got to once its next steps have
/// ended as `events` say, one event for each step taken.
pub open spec fn start_run(stage: StartStage, events: Seq<StartEvent>) -> StartProgress
    decreases events.len(),
{
    if events.len() == 0 {
        StartProgress::Continue(stage)
    } else {
        match start_outcome(stage, events.first()) {
            StartProgress::Continue(next) => start_run(next, events.drop_first()),
            ended => ended,
        }
    }
}

/// No single step launches the loops but the last one, and only if it
/// succeeded.
pub proof fn lemma_launch_is_last_step(stage: StartStage, event: StartEvent)
    ensures
        start_outcome(stage, event) is Launch <==> stage == StartStage::PlayOutput && event is Done,
{
}

/// A start that launches the loops has taken all eight steps, each with
/// success, and has found both devices fit for the pipeline's stream.
/// Events beyond the eighth play no part.
pub proof fn lemma_launch_needs_every_step(events: Seq<StartEvent>)
    requires
        start_run(StartStage::InputDevice, events) is Launch,
    ensures
        events.len() >= 8,
        events[0] is Done,
        events[1] is Done,
        events[2] matches StartEvent::Configs(ranges) && device_fits(ranges@),
        events[3] matches StartEvent::Configs(ranges) && device_fits(ranges@),
        events[4] is Done,
        events[5] is Done,
        events[6] is Done,
        events[7] is Done,
{
    reveal_with_fuel(start_run, 10);
}

/// A start on a capture or playback device that does not offer the
/// pipeline's configuration ends with the unsupported-format code, whatever
/// would have followed: no stream is built and no loop is launched.
pub proof fn lemma_unfit_device_aborts(
    input: Vec<ConfigRange>,
    output: Vec<ConfigRange>,
    rest: Seq<StartEvent>,
)
    requires
        !device_fits(input@) || !device_fits(output@),
    ensures
        start_run(
            StartStage::InputDevice,
            seq![
                StartEvent::Done,
                StartEvent::Done,
                StartEvent::Configs(input),
                StartEvent::Configs(output),
            ] + rest,
        ) == StartProgress::Abort(UNSUPPORTED_SAMPLE_FORMAT),
{
    reveal_with_fuel(start_run, 6);
}

} // verus!
