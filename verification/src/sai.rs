//! Serial audio interface (I2S) driver core.
//!
//! The module declares the physical audio engines of the target and the
//! wire formats each may speak, assembles the native parameter blocks from
//! a requested wiring, and drives the install/bind/uninstall sequence as a
//! state machine whose recoverable failures are guaranteed to leave no
//! engine half-installed.  Every native call is returned to the embedder as
//! a [`SaiAction`] value; the embedder performs it and reports the outcome
//! back through [`InstallFlow::advance`].
//!
//! Which transfer directions a driver handle exposes is decided by its
//! [`TransferDirection`] type parameter: a transmit-only handle has no
//! receive operation at all, and a handle with no direction cannot be
//! constructed.

use core::marker::PhantomData;

use vstd::prelude::*;
use vstd::pervasive::unreached;

use crate::NativeError;
use crate::sai::config::BitsPerSample;
use crate::sai::config::ChannelFormat;
use crate::sai::config::CommFormat;
use crate::sai::config::Mode;

pub mod config;

verus! {

/// Sentinel the native layer uses for a pin role that is not wired.
pub const PIN_UNUSED: i32 = -1;

/// Interrupt-allocation flag requesting a level-1 interrupt.
pub const INTR_FLAG_LEVEL1: i32 = 2;

/// How many transfer buffers the engine's ring holds.
pub const DMA_BUF_COUNT: i32 = 8;

/// How many samples one transfer buffer holds.
pub const DMA_BUF_LEN: i32 = 64;

/// The bounded wait, in scheduler ticks, of a blocking transmit.
pub const WRITE_TIMEOUT_TICKS: u32 = 100;

/// A communication-format family the engine can be clocked under (the mode
/// tags of the audio interface).
pub trait SaiCommMode {

}

/// Philips two-line standard format.
pub struct I2sMode;

/// Left-justified (MSB-aligned) format.
pub struct I2sLeftMode;

/// Time-division-multiplexed format.
pub struct TdmMode;

impl SaiCommMode for I2sMode {

}

impl SaiCommMode for I2sLeftMode {

}

impl SaiCommMode for TdmMode {

}

/// A physical audio engine: a compile-time token exposing the fixed port
/// number of its instance.  One value of an implementing type must exist
/// per physical engine at most; a driver takes it by value, so that a
/// second live driver for the same engine cannot be constructed while the
/// first holds the token.
pub trait I2s: Sized {
    /// The fixed port number of this instance.
    spec fn spec_port() -> u32;

    /// The fixed port number of this instance.
    fn port() -> (p: u32)
        ensures
            p == Self::spec_port(),
    ;
}

/// The declared mapping from an engine and a mode tag to the one wire
/// format that pair must use.  A pair without such a declaration cannot be
/// configured at all: asking for its format does not compile.
pub trait I2sCommFormat<M: SaiCommMode> {
    /// The wire format declared for this (engine, mode) pair.
    spec fn spec_comm_format() -> CommFormat;

    /// The wire format declared for this (engine, mode) pair.
    fn get_comm_format() -> (f: CommFormat)
        ensures
            f == Self::spec_comm_format(),
    ;
}

/// Audio engine 0.
pub struct I2S0 {
    _marker: (),
}

/// Audio engine 1.
pub struct I2S1 {
    _marker: (),
}

impl I2S0 {
    /// Creates the token for this instance.  The embedder must create at
    /// most one per program run: the token stands for exclusive access to
    /// the physical engine.
    pub fn new() -> I2S0 {
        I2S0 { _marker: () }
    }
}

impl I2S1 {
    /// Creates the token for this instance.  The embedder must create at
    /// most one per program run: the token stands for exclusive access to
    /// the physical engine.
    pub fn new() -> I2S1 {
        I2S1 { _marker: () }
    }
}

impl I2s for I2S0 {
    open spec fn spec_port() -> u32 {
        0
    }

    fn port() -> u32 {
        0
    }
}

impl I2s for I2S1 {
    open spec fn spec_port() -> u32 {
        1
    }

    fn port() -> u32 {
        1
    }
}

impl I2sCommFormat<I2sMode> for I2S0 {
    open spec fn spec_comm_format() -> CommFormat {
        CommFormat::I2s
    }

    fn get_comm_format() -> CommFormat {
        CommFormat::I2s
    }
}

impl I2sCommFormat<I2sLeftMode> for I2S0 {
    open spec fn spec_comm_format() -> CommFormat {
        CommFormat::Msb
    }

    fn get_comm_format() -> CommFormat {
        CommFormat::Msb
    }
}

impl I2sCommFormat<TdmMode> for I2S0 {
    open spec fn spec_comm_format() -> CommFormat {
        CommFormat::PcmShort
    }

    fn get_comm_format() -> CommFormat {
        CommFormat::PcmShort
    }
}

impl I2sCommFormat<I2sMode> for I2S1 {
    open spec fn spec_comm_format() -> CommFormat {
        CommFormat::I2s
    }

    fn get_comm_format() -> CommFormat {
        CommFormat::I2s
    }
}

impl I2sCommFormat<I2sLeftMode> for I2S1 {
    open spec fn spec_comm_format() -> CommFormat {
        CommFormat::Msb
    }

    fn get_comm_format() -> CommFormat {
        CommFormat::Msb
    }
}

impl I2sCommFormat<TdmMode> for I2S1 {
    open spec fn spec_comm_format() -> CommFormat {
        CommFormat::PcmShort
    }

    fn get_comm_format() -> CommFormat {
        CommFormat::PcmShort
    }
}

/// Every declared (engine, mode) pair resolves to one fixed wire-format
/// constant; the resolution is a function of the pair alone.
pub proof fn lemma_declared_formats_fixed()
    ensures
        <I2S0 as I2sCommFormat<I2sMode>>::spec_comm_format() == CommFormat::I2s,
        <I2S0 as I2sCommFormat<I2sLeftMode>>::spec_comm_format() == CommFormat::Msb,
        <I2S0 as I2sCommFormat<TdmMode>>::spec_comm_format() == CommFormat::PcmShort,
        <I2S1 as I2sCommFormat<I2sMode>>::spec_comm_format() == CommFormat::I2s,
        <I2S1 as I2sCommFormat<I2sLeftMode>>::spec_comm_format() == CommFormat::Msb,
        <I2S1 as I2sCommFormat<TdmMode>>::spec_comm_format() == CommFormat::PcmShort,
{
}

/// An in-memory sample element type: its size decides the hardware bit
/// width of the data lines.
pub trait SampleWidth: Sized {
    /// The in-memory size of one sample, in bytes.
    spec fn spec_size() -> usize;

    /// The size is one the engine supports.
    proof fn size_in_range()
        ensures
            1 <= Self::spec_size() <= 4,
    ;

    /// The in-memory size of one sample, in bytes.
    fn mem_size() -> (s: usize)
        ensures
            s == Self::spec_size(),
    ;
}

impl SampleWidth for u8 {
    open spec fn spec_size() -> usize {
        1
    }

    proof fn size_in_range() {
    }

    fn mem_size() -> usize {
        1
    }
}

impl SampleWidth for i16 {
    open spec fn spec_size() -> usize {
        2
    }

    proof fn size_in_range() {
    }

    fn mem_size() -> usize {
        2
    }
}

impl SampleWidth for u16 {
    open spec fn spec_size() -> usize {
        2
    }

    proof fn size_in_range() {
    }

    fn mem_size() -> usize {
        2
    }
}

impl SampleWidth for i32 {
    open spec fn spec_size() -> usize {
        4
    }

    proof fn size_in_range() {
    }

    fn mem_size() -> usize {
        4
    }
}

impl SampleWidth for u32 {
    open spec fn spec_size() -> usize {
        4
    }

    proof fn size_in_range() {
    }

    fn mem_size() -> usize {
        4
    }
}

/// A packed 24-bit sample, for the fixed 24-bit line format, as its three
/// bytes from least to most significant.
#[derive(Clone, Copy, Debug, PartialEq, Eq, Structural)]
pub struct Sample24 {
    pub low: u8,
    pub mid: u8,
    pub high: u8,
}

impl SampleWidth for Sample24 {
    open spec fn spec_size() -> usize {
        3
    }

    proof fn size_in_range() {
    }

    fn mem_size() -> usize {
        3
    }
}

/// The transfer directions a driver handle is wired for.  The marker
/// decides at the type level which operations the handle exposes; a marker
/// with neither direction does not exist, so a directionless handle cannot
/// be expressed.
pub trait TransferDirection {
    /// The handle can receive.
    spec fn spec_rx() -> bool;

    /// The handle can transmit.
    spec fn spec_tx() -> bool;

    /// At least one direction is present.
    proof fn has_direction()
        ensures
            Self::spec_rx() || Self::spec_tx(),
    ;
}

/// Receive-only wiring: a data-in line and no data-out line.
pub struct RxOnly;

/// Transmit-only wiring: a data-out line and no data-in line.
pub struct TxOnly;

/// Combined wiring: both data lines present.
pub struct RxTx;

impl TransferDirection for RxOnly {
    open spec fn spec_rx() -> bool {
        true
    }

    open spec fn spec_tx() -> bool {
        false
    }

    proof fn has_direction() {
    }
}

impl TransferDirection for TxOnly {
    open spec fn spec_rx() -> bool {
        false
    }

    open spec fn spec_tx() -> bool {
        true
    }

    proof fn has_direction() {
    }
}

impl TransferDirection for RxTx {
    open spec fn spec_rx() -> bool {
        true
    }

    open spec fn spec_tx() -> bool {
        true
    }

    proof fn has_direction() {
    }
}

/// The engine parameter block handed to the native installation routine.
#[derive(Clone, Copy, Debug, PartialEq, Eq, Structural)]
pub struct DriverConfig {
    /// Combined mode word: master/slave role and transfer directions.
    pub mode: u32,
    /// Sample rate in hertz.
    pub sample_rate: u32,
    /// Hardware bit width of one sample.
    pub bits_per_sample: u32,
    /// Distribution of samples over the two channels.
    pub channel_format: u32,
    /// Wire protocol of the data lines.
    pub communication_format: u32,
    /// Interrupt-allocation flags.
    pub intr_alloc_flags: i32,
    /// Number of transfer buffers in the engine's ring.
    pub dma_buf_count: i32,
    /// Samples per transfer buffer.
    pub dma_buf_len: i32,
    /// Whether the audio phase-locked loop clocks the engine.
    pub use_apll: bool,
}

/// The pin assignment handed to the native pin-binding routine.  Roles
/// that are not wired carry the defined unused sentinel, never an
/// uninitialised value.
#[derive(Clone, Copy, Debug, PartialEq, Eq, Structural)]
pub struct PinConfig {
    pub bck_io_num: i32,
    pub ws_io_num: i32,
    pub data_in_num: i32,
    pub data_out_num: i32,
    pub mck_io_num: i32,
}

/// One call into the native audio layer.  Each variant names the native
/// routine the embedder must perform for the addressed engine.
#[derive(Clone, Copy, Debug, PartialEq, Eq, Structural)]
pub enum SaiAction {
    /// Install the engine with the given parameter block.
    Install { port: u32, config: DriverConfig },
    /// Bind the engine's signals to the given pins.
    BindPins { port: u32, pins: PinConfig },
    /// Uninstall the engine.
    Uninstall { port: u32 },
    /// Blocking transmit of `len` samples with a bounded wait.
    Write { port: u32, len: usize, timeout_ticks: u32 },
    /// Blocking receive into a buffer of `len` samples.
    Read { port: u32, len: usize },
}

/// The native mode word for a master-role engine with the given transfer
/// directions.
pub open spec fn spec_mode_word(rx: bool, tx: bool) -> u32 {
    Mode::Master.spec_mask() | (if rx {
        Mode::Rx.spec_mask()
    } else {
        0
    }) | (if tx {
        Mode::Tx.spec_mask()
    } else {
        0
    })
}

/// The parameter block assembled for engine `I2S` under mode tag `M` with
/// sample element `W` and the given directions and sample rate.
pub open spec fn spec_driver_config<I2S, M, W>(rx: bool, tx: bool, sample_rate: u32) -> DriverConfig
    where I2S: I2s + I2sCommFormat<M>, M: SaiCommMode, W: SampleWidth {
    DriverConfig {
        mode: spec_mode_word(rx, tx),
        sample_rate,
        bits_per_sample: BitsPerSample::spec_from_size(W::spec_size()).spec_bits(),
        channel_format: ChannelFormat::RightLeft.spec_value(),
        communication_format: <I2S as I2sCommFormat<M>>::spec_comm_format().spec_value(),
        intr_alloc_flags: INTR_FLAG_LEVEL1,
        dma_buf_count: DMA_BUF_COUNT,
        dma_buf_len: DMA_BUF_LEN,
        use_apll: false,
    }
}

/// The pin assignment for the given wiring, with the unused sentinel in
/// every role that is not supplied.
pub open spec fn spec_pin_config(
    bck: i32,
    ws: i32,
    data_in: Option<i32>,
    data_out: Option<i32>,
    mck: Option<i32>,
) -> PinConfig {
    PinConfig {
        bck_io_num: bck,
        ws_io_num: ws,
        data_in_num: match data_in {
            Some(p) => p,
            None => PIN_UNUSED,
        },
        data_out_num: match data_out {
            Some(p) => p,
            None => PIN_UNUSED,
        },
        mck_io_num: match mck {
            Some(p) => p,
            None => PIN_UNUSED,
        },
    }
}

/// A mode word carries a transfer direction.
pub open spec fn spec_has_direction(mode: u32) -> bool {
    mode & (Mode::Rx.spec_mask() | Mode::Tx.spec_mask()) != 0
}

/// Every assembled parameter block carries at least one transfer
/// direction: no code path reaches the native installation routine with a
/// directionless mode word.
pub proof fn lemma_assembled_config_has_direction(rx: bool, tx: bool)
    requires
        rx || tx,
    ensures
        spec_has_direction(spec_mode_word(rx, tx)),
{
    if rx && tx {
        assert((1u32 | 8u32 | 4u32) & (8u32 | 4u32) != 0) by (bit_vector);
    } else if rx {
        assert((1u32 | 8u32 | 0u32) & (8u32 | 4u32) != 0) by (bit_vector);
    } else {
        assert((1u32 | 0u32 | 4u32) & (8u32 | 4u32) != 0) by (bit_vector);
    }
}

/// Where an engine installation stands.
#[derive(Clone, Copy, Debug, PartialEq, Eq, Structural)]
pub enum InstallPhase {
    /// The installation call is pending.
    Installing,
    /// The engine is installed; the pin-binding call is pending.
    Binding,
    /// Installed and bound: the flow succeeded.
    Done,
    /// Pin binding failed after a successful installation; the
    /// compensating uninstall call is pending.
    RollingBack { err: NativeError },
    /// The flow failed recoverably; no engine is left installed.
    Failed { err: NativeError },
    /// The compensating uninstall itself failed.  There is no safe
    /// recovery: the embedder must terminate rather than continue with an
    /// engine in an unknown state.
    Fatal { err: NativeError },
}

/// The phase an unsettled flow moves to when the pending native call
/// reports `outcome`.
pub open spec fn spec_phase_after(pre: InstallPhase, outcome: Result<(), NativeError>) -> InstallPhase {
    match pre {
        InstallPhase::Installing => match outcome {
            Ok(_) => InstallPhase::Binding,
            Err(e) => InstallPhase::Failed { err: e },
        },
        InstallPhase::Binding => match outcome {
            Ok(_) => InstallPhase::Done,
            Err(e) => InstallPhase::RollingBack { err: e },
        },
        InstallPhase::RollingBack { err } => match outcome {
            Ok(_) => InstallPhase::Failed { err },
            Err(e) => InstallPhase::Fatal { err: e },
        },
        _ => pre,
    }
}

/// Whether the engine is installed after an unsettled flow takes the step
/// for `outcome`: installation succeeds exactly on `Ok`, and the
/// compensating uninstall removes the engine exactly on `Ok`.
pub open spec fn spec_installed_after(
    pre: InstallPhase,
    installed: bool,
    outcome: Result<(), NativeError>,
) -> bool {
    match pre {
        InstallPhase::Installing => outcome is Ok,
        InstallPhase::RollingBack { .. } => if outcome is Ok {
            false
        } else {
            installed
        },
        _ => installed,
    }
}

/// The install/bind sequence of one engine, run as a state machine: the
/// embedder performs [`Self::pending_action`] and reports its outcome
/// through [`Self::advance`] until the flow settles.  A recoverable failure
/// never leaves the engine installed — when pin binding fails after a
/// successful installation, the flow first demands the compensating
/// uninstall call.
pub struct InstallFlow {
    port: u32,
    config: DriverConfig,
    pins: PinConfig,
    phase: InstallPhase,
    installed: bool,
}

impl InstallFlow {
    /// The addressed engine.
    pub closed spec fn spec_port(&self) -> u32 {
        self.port
    }

    /// The parameter block being installed.
    pub closed spec fn spec_config(&self) -> DriverConfig {
        self.config
    }

    /// The pin assignment being bound.
    pub closed spec fn spec_pins(&self) -> PinConfig {
        self.pins
    }

    /// Where the flow stands.
    pub closed spec fn spec_phase(&self) -> InstallPhase {
        self.phase
    }

    /// Whether the engine is installed, as implied by the outcomes
    /// reported so far.
    pub closed spec fn spec_installed(&self) -> bool {
        self.installed
    }

    /// The tie between phase and engine state that every flow keeps: in
    /// particular, a recoverably failed flow has no engine installed.
    pub open spec fn wf(&self) -> bool {
        &&& (self.spec_phase() is Installing ==> !self.spec_installed())
        &&& (self.spec_phase() is Binding ==> self.spec_installed())
        &&& (self.spec_phase() is RollingBack ==> self.spec_installed())
        &&& (self.spec_phase() is Done ==> self.spec_installed())
        &&& (self.spec_phase() is Failed ==> !self.spec_installed())
    }

    /// The flow has settled: nothing is pending.
    pub open spec fn spec_settled(&self) -> bool {
        self.spec_phase() is Done || self.spec_phase() is Failed || self.spec_phase() is Fatal
    }

    /// A new flow, with the installation call pending.
    pub fn start(port: u32, config: DriverConfig, pins: PinConfig) -> (f: InstallFlow)
        ensures
            f.wf(),
            f.spec_port() == port,
            f.spec_config() == config,
            f.spec_pins() == pins,
            f.spec_phase() is Installing,
            !f.spec_installed(),
    {
        InstallFlow { port, config, pins, phase: InstallPhase::Installing, installed: false }
    }

    /// Where the flow stands.
    pub fn phase(&self) -> (p: InstallPhase)
        ensures
            p == self.spec_phase(),
    {
        self.phase
    }

    /// The native call the embedder must perform next, if the flow has not
    /// settled.
    pub fn pending_action(&self) -> (a: Option<SaiAction>)
        ensures
            self.spec_phase() is Installing ==> a == Some(
                SaiAction::Install { port: self.spec_port(), config: self.spec_config() },
            ),
            self.spec_phase() is Binding ==> a == Some(
                SaiAction::BindPins { port: self.spec_port(), pins: self.spec_pins() },
            ),
            self.spec_phase() is RollingBack ==> a == Some(
                SaiAction::Uninstall { port: self.spec_port() },
            ),
            self.spec_settled() ==> a is None,
    {
        match self.phase {
            InstallPhase::Installing => Some(
                SaiAction::Install { port: self.port, config: self.config },
            ),
            InstallPhase::Binding => Some(SaiAction::BindPins { port: self.port, pins: self.pins }),
            InstallPhase::RollingBack { .. } => Some(SaiAction::Uninstall { port: self.port }),
            InstallPhase::Done => None,
            InstallPhase::Failed { .. } => None,
            InstallPhase::Fatal { .. } => None,
        }
    }

    /// Feeds the outcome of the pending native call back into the flow.
    /// A failed installation fails the flow at once; a failed pin binding
    /// demands the compensating uninstall before the flow may fail, so
    /// that no recoverable failure leaves the engine installed; a failed
    /// uninstall is fatal.
    pub fn advance(&mut self, outcome: Result<(), NativeError>)
        requires
            old(self).wf(),
            !old(self).spec_settled(),
        ensures
            final(self).wf(),
            final(self).spec_port() == old(self).spec_port(),
            final(self).spec_config() == old(self).spec_config(),
            final(self).spec_pins() == old(self).spec_pins(),
            final(self).spec_phase() == spec_phase_after(old(self).spec_phase(), outcome),
            final(self).spec_installed() == spec_installed_after(
                old(self).spec_phase(),
                old(self).spec_installed(),
                outcome,
            ),
    {
        match self.phase {
            InstallPhase::Installing => {
                match outcome {
                    Ok(()) => {
                        self.phase = InstallPhase::Binding;
                        self.installed = true;
                    },
                    Err(e) => {
                        self.phase = InstallPhase::Failed { err: e };
                    },
                }
            },
            InstallPhase::Binding => {
                match outcome {
                    Ok(()) => {
                        self.phase = InstallPhase::Done;
                    },
                    Err(e) => {
                        self.phase = InstallPhase::RollingBack { err: e };
                    },
                }
            },
            InstallPhase::RollingBack { err } => {
                match outcome {
                    Ok(()) => {
                        self.phase = InstallPhase::Failed { err };
                        self.installed = false;
                    },
                    Err(e) => {
                        self.phase = InstallPhase::Fatal { err: e };
                    },
                }
            },
            InstallPhase::Done => {
            },
            InstallPhase::Failed { .. } => {
            },
            InstallPhase::Fatal { .. } => {
            },
        }
    }
}

/// A configuration attempt that ends in a recoverable failure leaves no
/// engine installed: rolling back is part of the flow, not the caller's
/// duty.
pub proof fn lemma_failed_flow_leaves_nothing_installed(f: InstallFlow)
    requires
        f.wf(),
        f.spec_phase() is Failed,
    ensures
        !f.spec_installed(),
{
}

/// A driver handle under construction: the identity token of the engine
/// together with its running [`InstallFlow`].  The embedder performs the
/// pending actions until the flow settles and then calls [`Self::finish`].
pub struct SaiSetup<I2S, M, W, D> {
    i2s: I2S,
    flow: InstallFlow,
    _mode: PhantomData<M>,
    _width: PhantomData<W>,
    _dir: PhantomData<D>,
}

impl<I2S, M, W, D> SaiSetup<I2S, M, W, D> where
    I2S: I2s + I2sCommFormat<M>,
    M: SaiCommMode,
    W: SampleWidth,
    D: TransferDirection,
 {
    /// The install flow of this construction.
    pub closed spec fn spec_flow(&self) -> InstallFlow {
        self.flow
    }

    /// What every setup guarantees: a well-formed flow, addressed at this
    /// engine's port, whose parameter block was assembled for exactly the
    /// directions of the handle type under construction.
    pub open spec fn wf(&self) -> bool {
        &&& self.spec_flow().wf()
        &&& self.spec_flow().spec_port() == I2S::spec_port()
        &&& self.spec_flow().spec_config() == spec_driver_config::<I2S, M, W>(
            D::spec_rx(),
            D::spec_tx(),
            self.spec_flow().spec_config().sample_rate,
        )
    }

    /// Where the install flow of this construction stands.
    pub fn phase(&self) -> (p: InstallPhase)
        ensures
            p == self.spec_flow().spec_phase(),
    {
        self.flow.phase()
    }

    /// The native call the embedder must perform next, if the flow has not
    /// settled.
    pub fn pending_action(&self) -> (a: Option<SaiAction>)
        ensures
            self.spec_flow().spec_phase() is Installing ==> a == Some(
                SaiAction::Install {
                    port: self.spec_flow().spec_port(),
                    config: self.spec_flow().spec_config(),
                },
            ),
            self.spec_flow().spec_phase() is Binding ==> a == Some(
                SaiAction::BindPins {
                    port: self.spec_flow().spec_port(),
                    pins: self.spec_flow().spec_pins(),
                },
            ),
            self.spec_flow().spec_phase() is RollingBack ==> a == Some(
                SaiAction::Uninstall { port: self.spec_flow().spec_port() },
            ),
            self.spec_flow().spec_settled() ==> a is None,
    {
        self.flow.pending_action()
    }

    /// Feeds the outcome of the pending native call back into the flow.
    pub fn advance(&mut self, outcome: Result<(), NativeError>)
        requires
            old(self).wf(),
            !old(self).spec_flow().spec_settled(),
        ensures
            final(self).wf(),
            final(self).spec_flow().spec_port() == old(self).spec_flow().spec_port(),
            final(self).spec_flow().spec_config() == old(self).spec_flow().spec_config(),
            final(self).spec_flow().spec_pins() == old(self).spec_flow().spec_pins(),
            final(self).spec_flow().spec_phase() == spec_phase_after(
                old(self).spec_flow().spec_phase(),
                outcome,
            ),
            final(self).spec_flow().spec_installed() == spec_installed_after(
                old(self).spec_flow().spec_phase(),
                old(self).spec_flow().spec_installed(),
                outcome,
            ),
    {
        self.flow.advance(outcome);
    }

    /// Settles the construction: a live driver handle exactly when the
    /// flow succeeded, and otherwise the identity token back together with
    /// the error that failed the flow, so the configuration can be retried
    /// with corrected input.  A fatal flow cannot be settled: the embedder
    /// must terminate instead.
    pub fn finish(self) -> (r: Result<I2sDriver<I2S, M, W, D>, (I2S, NativeError)>)
        requires
            self.spec_flow().spec_phase() is Done || self.spec_flow().spec_phase() is Failed,
        ensures
            r is Ok <==> self.spec_flow().spec_phase() is Done,
            self.spec_flow().spec_phase() matches InstallPhase::Failed { err }
                ==> r matches Err((_, e)) && e == err,
    {
        match self.flow.phase() {
            InstallPhase::Done => Ok(
                I2sDriver {
                    i2s: self.i2s,
                    _mode: PhantomData,
                    _width: PhantomData,
                    _dir: PhantomData,
                },
            ),
            InstallPhase::Failed { err } => Err((self.i2s, err)),
            _ => unreached(),
        }
    }
}

/// The live, exclusively owning binding between one audio engine identity
/// and its installed, pin-bound engine.  Its type parameters fix the mode
/// tag, the sample element and the wired transfer directions; only the
/// operations those directions allow exist on the handle.
pub struct I2sDriver<I2S, M, W, D> {
    i2s: I2S,
    _mode: PhantomData<M>,
    _width: PhantomData<W>,
    _dir: PhantomData<D>,
}

impl<I2S, M, W, D> I2sDriver<I2S, M, W, D> where
    I2S: I2s + I2sCommFormat<M>,
    M: SaiCommMode,
    W: SampleWidth,
    D: TransferDirection,
 {
    /// Destroys the handle: the engine must be uninstalled, and the
    /// identity token becomes available again.  A failure of the uninstall
    /// call is a teardown error: there is no owner left to retry through,
    /// and the embedder must treat it as fatal rather than continue with
    /// an engine in an unknown state.
    pub fn release(self) -> (r: (I2S, SaiAction))
        ensures
            r.1 == (SaiAction::Uninstall { port: I2S::spec_port() }),
    {
        (self.i2s, SaiAction::Uninstall { port: I2S::port() })
    }
}

/// Assembly of the native parameter blocks for one engine under one mode
/// tag and sample element.
pub trait I2sConfigure<I2S, M, W> where
    I2S: I2s + I2sCommFormat<M>,
    M: SaiCommMode,
    W: SampleWidth,
 {
    /// Translates a requested wiring into the engine parameter block and
    /// pin assignment the native layer expects.  The transfer directions
    /// are inferred from which data pins are supplied — data-in alone is
    /// receive-only, data-out alone transmit-only, both is combined — and
    /// a wiring with neither data pin is excluded outright, so no
    /// directionless request can reach the native installation routine.
    /// The hardware bit width is derived from the sample element type, and
    /// every unassigned pin role carries the defined unused sentinel.
    fn configure(
        bck: i32,
        ws: i32,
        data_in: Option<i32>,
        data_out: Option<i32>,
        mck: Option<i32>,
        sample_rate: u32,
    ) -> (r: (DriverConfig, PinConfig))
        requires
            data_in is Some || data_out is Some,
        ensures
            r.0 == spec_driver_config::<I2S, M, W>(data_in is Some, data_out is Some, sample_rate),
            r.1 == spec_pin_config(bck, ws, data_in, data_out, mck),
            spec_has_direction(r.0.mode),
    {
        let rx_bit: u32 = match data_in {
            Some(_) => Mode::Rx.mask(),
            None => 0,
        };
        let tx_bit: u32 = match data_out {
            Some(_) => Mode::Tx.mask(),
            None => 0,
        };
        let mode: u32 = Mode::Master.mask() | rx_bit | tx_bit;
        proof {
            W::size_in_range();
            lemma_assembled_config_has_direction(data_in is Some, data_out is Some);
        }
        let bits = BitsPerSample::from_size(W::mem_size());
        let config = DriverConfig {
            mode,
            sample_rate,
            bits_per_sample: bits.bits(),
            channel_format: ChannelFormat::RightLeft.value(),
            communication_format: <I2S as I2sCommFormat<M>>::get_comm_format().value(),
            intr_alloc_flags: INTR_FLAG_LEVEL1,
            dma_buf_count: DMA_BUF_COUNT,
            dma_buf_len: DMA_BUF_LEN,
            use_apll: false,
        };
        let pins = PinConfig {
            bck_io_num: bck,
            ws_io_num: ws,
            data_in_num: match data_in {
                Some(p) => p,
                None => PIN_UNUSED,
            },
            data_out_num: match data_out {
                Some(p) => p,
                None => PIN_UNUSED,
            },
            mck_io_num: match mck {
                Some(p) => p,
                None => PIN_UNUSED,
            },
        };
        (config, pins)
    }
}

/// The operations of a receive-capable handle.
pub trait I2sRx<I2S, M, W>: I2sConfigure<I2S, M, W> where
    I2S: I2s + I2sCommFormat<M>,
    M: SaiCommMode,
    W: SampleWidth,
 {
    /// Begins construction of a receive-only driver: only a data-in line
    /// is wired, so the resulting handle exposes no transmit operation.
    fn new_rx(
        i2s: I2S,
        bck: i32,
        ws: i32,
        data_in: i32,
        mck: Option<i32>,
        sample_rate: u32,
    ) -> (s: SaiSetup<I2S, M, W, RxOnly>)
        ensures
            s.wf(),
            s.spec_flow().spec_phase() is Installing,
            !s.spec_flow().spec_installed(),
            s.spec_flow().spec_port() == I2S::spec_port(),
            s.spec_flow().spec_config() == spec_driver_config::<I2S, M, W>(
                true,
                false,
                sample_rate,
            ),
            s.spec_flow().spec_pins() == spec_pin_config(
                bck,
                ws,
                Some(data_in),
                None::<i32>,
                mck,
            ),
    {
        let (config, pins) = Self::configure(bck, ws, Some(data_in), None, mck, sample_rate);
        SaiSetup {
            i2s,
            flow: InstallFlow::start(I2S::port(), config, pins),
            _mode: PhantomData,
            _width: PhantomData,
            _dir: PhantomData,
        }
    }

    /// The blocking receive of one buffer of samples: the engine must fill
    /// the caller's buffer completely.  The handle itself leaves the
    /// buffer untouched; the embedder performs the transfer.
    fn read(&mut self, samples: &mut [W]) -> (a: SaiAction)
        ensures
            a == (SaiAction::Read {
                port: I2S::spec_port(),
                len: old(samples)@.len() as usize,
            }),
            final(samples)@ == old(samples)@,
    {
        SaiAction::Read { port: I2S::port(), len: samples.len() }
    }
}

/// The operations of a transmit-capable handle.
pub trait I2sTx<I2S, M, W>: I2sConfigure<I2S, M, W> where
    I2S: I2s + I2sCommFormat<M>,
    M: SaiCommMode,
    W: SampleWidth,
 {
    /// Begins construction of a transmit-only driver: only a data-out line
    /// is wired, so the resulting handle exposes no receive operation.
    fn new_tx(
        i2s: I2S,
        bck: i32,
        ws: i32,
        data_out: i32,
        mck: Option<i32>,
        sample_rate: u32,
    ) -> (s: SaiSetup<I2S, M, W, TxOnly>)
        ensures
            s.wf(),
            s.spec_flow().spec_phase() is Installing,
            !s.spec_flow().spec_installed(),
            s.spec_flow().spec_port() == I2S::spec_port(),
            s.spec_flow().spec_config() == spec_driver_config::<I2S, M, W>(
                false,
                true,
                sample_rate,
            ),
            s.spec_flow().spec_pins() == spec_pin_config(
                bck,
                ws,
                None::<i32>,
                Some(data_out),
                mck,
            ),
    {
        let (config, pins) = Self::configure(bck, ws, None, Some(data_out), mck, sample_rate);
        SaiSetup {
            i2s,
            flow: InstallFlow::start(I2S::port(), config, pins),
            _mode: PhantomData,
            _width: PhantomData,
            _dir: PhantomData,
        }
    }

    /// The blocking transmit of a slice of samples, with the fixed bounded
    /// wait: when the wait expires or the engine faults, the native error
    /// is surfaced to the caller unchanged.
    fn write(&mut self, samples: &[W]) -> (a: SaiAction)
        ensures
            a == (SaiAction::Write {
                port: I2S::spec_port(),
                len: samples@.len() as usize,
                timeout_ticks: WRITE_TIMEOUT_TICKS,
            }),
    {
        SaiAction::Write { port: I2S::port(), len: samples.len(), timeout_ticks: WRITE_TIMEOUT_TICKS }
    }
}

/// The operations of a combined receive/transmit handle.
pub trait I2sRxTx<I2S, M, W>: I2sRx<I2S, M, W> + I2sTx<I2S, M, W> where
    I2S: I2s + I2sCommFormat<M>,
    M: SaiCommMode,
    W: SampleWidth,
 {
    /// Begins construction of a combined driver: both data lines are
    /// wired, and the resulting handle exposes both transfer operations.
    fn new(
        i2s: I2S,
        bck: i32,
        ws: i32,
        data_in: i32,
        data_out: i32,
        mck: Option<i32>,
        sample_rate: u32,
    ) -> (s: SaiSetup<I2S, M, W, RxTx>)
        ensures
            s.wf(),
            s.spec_flow().spec_phase() is Installing,
            !s.spec_flow().spec_installed(),
            s.spec_flow().spec_port() == I2S::spec_port(),
            s.spec_flow().spec_config() == spec_driver_config::<I2S, M, W>(
                true,
                true,
                sample_rate,
            ),
            s.spec_flow().spec_pins() == spec_pin_config(
                bck,
                ws,
                Some(data_in),
                Some(data_out),
                mck,
            ),
    {
        let (config, pins) = Self::configure(
            bck,
            ws,
            Some(data_in),
            Some(data_out),
            mck,
            sample_rate,
        );
        SaiSetup {
            i2s,
            flow: InstallFlow::start(I2S::port(), config, pins),
            _mode: PhantomData,
            _width: PhantomData,
            _dir: PhantomData,
        }
    }
}

impl<I2S, M, W, D> I2sConfigure<I2S, M, W> for I2sDriver<I2S, M, W, D> where
    I2S: I2s + I2sCommFormat<M>,
    M: SaiCommMode,
    W: SampleWidth,
    D: TransferDirection,
 {

}

impl<I2S, M, W> I2sRx<I2S, M, W> for I2sDriver<I2S, M, W, RxOnly> where
    I2S: I2s + I2sCommFormat<M>,
    M: SaiCommMode,
    W: SampleWidth,
 {

}

impl<I2S, M, W> I2sRx<I2S, M, W> for I2sDriver<I2S, M, W, RxTx> where
    I2S: I2s + I2sCommFormat<M>,
    M: SaiCommMode,
    W: SampleWidth,
 {

}

impl<I2S, M, W> I2sTx<I2S, M, W> for I2sDriver<I2S, M, W, TxOnly> where
    I2S: I2s + I2sCommFormat<M>,
    M: SaiCommMode,
    W: SampleWidth,
 {

}

impl<I2S, M, W> I2sTx<I2S, M, W> for I2sDriver<I2S, M, W, RxTx> where
    I2S: I2s + I2sCommFormat<M>,
    M: SaiCommMode,
    W: SampleWidth,
 {

}

impl<I2S, M, W> I2sRxTx<I2S, M, W> for I2sDriver<I2S, M, W, RxTx> where
    I2S: I2s + I2sCommFormat<M>,
    M: SaiCommMode,
    W: SampleWidth,
 {

}

} // verus!
