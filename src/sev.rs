use vstd::prelude::*;

use crate::channel::{ChannelMode, RegisterChannel};
use crate::error::BootError;

verus! {

/// SEV_STATUS: memory encryption is active.
pub const SEV_STATUS_SEV_ENABLED: u64 = 0x1;
/// SEV_STATUS: register state is encrypted too.
pub const SEV_STATUS_ES_ENABLED: u64 = 0x2;
/// SEV_STATUS: the guest runs with secure nested paging.
pub const SEV_STATUS_SNP_ACTIVE: u64 = 0x4;

/// The memory-encryption tier the guest runs under.
#[derive(Clone, Copy, Debug, PartialEq, Eq, Structural)]
pub enum EncryptionMode {
    /// No memory encryption.
    Off,
    /// Memory is encrypted, register state is not.
    Sev,
    /// Memory and register state are encrypted.
    SevEs,
    /// Encrypted state, and the hypervisor's memory assignment is attested.
    SevSnp,
}

/// What the firmware knows of the encryption it runs under: the tier, and
/// the mask that every physical address in a page-table entry carries (zero
/// without encryption).
#[derive(Clone, Copy, Debug, PartialEq, Eq, Structural)]
pub struct EncryptionState {
    pub mode: EncryptionMode,
    pub mask: u64,
}

/// The mask for the encryption bit at `pos`; position 0 means that no
/// encryption is active.
pub open spec fn mask_of(pos: u64) -> u64 {
    if pos == 0 { 0 } else { 1u64 << pos }
}

/// The encryption state for the encryption-bit position `pos` and the value
/// `status` of the SEV_STATUS register. The register is consulted only where
/// memory encryption is active.
pub open spec fn detect_spec(pos: u64, status: u64) -> EncryptionState {
    if pos == 0 {
        EncryptionState { mode: EncryptionMode::Off, mask: 0 }
    } else {
        EncryptionState {
            mode: if status & SEV_STATUS_SNP_ACTIVE != 0 {
                EncryptionMode::SevSnp
            } else if status & SEV_STATUS_ES_ENABLED != 0 {
                EncryptionMode::SevEs
            } else {
                EncryptionMode::Sev
            },
            mask: mask_of(pos),
        }
    }
}

/// Whether register access has to go through the secure channel.
pub open spec fn is_mediated(mode: EncryptionMode) -> bool {
    mode == EncryptionMode::SevEs || mode == EncryptionMode::SevSnp
}

/// The mask for the encryption bit at `pos`.
pub fn encryption_mask(pos: u64) -> (r: u64)
    requires
        pos < 64,
    ensures
        r == mask_of(pos),
{
    if pos == 0 {
        0
    } else {
        1u64 << pos
    }
}

impl EncryptionState {
    /// Determines the encryption state from the encryption-bit position and
    /// the SEV_STATUS register (the executor passes 0 where it cannot be read).
    pub fn detect(pos: u64, status: u64) -> (r: EncryptionState)
        requires
            pos < 64,
        ensures
            r == detect_spec(pos, status),
    {
        if pos == 0 {
            return EncryptionState { mode: EncryptionMode::Off, mask: 0 };
        }
        let mode = if status & SEV_STATUS_SNP_ACTIVE != 0 {
            EncryptionMode::SevSnp
        } else if status & SEV_STATUS_ES_ENABLED != 0 {
            EncryptionMode::SevEs
        } else {
            EncryptionMode::Sev
        };
        EncryptionState { mode, mask: encryption_mask(pos) }
    }

    /// How register accesses are routed under this state.
    pub fn channel_mode(&self) -> (r: ChannelMode)
        ensures
            r == (if is_mediated(self.mode) { ChannelMode::Mediated } else { ChannelMode::Direct }),
    {
        match self.mode {
            EncryptionMode::SevEs | EncryptionMode::SevSnp => ChannelMode::Mediated,
            _ => ChannelMode::Direct,
        }
    }

    /// Opens the register channel that this state calls for.
    pub fn open_channel(&self) -> (r: RegisterChannel)
        ensures
            r@.mode == (if is_mediated(self.mode) { ChannelMode::Mediated } else { ChannelMode::Direct }),
            r@.open,
            r@.writes.len() == 0,
    {
        RegisterChannel::new(self.channel_mode())
    }

    /// Whether guest memory must be validated before it is used.
    pub fn needs_memory_validation(&self) -> (r: bool)
        ensures
            r == (self.mode == EncryptionMode::SevSnp),
    {
        match self.mode {
            EncryptionMode::SevSnp => true,
            _ => false,
        }
    }
}

/// The stages of the confidential boot bootstrap, in order.
#[derive(Clone, Copy, Debug, PartialEq, Eq, Structural)]
pub enum BootStage {
    Uninitialized,
    EncryptionDetected,
    ChannelOpen,
    MemoryValidated,
    ChannelClosed,
    Done,
}

/// The stage that follows `stage` under `mode`: the channel is opened only
/// where access is mediated, memory is validated only under SNP, and the
/// channel is closed before the boot is done.
pub open spec fn next_stage_spec(stage: BootStage, mode: EncryptionMode) -> BootStage {
    match stage {
        BootStage::Uninitialized => BootStage::EncryptionDetected,
        BootStage::EncryptionDetected => if is_mediated(mode) {
            BootStage::ChannelOpen
        } else {
            BootStage::ChannelClosed
        },
        BootStage::ChannelOpen => if mode == EncryptionMode::SevSnp {
            BootStage::MemoryValidated
        } else {
            BootStage::ChannelClosed
        },
        BootStage::MemoryValidated => BootStage::ChannelClosed,
        BootStage::ChannelClosed => BootStage::Done,
        BootStage::Done => BootStage::Done,
    }
}

/// The stages that a boot under `mode` passes through, from the start.
pub open spec fn stage_path(mode: EncryptionMode) -> Seq<BootStage> {
    if mode == EncryptionMode::SevSnp {
        seq![BootStage::Uninitialized, BootStage::EncryptionDetected, BootStage::ChannelOpen,
            BootStage::MemoryValidated, BootStage::ChannelClosed, BootStage::Done]
    } else if is_mediated(mode) {
        seq![BootStage::Uninitialized, BootStage::EncryptionDetected, BootStage::ChannelOpen,
            BootStage::ChannelClosed, BootStage::Done]
    } else {
        seq![BootStage::Uninitialized, BootStage::EncryptionDetected, BootStage::ChannelClosed,
            BootStage::Done]
    }
}

/// The bootstrap: its stage and what it has learned of the encryption.
pub struct BootSequence {
    stage: BootStage,
    encryption: EncryptionState,
}

impl BootSequence {
    pub closed spec fn spec_stage(&self) -> BootStage {
        self.stage
    }

    pub closed spec fn spec_encryption(&self) -> EncryptionState {
        self.encryption
    }

    /// A bootstrap that has not started.
    pub fn new() -> (r: BootSequence)
        ensures
            r.spec_stage() == BootStage::Uninitialized,
            r.spec_encryption() == (EncryptionState { mode: EncryptionMode::Off, mask: 0 }),
    {
        BootSequence { stage: BootStage::Uninitialized, encryption: EncryptionState { mode: EncryptionMode::Off, mask: 0 } }
    }

    pub fn stage(&self) -> (r: BootStage)
        ensures
            r == self.spec_stage(),
    {
        self.stage
    }

    pub fn encryption(&self) -> (r: EncryptionState)
        ensures
            r == self.spec_encryption(),
    {
        self.encryption
    }

    /// The stage after the current one.
    pub fn next_stage(&self) -> (r: BootStage)
        ensures
            r == next_stage_spec(self.spec_stage(), self.spec_encryption().mode),
    {
        match self.stage {
            BootStage::Uninitialized => BootStage::EncryptionDetected,
            BootStage::EncryptionDetected => match self.encryption.mode {
                EncryptionMode::SevEs | EncryptionMode::SevSnp => BootStage::ChannelOpen,
                _ => BootStage::ChannelClosed,
            },
            BootStage::ChannelOpen => match self.encryption.mode {
                EncryptionMode::SevSnp => BootStage::MemoryValidated,
                _ => BootStage::ChannelClosed,
            },
            BootStage::MemoryValidated => BootStage::ChannelClosed,
            BootStage::ChannelClosed => BootStage::Done,
            BootStage::Done => BootStage::Done,
        }
    }

    /// Records the encryption state, from the encryption-bit position and
    /// the SEV_STATUS register.
    pub fn detect_encryption(&mut self, pos: u64, status: u64) -> (r: EncryptionState)
        requires
            old(self).spec_stage() == BootStage::Uninitialized,
            pos < 64,
        ensures
            r == detect_spec(pos, status),
            final(self).spec_encryption() == r,
            final(self).spec_stage() == BootStage::EncryptionDetected,
    {
        let e = EncryptionState::detect(pos, status);
        self.encryption = e;
        self.stage = BootStage::EncryptionDetected;
        e
    }

    /// Opens the register channel, mediated where the encryption calls for
    /// it; the stage moves to `ChannelOpen` only where it is mediated.
    pub fn open_channel(&mut self) -> (r: RegisterChannel)
        requires
            old(self).spec_stage() == BootStage::EncryptionDetected,
        ensures
            final(self).spec_encryption() == old(self).spec_encryption(),
            final(self).spec_stage() == (if is_mediated(old(self).spec_encryption().mode) {
                BootStage::ChannelOpen
            } else {
                BootStage::EncryptionDetected
            }),
            r@.mode == (if is_mediated(old(self).spec_encryption().mode) {
                ChannelMode::Mediated
            } else {
                ChannelMode::Direct
            }),
            r@.open,
            r@.writes.len() == 0,
    {
        let chan = self.encryption.open_channel();
        match self.encryption.mode {
            EncryptionMode::SevEs | EncryptionMode::SevSnp => {
                self.stage = BootStage::ChannelOpen;
            },
            _ => {},
        }
        chan
    }

    /// Takes the outcome of validating guest memory under SNP: a rejected
    /// range is fatal.
    pub fn memory_validated(&mut self, accepted: bool) -> (r: Result<(), BootError>)
        requires
            old(self).spec_stage() == BootStage::ChannelOpen,
            old(self).spec_encryption().mode == EncryptionMode::SevSnp,
        ensures
            final(self).spec_encryption() == old(self).spec_encryption(),
            accepted ==> r == Ok::<(), BootError>(()) && final(self).spec_stage() == BootStage::MemoryValidated,
            !accepted ==> r == Err::<(), BootError>(BootError::ValidationFailure)
                && final(self).spec_stage() == old(self).spec_stage(),
    {
        if accepted {
            self.stage = BootStage::MemoryValidated;
            Ok(())
        } else {
            Err(BootError::ValidationFailure)
        }
    }

    /// Tears the channel down before the handoff; mediated access is refused
    /// from here on.
    pub fn close_channel(&mut self, chan: &mut RegisterChannel)
        requires
            next_stage_spec(old(self).spec_stage(), old(self).spec_encryption().mode) == BootStage::ChannelClosed,
        ensures
            final(self).spec_encryption() == old(self).spec_encryption(),
            final(self).spec_stage() == BootStage::ChannelClosed,
            final(chan)@ == crate::channel::close_spec(old(chan)@),
    {
        chan.close();
        self.stage = BootStage::ChannelClosed;
    }

    /// Marks the handoff as done.
    pub fn finish(&mut self)
        requires
            old(self).spec_stage() == BootStage::ChannelClosed,
        ensures
            final(self).spec_encryption() == old(self).spec_encryption(),
            final(self).spec_stage() == BootStage::Done,
    {
        self.stage = BootStage::Done;
    }
}

/// Following the stages from the start visits exactly the stages of
/// `stage_path`, each the successor of the one before; every path opens the
/// channel only where access is mediated, validates memory only under SNP,
/// and closes the channel right before the boot is done.
pub proof fn lemma_stage_path(mode: EncryptionMode)
    ensures
        stage_path(mode)[0] == BootStage::Uninitialized,
        stage_path(mode).last() == BootStage::Done,
        forall|i: int| 0 <= i < stage_path(mode).len() - 1 ==>
            #[trigger] stage_path(mode)[i + 1] == next_stage_spec(stage_path(mode)[i], mode),
        stage_path(mode).contains(BootStage::ChannelOpen) == is_mediated(mode),
        stage_path(mode).contains(BootStage::MemoryValidated) == (mode == EncryptionMode::SevSnp),
        stage_path(mode)[stage_path(mode).len() - 2] == BootStage::ChannelClosed,
{
    let p = stage_path(mode);
    if !stage_path(mode).contains(BootStage::ChannelOpen) {
        if is_mediated(mode) {
            assert(p[2] == BootStage::ChannelOpen);
        }
    } else {
        let i = choose|i: int| 0 <= i < p.len() && p[i] == BootStage::ChannelOpen;
        assert(is_mediated(mode));
    }
    if !stage_path(mode).contains(BootStage::MemoryValidated) {
        if mode == EncryptionMode::SevSnp {
            assert(p[3] == BootStage::MemoryValidated);
        }
    } else {
        let i = choose|i: int| 0 <= i < p.len() && p[i] == BootStage::MemoryValidated;
        assert(mode == EncryptionMode::SevSnp);
    }
}

} // verus!
