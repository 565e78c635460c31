//! The steps that set up a native encoder, and what has to be released where
//! one of them fails.

use crate::encode::video_processor::NativeEncoder;
use crate::encode::windows_nvenc::INPUT_RING_SIZE;
use crate::error::MediaError;
use vstd::prelude::*;

verus! {

/// A step of setting up a native encoder.
#[derive(Debug, Clone, Copy, PartialEq, Eq, Structural)]
pub enum SetupStep {
    /// Open a session of NVENC or QSV.
    OpenSession,
    /// Ask NVENC whether it takes H.264 and NV12.
    CheckSupport,
    /// Choose a preset of NVENC.
    ChoosePreset,
    /// Hand the device to the session of QSV.
    BindDevice,
    /// Have QSV adjust the parameters.
    QueryParameters,
    /// Make the context of AMF.
    CreateContext,
    /// Bind the context of AMF to the device.
    BindContext,
    /// Make the component of AMF.
    CreateComponent,
    /// Set the properties of the component of AMF.
    Configure,
    /// Initialize the encoder.
    InitEncoder,
    /// Make the input texture of a slot.
    CreateTexture(usize),
    /// Register the texture of a slot with NVENC.
    RegisterTexture(usize),
    /// Make the bitstream buffer of a slot of NVENC.
    CreateBitstream(usize),
    /// Everything is made.
    Finish,
}

/// What a native encoder holds and has to release by a call.
#[derive(Debug, Clone, Copy, PartialEq, Eq, Structural)]
pub enum NativeResource {
    /// The registered texture of a slot.
    Registration(usize),
    /// The bitstream buffer of a slot.
    Bitstream(usize),
    NvencSession,
    /// Terminate the component, then release it.
    AmfComponent,
    /// Terminate the context, then release it.
    AmfContext,
    /// Close the encoder of the session.
    QsvEncoder,
    QsvSession,
}

/// How setting up goes on after a step.
#[derive(Debug)]
pub enum SetupNext {
    /// Take the next step.
    Step(SetupStep),
    /// Give up. Shutting down then releases this, in order.
    Fail { error: MediaError, release: Vec<NativeResource> },
}

/// The first step of setting up.
pub open spec fn first_step(kind: NativeEncoder) -> SetupStep {
    if kind == NativeEncoder::Amf {
        SetupStep::CreateContext
    } else {
        SetupStep::OpenSession
    }
}

/// The step behind the last one of a slot.
pub open spec fn slot_after(slot: usize) -> SetupStep {
    if slot + 1 < INPUT_RING_SIZE {
        SetupStep::CreateTexture((slot + 1) as usize)
    } else {
        SetupStep::Finish
    }
}

/// The step behind `step`.
pub open spec fn step_behind(kind: NativeEncoder, step: SetupStep) -> SetupStep {
    match step {
        SetupStep::OpenSession => if kind == NativeEncoder::Nvenc {
            SetupStep::CheckSupport
        } else {
            SetupStep::BindDevice
        },
        SetupStep::CheckSupport => SetupStep::ChoosePreset,
        SetupStep::BindDevice => SetupStep::QueryParameters,
        SetupStep::ChoosePreset | SetupStep::QueryParameters => SetupStep::InitEncoder,
        SetupStep::CreateContext => SetupStep::BindContext,
        SetupStep::BindContext => SetupStep::CreateComponent,
        SetupStep::CreateComponent => SetupStep::Configure,
        SetupStep::Configure => SetupStep::InitEncoder,
        SetupStep::InitEncoder => SetupStep::CreateTexture(0),
        SetupStep::CreateTexture(i) => if kind == NativeEncoder::Nvenc {
            SetupStep::RegisterTexture(i)
        } else {
            slot_after(i)
        },
        SetupStep::RegisterTexture(i) => SetupStep::CreateBitstream(i),
        SetupStep::CreateBitstream(i) => slot_after(i),
        SetupStep::Finish => SetupStep::Finish,
    }
}

/// The first step of setting up.
pub fn setup_start(kind: NativeEncoder) -> (s: SetupStep)
    ensures
        s == first_step(kind),
{
    match kind {
        NativeEncoder::Amf => SetupStep::CreateContext,
        _ => SetupStep::OpenSession,
    }
}

fn next_slot_step(slot: usize) -> (s: SetupStep)
    ensures
        s == slot_after(slot),
{
    if slot < INPUT_RING_SIZE - 1 {
        SetupStep::CreateTexture(slot + 1)
    } else {
        SetupStep::Finish
    }
}

pub(crate) fn next_step(kind: NativeEncoder, step: SetupStep) -> (s: SetupStep)
    ensures
        s == step_behind(kind, step),
{
    let nvenc: bool = match kind {
        NativeEncoder::Nvenc => true,
        _ => false,
    };
    match step {
        SetupStep::OpenSession => if nvenc {
            SetupStep::CheckSupport
        } else {
            SetupStep::BindDevice
        },
        SetupStep::CheckSupport => SetupStep::ChoosePreset,
        SetupStep::BindDevice => SetupStep::QueryParameters,
        SetupStep::ChoosePreset | SetupStep::QueryParameters => SetupStep::InitEncoder,
        SetupStep::CreateContext => SetupStep::BindContext,
        SetupStep::BindContext => SetupStep::CreateComponent,
        SetupStep::CreateComponent => SetupStep::Configure,
        SetupStep::Configure => SetupStep::InitEncoder,
        SetupStep::InitEncoder => SetupStep::CreateTexture(0),
        SetupStep::CreateTexture(i) => if nvenc {
            SetupStep::RegisterTexture(i)
        } else {
            next_slot_step(i)
        },
        SetupStep::RegisterTexture(i) => SetupStep::CreateBitstream(i),
        SetupStep::CreateBitstream(i) => next_slot_step(i),
        SetupStep::Finish => SetupStep::Finish,
    }
}

/// How many slots are made before a step.
pub open spec fn slots_before(step: SetupStep) -> int {
    match step {
        SetupStep::CreateTexture(i)
        | SetupStep::RegisterTexture(i)
        | SetupStep::CreateBitstream(i) => i as int,
        SetupStep::Finish => INPUT_RING_SIZE as int,
        _ => 0,
    }
}

/// What the slots of NVENC hold, slot by slot.
pub open spec fn slot_resources(slots: nat) -> Seq<NativeResource>
    decreases slots,
{
    if slots == 0 {
        Seq::empty()
    } else {
        slot_resources((slots - 1) as nat) + seq![
            NativeResource::Registration((slots - 1) as usize),
            NativeResource::Bitstream((slots - 1) as usize),
        ]
    }
}

/// `resource`, or nothing.
pub open spec fn resource_if(condition: bool, resource: NativeResource) -> Seq<NativeResource> {
    if condition {
        seq![resource]
    } else {
        Seq::empty()
    }
}

pub(crate) fn push_slot_resources(r: &mut Vec<NativeResource>, slots: usize)
    ensures
        final(r)@ == old(r)@ + slot_resources(slots as nat),
{
    let ghost before = r@;
    assert(r@ =~= before + slot_resources(0));
    for i in 0..slots
        invariant
            r@ == before + slot_resources(i as nat),
    {
        r.push(NativeResource::Registration(i));
        r.push(NativeResource::Bitstream(i));
        assert(r@ =~= before + slot_resources((i + 1) as nat));
    }
}

/// Where setting up stands after `n` steps.
pub open spec fn step_number(kind: NativeEncoder, n: nat) -> SetupStep
    decreases n,
{
    if n == 0 {
        first_step(kind)
    } else {
        step_behind(kind, step_number(kind, (n - 1) as nat))
    }
}

/// Setting up makes the encoder first, then four slots in order, and is done. NVENC asks
/// for support and a preset before, and each slot has its texture made, registered and
/// given a bitstream. AMF binds its context and configures its component before that is
/// initialized, Quick Sync binds the device and has the parameters adjusted.
pub proof fn law_setting_up_makes_four_slots(slot: nat)
    requires
        slot < 4,
    ensures
        step_number(NativeEncoder::Nvenc, 0) == SetupStep::OpenSession,
        step_number(NativeEncoder::Nvenc, 1) == SetupStep::CheckSupport,
        step_number(NativeEncoder::Nvenc, 2) == SetupStep::ChoosePreset,
        step_number(NativeEncoder::Nvenc, 3) == SetupStep::InitEncoder,
        step_number(NativeEncoder::Nvenc, 4 + 3 * slot) == SetupStep::CreateTexture(slot as usize),
        step_number(NativeEncoder::Nvenc, 5 + 3 * slot) == SetupStep::RegisterTexture(
            slot as usize,
        ),
        step_number(NativeEncoder::Nvenc, 6 + 3 * slot) == SetupStep::CreateBitstream(
            slot as usize,
        ),
        step_number(NativeEncoder::Nvenc, 16) == SetupStep::Finish,
        step_number(NativeEncoder::Amf, 0) == SetupStep::CreateContext,
        step_number(NativeEncoder::Amf, 1) == SetupStep::BindContext,
        step_number(NativeEncoder::Amf, 2) == SetupStep::CreateComponent,
        step_number(NativeEncoder::Amf, 3) == SetupStep::Configure,
        step_number(NativeEncoder::Amf, 4) == SetupStep::InitEncoder,
        step_number(NativeEncoder::Amf, 5 + slot) == SetupStep::CreateTexture(slot as usize),
        step_number(NativeEncoder::Amf, 9) == SetupStep::Finish,
        step_number(NativeEncoder::Qsv, 0) == SetupStep::OpenSession,
        step_number(NativeEncoder::Qsv, 1) == SetupStep::BindDevice,
        step_number(NativeEncoder::Qsv, 2) == SetupStep::QueryParameters,
        step_number(NativeEncoder::Qsv, 3) == SetupStep::InitEncoder,
        step_number(NativeEncoder::Qsv, 4 + slot) == SetupStep::CreateTexture(slot as usize),
        step_number(NativeEncoder::Qsv, 8) == SetupStep::Finish,
{
    reveal_with_fuel(step_number, 18);
}

} // verus!
