//! The encoder session: a live, initialized encoder and the rules for driving
//! it.
//!
//! A session is `Ready` from the moment it exists. Pictures are sent while it is
//! ready; the end-of-stream mark makes it `Draining`; the status that reports
//! the shutdown of the output queue makes it `Terminal`. The stage never goes
//! back. It is kept for the caller's benefit: no request is refused because of
//! it, and sending a picture after the end of the stream is the caller's error
//! to avoid.

use crate::buffer::Av1PictureType;
use crate::buffer::BufferHeaderType;
use crate::buffer::OutputBuffer;
use crate::buffer::SvtIOFormat;
use crate::flags::BUFFERFLAG_EOS;
use crate::frame::Frame;
use crate::handle::NativeHandle;
use crate::handle::Teardown;
use crate::packet::Packet;
use crate::status::ErrorType;
use vstd::prelude::*;

verus! {

/// How far a session has come.
#[derive(Debug, Copy, Clone, Hash, PartialEq, Eq, Structural)]
pub enum Stage {
    /// Pictures may be sent.
    Ready,
    /// The end of the stream was sent; what is left is to collect packets.
    Draining,
    /// The encoder reported that its output queue has shut down.
    Terminal,
}

/// Something that happened to a session.
#[derive(Debug, Copy, Clone, Hash, PartialEq, Eq, Structural)]
pub enum SessionEvent {
    /// A send call returned. `eos` tells whether the header sent carried the
    /// end-of-stream flag.
    Sent { eos: bool, status: ErrorType },
    /// A receive call returned.
    Received { status: ErrorType },
}

/// Whether a flag word carries the end-of-stream flag.
pub open spec fn has_eos(flags: u32) -> bool {
    flags & BUFFERFLAG_EOS == BUFFERFLAG_EOS
}

/// The word that holds the end-of-stream flag alone carries it; the empty
/// word does not.
pub proof fn lemma_eos_words()
    ensures
        has_eos(BUFFERFLAG_EOS),
        !has_eos(0),
{
    assert(1u32 & 1u32 == 1u32) by (bit_vector);
    assert(0u32 & 1u32 != 1u32) by (bit_vector);
}

/// The stage after an event.
///
/// An end-of-stream mark that was accepted turns `Ready` into `Draining`. The
/// shutdown status turns any stage into `Terminal`. Nothing else changes the
/// stage.
pub open spec fn next_stage(stage: Stage, event: SessionEvent) -> Stage {
    match event {
        SessionEvent::Sent { eos, status } => {
            if eos && status == ErrorType::ErrorNone && stage == Stage::Ready {
                Stage::Draining
            } else {
                stage
            }
        },
        SessionEvent::Received { status } => {
            if status == ErrorType::NoErrorFifoShutdown {
                Stage::Terminal
            } else {
                stage
            }
        },
    }
}

/// The stage after a sequence of events, taken in order.
pub open spec fn stage_after(stage: Stage, events: Seq<SessionEvent>) -> Stage
    decreases events.len(),
{
    if events.len() == 0 {
        stage
    } else {
        next_stage(stage_after(stage, events.drop_last()), events.last())
    }
}

/// The events of a run of send calls for pictures, one per status.
pub open spec fn pictures_sent(statuses: Seq<ErrorType>) -> Seq<SessionEvent> {
    Seq::new(statuses.len(), |i: int| SessionEvent::Sent { eos: false, status: statuses[i] })
}

/// The events of a run of receive calls, one per status.
pub open spec fn packets_received(statuses: Seq<ErrorType>) -> Seq<SessionEvent> {
    Seq::new(statuses.len(), |i: int| SessionEvent::Received { status: statuses[i] })
}

/// The place of a stage in the order `Ready`, `Draining`, `Terminal`.
pub open spec fn rank(stage: Stage) -> nat {
    match stage {
        Stage::Ready => 0,
        Stage::Draining => 1,
        Stage::Terminal => 2,
    }
}

/// Events taken one after the other are events taken as one sequence.
pub proof fn lemma_stage_after_concat(
    stage: Stage,
    first: Seq<SessionEvent>,
    then: Seq<SessionEvent>,
)
    ensures
        stage_after(stage, first + then) == stage_after(stage_after(stage, first), then),
    decreases then.len(),
{
    if then.len() == 0 {
        assert(first + then =~= first);
    } else {
        assert((first + then).drop_last() =~= first + then.drop_last());
        assert((first + then).last() == then.last());
        lemma_stage_after_concat(stage, first, then.drop_last());
    }
}

/// A session never goes back: no event lowers the stage, and from `Terminal`
/// there is no way out.
pub proof fn lemma_stage_monotone(stage: Stage, events: Seq<SessionEvent>)
    ensures
        rank(stage) <= rank(stage_after(stage, events)),
        stage == Stage::Terminal ==> stage_after(stage, events) == Stage::Terminal,
    decreases events.len(),
{
    if events.len() > 0 {
        lemma_stage_monotone(stage, events.drop_last());
    }
}

/// Sending pictures leaves the stage as it is, whatever the encoder answers.
pub proof fn lemma_pictures_keep_stage(stage: Stage, statuses: Seq<ErrorType>)
    ensures
        stage_after(stage, pictures_sent(statuses)) == stage,
    decreases statuses.len(),
{
    if statuses.len() > 0 {
        assert(pictures_sent(statuses).drop_last() =~= pictures_sent(statuses.drop_last()));
        lemma_pictures_keep_stage(stage, statuses.drop_last());
    }
}

/// Receive calls leave the stage as it is for as long as none of them reports
/// the shutdown.
pub proof fn lemma_polls_keep_stage(stage: Stage, statuses: Seq<ErrorType>)
    requires
        forall|i: int| 0 <= i < statuses.len() ==> statuses[i] != ErrorType::NoErrorFifoShutdown,
    ensures
        stage_after(stage, packets_received(statuses)) == stage,
    decreases statuses.len(),
{
    if statuses.len() > 0 {
        assert(packets_received(statuses).drop_last() =~= packets_received(
            statuses.drop_last(),
        ));
        lemma_polls_keep_stage(stage, statuses.drop_last());
    }
}

/// The course of a session that is driven in order.
///
/// From `Ready`, any number of pictures, whatever their statuses, leaves the
/// session `Ready`. One accepted end-of-stream mark then makes it `Draining`.
/// It stays `Draining` through every receive call that does not report the
/// shutdown, and the first one that does makes it `Terminal`. Whether and when
/// the encoder reports the shutdown is the encoder's part.
pub proof fn lemma_sequential_protocol(sends: Seq<ErrorType>, polls: Seq<ErrorType>)
    requires
        forall|i: int| 0 <= i < polls.len() ==> polls[i] != ErrorType::NoErrorFifoShutdown,
    ensures
        stage_after(Stage::Ready, pictures_sent(sends)) == Stage::Ready,
        stage_after(
            Stage::Ready,
            pictures_sent(sends).push(
                SessionEvent::Sent { eos: true, status: ErrorType::ErrorNone },
            ),
        ) == Stage::Draining,
        stage_after(
            Stage::Ready,
            pictures_sent(sends).push(
                SessionEvent::Sent { eos: true, status: ErrorType::ErrorNone },
            ) + packets_received(polls),
        ) == Stage::Draining,
        stage_after(
            Stage::Ready,
            (pictures_sent(sends).push(
                SessionEvent::Sent { eos: true, status: ErrorType::ErrorNone },
            ) + packets_received(polls)).push(
                SessionEvent::Received { status: ErrorType::NoErrorFifoShutdown },
            ),
        ) == Stage::Terminal,
{
    let eos = SessionEvent::Sent { eos: true, status: ErrorType::ErrorNone };
    let sent = pictures_sent(sends).push(eos);
    lemma_pictures_keep_stage(Stage::Ready, sends);
    assert(sent.drop_last() =~= pictures_sent(sends));
    assert(stage_after(Stage::Ready, sent) == Stage::Draining);
    lemma_stage_after_concat(Stage::Ready, sent, packets_received(polls));
    lemma_polls_keep_stage(Stage::Draining, polls);
    let drained = sent + packets_received(polls);
    assert(drained.push(SessionEvent::Received { status: ErrorType::NoErrorFifoShutdown })
        .drop_last() =~= drained);
}

/// The header that goes with a picture: the picture as payload, the number of
/// payload bytes, the timestamp where one is given, and the key-frame type
/// where a key frame is forced. Without force the type is left unset, which
/// lets the encoder decide. Everything else is zero.
pub open spec fn picture_header<'a>(
    picture: SvtIOFormat<'a>,
    size: u32,
    pts: Option<i64>,
    force_keyframe: bool,
) -> BufferHeaderType<'a> {
    BufferHeaderType {
        p_buffer: Some(picture),
        n_filled_len: size,
        pts: match pts {
            Some(pts) => pts,
            None => 0,
        },
        pic_type: if force_keyframe {
            Av1PictureType::Av1KeyPicture
        } else {
            Av1PictureType::Av1InvalidPicture
        },
        ..BufferHeaderType::spec_default()
    }
}

/// The header that marks the end of the stream: the end-of-stream flag, no
/// payload, everything else zero.
pub open spec fn eos_header<'a>() -> BufferHeaderType<'a> {
    BufferHeaderType { flags: BUFFERFLAG_EOS, ..BufferHeaderType::spec_default() }
}

/// The live encoder. It owns the native handle from the moment the
/// configuration was applied until it is torn down.
#[derive(Debug)]
pub struct SvtAv1Encoder {
    handle: NativeHandle,
    stage: Stage,
}

impl SvtAv1Encoder {
    /// The stage the session is in.
    pub closed spec fn spec_stage(&self) -> Stage {
        self.stage
    }

    /// The address of the native component.
    pub closed spec fn spec_addr(&self) -> usize {
        self.handle@
    }

    /// The session that begins when initialization has succeeded on `handle`.
    pub(crate) fn start(handle: NativeHandle) -> (encoder: SvtAv1Encoder)
        ensures
            encoder.spec_stage() == Stage::Ready,
            encoder.spec_addr() == handle@,
    {
        SvtAv1Encoder { handle, stage: Stage::Ready }
    }

    /// The stage the session is in.
    pub fn stage(&self) -> (stage: Stage)
        ensures
            stage == self.spec_stage(),
    {
        self.stage
    }

    /// The address of the native component, for the call about to be made.
    pub fn addr(&self) -> (addr: usize)
        ensures
            addr == self.spec_addr(),
    {
        self.handle.addr()
    }

    /// Describes the send call for one picture. The planes of `frame` are
    /// borrowed into the header, not copied: the header lives no longer than
    /// they do.
    pub fn send_picture<'a>(
        &self,
        frame: Frame<'a>,
        pts: Option<i64>,
        force_keyframe: bool,
    ) -> (header: BufferHeaderType<'a>)
        ensures
            header.p_buffer matches Some(picture) && {
                &&& picture.luma@ == frame@.luma
                &&& picture.cb@ == frame@.cb
                &&& picture.cr@ == frame@.cr
                &&& picture.y_stride == frame@.y_stride
                &&& picture.cb_stride == frame@.cb_stride
                &&& picture.cr_stride == frame@.cr_stride
                &&& header == picture_header(picture, frame@.size, pts, force_keyframe)
            },
            !has_eos(header.flags),
    {
        let picture = SvtIOFormat {
            luma: frame.luma(),
            cb: frame.cb(),
            cr: frame.cr(),
            y_stride: frame.y_stride(),
            cr_stride: frame.cr_stride(),
            cb_stride: frame.cb_stride(),
        };
        let mut header = BufferHeaderType::default();
        header.pic_type = Av1PictureType::Av1InvalidPicture;
        header.n_filled_len = frame.size();
        header.p_buffer = Some(picture);
        if let Some(pts) = pts {
            header.pts = pts;
        }
        if force_keyframe {
            header.pic_type = Av1PictureType::Av1KeyPicture;
        }
        proof {
            lemma_eos_words();
        }
        header
    }

    /// Describes the send call that marks the end of the stream. It is to be
    /// made once, after the last picture.
    pub fn send_eos<'a>(&self) -> (header: BufferHeaderType<'a>)
        ensures
            header == eos_header::<'a>(),
            has_eos(header.flags),
    {
        let mut header = BufferHeaderType::default();
        header.flags = BUFFERFLAG_EOS;
        proof {
            lemma_eos_words();
        }
        header
    }

    /// Takes in the status of a send call made with `header`. The status is
    /// handed on as the result, and the session moves to `Draining` where the
    /// header was an end-of-stream mark that the encoder accepted.
    pub fn sent(
        &mut self,
        header: &BufferHeaderType<'_>,
        status: ErrorType,
    ) -> (result: Result<(), ErrorType>)
        ensures
            result == status.spec_into_result(),
            final(self).spec_stage() == next_stage(
                old(self).spec_stage(),
                SessionEvent::Sent { eos: has_eos(header.flags), status },
            ),
            final(self).spec_addr() == old(self).spec_addr(),
    {
        let eos = header.flags & BUFFERFLAG_EOS == BUFFERFLAG_EOS;
        match status {
            ErrorType::ErrorNone => {
                if eos {
                    match self.stage {
                        Stage::Ready => {
                            self.stage = Stage::Draining;
                        },
                        _ => {},
                    }
                }
                Ok(())
            },
            other => Err(other),
        }
    }

    /// Takes in the outcome of a receive call: its status and, where the call
    /// handed out a buffer, that buffer.
    ///
    /// On success the buffer is wrapped in a packet. Every other status is the
    /// error, the two that end a drain loop included, and the shutdown status
    /// makes the session `Terminal`. A buffer that comes with a status other
    /// than success is not looked at.
    pub fn get_packet<'a>(
        &mut self,
        status: ErrorType,
        output: Option<OutputBuffer<'a>>,
    ) -> (result: Result<Packet<'a>, ErrorType>)
        requires
            status == ErrorType::ErrorNone ==> output is Some,
        ensures
            match result {
                Ok(packet) => {
                    &&& status == ErrorType::ErrorNone
                    &&& packet.spec_flags() == output->0.flags
                    &&& packet.spec_data() == output->0.data@
                    &&& packet.spec_buffer() == output->0.p_buffer
                },
                Err(error) => status != ErrorType::ErrorNone && error == status,
            },
            final(self).spec_stage() == next_stage(
                old(self).spec_stage(),
                SessionEvent::Received { status },
            ),
            final(self).spec_addr() == old(self).spec_addr(),
    {
        match status {
            ErrorType::ErrorNone => Ok(Packet::new(output.unwrap())),
            ErrorType::NoErrorFifoShutdown => {
                self.stage = Stage::Terminal;
                Err(status)
            },
            other => Err(other),
        }
    }

    /// Ends the session at whatever stage it is in. What is left is to
    /// deinitialize the encoder and then to destroy the component; the session
    /// is used up, so neither can happen twice.
    pub fn teardown(self) -> (teardown: Teardown)
        ensures
            teardown.spec_addr() == self.spec_addr(),
            teardown.spec_initialized(),
    {
        Teardown::new(self.handle, true)
    }
}

} // verus!
