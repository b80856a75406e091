//! The frame loop, as a machine that a driver steps.
//!
//! A run starts the encoder, renders the frames `1, 2, .., frames - 1` in this
//! order (frame `i` shows the curve at normalized time `i / frames`; there is
//! no frame for time zero), closes the encoder's input and waits for the
//! encoder to end. The [`FrameProducer`] decides what is done next; the driver
//! does it (it draws, writes to the pipe, waits for the process) and reports
//! how it went. Any failure ends the run; nothing is retried.

use vstd::prelude::*;

verus! {

/// What the driver is asked to do.
#[derive(Clone, Copy, Debug, PartialEq, Eq, Structural)]
pub enum Action {
    /// Start the encoder process.
    Spawn,
    /// Rasterize the curve at normalized time `index / frames` and write the
    /// frame's bytes, all of them, to the encoder's input.
    Render { index: u64, frames: u64 },
    /// Flush and close the encoder's input.
    Close,
    /// Wait for the encoder to end and collect what it wrote to its
    /// diagnostic stream.
    Wait,
    /// Nothing: the run is over.
    Stop,
}

/// What the driver reports of the action it was asked for.
#[derive(Debug, PartialEq, Eq)]
pub enum Event {
    /// A `Spawn`, `Render` or `Close` was carried out.
    Done,
    /// The action could not be carried out; the text is the cause.
    Failed(String),
    /// The encoder ended, with or without success, having written
    /// `diagnostics` to its diagnostic stream. This answers a `Wait`.
    Exited { success: bool, diagnostics: String },
}

/// The stage at which a run failed.
#[derive(Clone, Copy, Debug, PartialEq, Eq, Structural)]
pub enum ErrorKind {
    /// The encoder process could not be started.
    Spawn,
    /// Bytes could not be written to the encoder's input, or the input could
    /// not be flushed and closed.
    Write,
    /// The encoder's end could not be waited for.
    Wait,
    /// The encoder ended and reported failure.
    Encoder,
}

/// Why a run failed.
#[derive(Debug, PartialEq, Eq)]
pub struct RenderError {
    /// The stage that failed.
    pub kind: ErrorKind,
    /// The cause as the driver reported it; for [`ErrorKind::Encoder`], the
    /// encoder's diagnostic output.
    pub detail: String,
}

impl View for RenderError {
    type V = (ErrorKind, Seq<char>);

    open spec fn view(&self) -> (ErrorKind, Seq<char>) {
        (self.kind, self.detail@)
    }
}

/// The text that lossy UTF-8 decoding makes of a byte string: what is valid
/// is kept, each invalid sequence becomes one replacement character.
pub uninterp spec fn utf8_lossy(bytes: Seq<u8>) -> Seq<char>;

/// Decodes bytes with `String::from_utf8_lossy`.
///
/// Not proved: that the text returned depends on the bytes alone. The
/// contract gives that text the name [`utf8_lossy`] and says nothing else
/// about it.
#[verifier::external_body]
fn decode_lossy(bytes: &[u8]) -> (text: String)
    ensures
        text@ == utf8_lossy(bytes@),
{
    String::from_utf8_lossy(bytes).into_owned()
}

impl Event {
    /// The report that the encoder has ended, made of its exit status and of
    /// the bytes it wrote to its diagnostic stream. The bytes need not be
    /// valid UTF-8: they are decoded lossily.
    pub fn exited(success: bool, stderr: &[u8]) -> (event: Event)
        ensures
            event matches Event::Exited { success: status, diagnostics } && status == success
                && diagnostics@ == utf8_lossy(stderr@),
    {
        Event::Exited { success, diagnostics: decode_lossy(stderr) }
    }
}

/// The number of frames of a run: its duration, given in milliseconds, times
/// the frame rate, given in frames per second, rounded to the nearest whole
/// number of frames, a half rounded up. A whole number of seconds gives that
/// many times the frame rate.
pub fn frame_count(duration_ms: u32, fps: u32) -> (frames: u64)
    ensures
        1000 * frames - 500 <= duration_ms * fps < 1000 * frames + 500,
        duration_ms % 1000 == 0 ==> frames == (duration_ms / 1000) * fps,
{
    let ms: u64 = duration_ms as u64;
    let rate: u64 = fps as u64;
    assert(ms * rate + 500 <= u64::MAX) by (nonlinear_arith)
        requires
            ms <= 0xffff_ffff,
            rate <= 0xffff_ffff,
    ;
    assert(ms % 1000 == 0 ==> ms * rate == 1000 * ((ms / 1000) * rate)) by (nonlinear_arith);
    (ms * rate + 500) / 1000
}

/// What is asked for once `pending` has been carried out.
pub open spec fn after_success(frames: u64, pending: Action) -> Action {
    match pending {
        Action::Spawn => if 1 < frames {
            Action::Render { index: 1, frames }
        } else {
            Action::Close
        },
        Action::Render { index, .. } => if index + 1 < frames {
            Action::Render { index: (index + 1) as u64, frames }
        } else {
            Action::Close
        },
        Action::Close => Action::Wait,
        Action::Wait => Action::Stop,
        Action::Stop => Action::Stop,
    }
}

/// Whether `event` is a report that the driver can make of `pending`: an
/// exit answers a `Wait` and nothing else, `Done` answers anything but a
/// `Wait`, and no report is due once the run is over.
pub open spec fn answers(pending: Action, event: Event) -> bool {
    match pending {
        Action::Stop => false,
        Action::Wait => !(event is Done),
        _ => !(event is Exited),
    }
}

/// The kind of error that a failure of `pending` is.
pub open spec fn failure_kind(pending: Action) -> ErrorKind {
    match pending {
        Action::Spawn => ErrorKind::Spawn,
        Action::Wait => ErrorKind::Wait,
        _ => ErrorKind::Write,
    }
}

/// One step of a run of `frames` frames: the action that follows `pending`
/// when the driver reports `event`, or the error that ends the run. A report
/// that does not answer `pending` changes nothing.
pub open spec fn step(frames: u64, pending: Action, event: Event) -> Result<
    Action,
    (ErrorKind, Seq<char>),
> {
    if !answers(pending, event) {
        Ok(pending)
    } else {
        match event {
            Event::Done => Ok(after_success(frames, pending)),
            Event::Failed(cause) => Err((failure_kind(pending), cause@)),
            Event::Exited { success, diagnostics } => if success {
                Ok(after_success(frames, pending))
            } else {
                Err((ErrorKind::Encoder, diagnostics@))
            },
        }
    }
}

/// The action that is pending after a step: the one that follows, or `Stop`
/// after an error.
pub open spec fn pending_after(frames: u64, pending: Action, event: Event) -> Action {
    match step(frames, pending, event) {
        Ok(next) => next,
        Err(_) => Action::Stop,
    }
}

impl RenderError {
    /// The error's text: the cause, and for an encoder that reported failure
    /// its diagnostic output behind the words `FFMPEG Error: `.
    pub open spec fn message_text(&self) -> Seq<char> {
        if self.kind == ErrorKind::Encoder {
            "FFMPEG Error: "@ + self.detail@
        } else {
            self.detail@
        }
    }

    /// The error's text, for display.
    pub fn message(&self) -> (text: String)
        ensures
            text@ == self.message_text(),
    {
        match self.kind {
            ErrorKind::Encoder => {
                let mut text = String::from_str("FFMPEG Error: ");
                text.append(self.detail.as_str());
                text
            },
            _ => self.detail.clone(),
        }
    }
}

/// The state of a run: how many frames it has and what the driver has been
/// asked to do.
#[derive(Debug)]
pub struct FrameProducer {
    frames: u64,
    pending: Action,
}

impl FrameProducer {
    /// The frame count that the run was made with.
    pub closed spec fn spec_frames(&self) -> u64 {
        self.frames
    }

    /// The action that the driver has been asked for and not yet reported on.
    pub closed spec fn spec_pending(&self) -> Action {
        self.pending
    }

    /// A frame that is asked for is a frame of this run, and frame zero is
    /// never asked for.
    pub open spec fn wf(&self) -> bool {
        self.pending() matches Action::Render { index, frames } ==> frames == self.frames() && 1
            <= index < frames
    }

    #[verifier::type_invariant]
    spec fn inv(&self) -> bool {
        self.wf()
    }

    /// A run of `frames` frames, of which nothing has been done yet.
    pub fn new(frames: u64) -> (producer: Self)
        ensures
            producer.frames() == frames,
            producer.pending() == Action::Spawn,
            producer.wf(),
    {
        FrameProducer { frames, pending: Action::Spawn }
    }

    /// The frame count that the run was made with.
    #[verifier::when_used_as_spec(spec_frames)]
    pub fn frames(&self) -> (frames: u64)
        ensures
            frames == self.spec_frames(),
    {
        self.frames
    }

    /// The action that the driver is to carry out now.
    #[verifier::when_used_as_spec(spec_pending)]
    pub fn pending(&self) -> (action: Action)
        ensures
            action == self.spec_pending(),
            self.wf(),
    {
        proof {
            use_type_invariant(self);
        }
        self.pending
    }

    /// Takes the driver's report of the pending action and returns the action
    /// that is pending from now on, or the error that has ended the run.
    pub fn advance(&mut self, event: Event) -> (next: Result<Action, RenderError>)
        ensures
            final(self).frames() == old(self).frames(),
            final(self).pending() == pending_after(old(self).frames(), old(self).pending(), event),
            match next {
                Ok(action) => step(old(self).frames(), old(self).pending(), event) == Ok::<
                    Action,
                    (ErrorKind, Seq<char>),
                >(action),
                Err(error) => step(old(self).frames(), old(self).pending(), event) == Err::<
                    Action,
                    (ErrorKind, Seq<char>),
                >(error@),
            },
            final(self).wf(),
    {
        proof {
            use_type_invariant(&*self);
        }
        let pending = self.pending;
        match pending {
            Action::Stop => Ok(Action::Stop),
            Action::Wait => match event {
                Event::Done => Ok(Action::Wait),
                Event::Failed(cause) => {
                    self.pending = Action::Stop;
                    Err(RenderError { kind: ErrorKind::Wait, detail: cause })
                },
                Event::Exited { success, diagnostics } => {
                    self.pending = Action::Stop;
                    if success {
                        Ok(Action::Stop)
                    } else {
                        Err(RenderError { kind: ErrorKind::Encoder, detail: diagnostics })
                    }
                },
            },
            Action::Spawn => match event {
                Event::Done => {
                    let next = if 1 < self.frames {
                        Action::Render { index: 1, frames: self.frames }
                    } else {
                        Action::Close
                    };
                    self.pending = next;
                    Ok(next)
                },
                Event::Failed(cause) => {
                    self.pending = Action::Stop;
                    Err(RenderError { kind: ErrorKind::Spawn, detail: cause })
                },
                Event::Exited { .. } => Ok(Action::Spawn),
            },
            Action::Render { index, .. } => match event {
                Event::Done => {
                    let next = if index < self.frames && index + 1 < self.frames {
                        Action::Render { index: index + 1, frames: self.frames }
                    } else {
                        Action::Close
                    };
                    self.pending = next;
                    Ok(next)
                },
                Event::Failed(cause) => {
                    self.pending = Action::Stop;
                    Err(RenderError { kind: ErrorKind::Write, detail: cause })
                },
                Event::Exited { .. } => Ok(pending),
            },
            Action::Close => match event {
                Event::Done => {
                    self.pending = Action::Wait;
                    Ok(Action::Wait)
                },
                Event::Failed(cause) => {
                    self.pending = Action::Stop;
                    Err(RenderError { kind: ErrorKind::Write, detail: cause })
                },
                Event::Exited { .. } => Ok(Action::Close),
            },
        }
    }
}

/// The action that is pending after `k` steps of a run in which every action
/// was carried out and the encoder reported success.
pub open spec fn smooth_run(frames: u64, k: nat) -> Action
    decreases k,
{
    if k == 0 {
        Action::Spawn
    } else {
        after_success(frames, smooth_run(frames, (k - 1) as nat))
    }
}

/// The number of steps after which a run without failures closes the
/// encoder's input: one for the start and one for each frame it renders.
pub open spec fn steps_to_close(frames: u64) -> nat {
    if frames == 0 {
        1
    } else {
        frames as nat
    }
}

/// Whether `event` reports that `pending` was carried out and, where the
/// encoder has ended, that it ended with success.
pub open spec fn succeeds(pending: Action, event: Event) -> bool {
    &&& answers(pending, event)
    &&& !(event is Failed)
    &&& event matches Event::Exited { success, .. } ==> success
}

/// The action that is pending after the driver has made the reports
/// `events`, one after the other, in a run of `frames` frames.
pub open spec fn run(frames: u64, events: Seq<Event>) -> Action
    decreases events.len(),
{
    if events.len() == 0 {
        Action::Spawn
    } else {
        pending_after(frames, run(frames, events.drop_last()), events.last())
    }
}

/// A report of success has the run go on as [`after_success`] says, whatever
/// else the report holds.
pub proof fn lemma_success_steps(frames: u64, pending: Action, event: Event)
    requires
        succeeds(pending, event),
    ensures
        step(frames, pending, event) == Ok::<Action, (ErrorKind, Seq<char>)>(
            after_success(frames, pending),
        ),
        pending_after(frames, pending, event) == after_success(frames, pending),
{
}

/// As long as every report is one of success, a run goes the way of
/// [`smooth_run`].
pub proof fn lemma_run_without_failure(frames: u64, events: Seq<Event>)
    requires
        forall|i: int|
            0 <= i < events.len() ==> succeeds(#[trigger] run(frames, events.take(i)), events[i]),
    ensures
        run(frames, events) == smooth_run(frames, events.len()),
    decreases events.len(),
{
    if events.len() > 0 {
        let earlier = events.drop_last();
        assert forall|i: int| 0 <= i < earlier.len() implies succeeds(
            #[trigger] run(frames, earlier.take(i)),
            earlier[i],
        ) by {
            assert(earlier.take(i) =~= events.take(i));
        }
        lemma_run_without_failure(frames, earlier);
        assert(events.take(events.len() - 1) =~= earlier);
        lemma_success_steps(frames, run(frames, earlier), events.last());
    }
}

/// A run in which nothing fails starts the encoder, renders the frames
/// `1, 2, .., frames - 1` in this order and each once, then closes the
/// encoder's input, then waits for the encoder, then is over. A run of no
/// frames or of one renders nothing.
pub proof fn lemma_smooth_run(frames: u64, k: nat)
    ensures
        k == 0 ==> smooth_run(frames, k) == Action::Spawn,
        1 <= k < frames ==> smooth_run(frames, k) == (Action::Render { index: k as u64, frames }),
        k == steps_to_close(frames) ==> smooth_run(frames, k) == Action::Close,
        k == steps_to_close(frames) + 1 ==> smooth_run(frames, k) == Action::Wait,
        k >= steps_to_close(frames) + 2 ==> smooth_run(frames, k) == Action::Stop,
    decreases k,
{
    if k > 0 {
        lemma_smooth_run(frames, (k - 1) as nat);
    }
}

/// Whatever the driver reports, frames are asked for in order: the frame
/// asked for after a step is the first one if the encoder has just started,
/// and else the one that was pending or the one after it. No frame is asked
/// for once the stream is closed or the run is over.
pub proof fn lemma_frames_in_order(frames: u64, pending: Action, event: Event)
    ensures
        pending_after(frames, pending, event) matches Action::Render { index: next, frames: of }
            ==> match pending {
            Action::Spawn => next == 1 && of == frames,
            Action::Render { index, frames: was } => (next == index && of == was) || (next == index
                + 1 && of == frames),
            _ => false,
        },
{
}

/// Once a run is over it stays over, and an error ends it.
pub proof fn lemma_stop_is_final(frames: u64, pending: Action, event: Event)
    ensures
        pending == Action::Stop ==> pending_after(frames, pending, event) == Action::Stop,
        step(frames, pending, event) is Err ==> pending_after(frames, pending, event)
            == Action::Stop,
{
}

} // verus!
