//! The execution driver: one script run per frame, from source to outcome.
//!
//! Each frame the host opens the driver, which issues a fresh handle, then
//! reports how the interpreter fared: either compilation failed, or the
//! compiled unit ran, calling native commands zero or more times before it
//! completed, failed, or exhausted its step budget. The driver validates
//! every command call, records the widgets emitted this frame in order, and
//! refuses any further command once one has been refused. Whatever the
//! outcome, the frame ends with the handle invalidated and the driver back
//! in its idle state, ready for the next frame.

use vstd::prelude::*;

use crate::bridge::FrameBridge;
use crate::bridge::FrameHandle;
use crate::registry::check_command;
use crate::registry::emit_result;
use crate::registry::CommandError;
use crate::registry::CommandKind;
use crate::registry::Emit;
use crate::registry::ScriptValue;
use crate::registry::UiCommand;

verus! {

/// Where the driver stands within the current frame.
#[derive(Clone, Copy, PartialEq, Eq, Structural, Debug)]
pub enum Phase {
    /// No frame is open; no handle is valid.
    Idle,
    /// A frame is open and the source is being compiled; nothing has run.
    Compiling,
    /// The compiled unit is running and may call native commands.
    Running,
    /// A command was refused or the step budget ran out: the rest of this
    /// frame's execution is abandoned, no further command may run.
    Aborted,
}

/// What one frame's run came to.
#[derive(Debug)]
pub enum FrameOutcome {
    /// The source was malformed; nothing ran.
    CompileError(String),
    /// The unit started but failed: a refused command, a script error, or an
    /// exhausted step budget.
    RuntimeError(String),
    /// The unit ran to completion.
    Completed(String),
}

/// One native command call as the interpreter reports it: which command, and
/// the two arguments the script passed.
pub struct CallEvent {
    pub kind: CommandKind,
    pub v0: ScriptValue,
    pub v1: ScriptValue,
}

/// The widgets a frame emits when the interpreter reports the calls in
/// `events`, in order, against bridge state `b`: each accepted call emits
/// one widget; the first refused call aborts the run, so neither it nor
/// anything after it emits.
pub open spec fn frame_emissions(b: FrameBridge, events: Seq<CallEvent>) -> Seq<Emit>
    decreases events.len(),
{
    if events.len() == 0 {
        Seq::empty()
    } else {
        match emit_result(b, events[0].kind, events[0].v0, events[0].v1) {
            Ok(e) => seq![e] + frame_emissions(b, events.drop_first()),
            Err(_) => Seq::empty(),
        }
    }
}

/// The error of the first refused call in `events`, if any call is refused.
pub open spec fn frame_failure(b: FrameBridge, events: Seq<CallEvent>) -> Option<CommandError>
    decreases events.len(),
{
    if events.len() == 0 {
        None
    } else {
        match emit_result(b, events[0].kind, events[0].v0, events[0].v1) {
            Ok(_) => frame_failure(b, events.drop_first()),
            Err(c) => Some(c),
        }
    }
}

/// Drives one script run per frame and records its emissions.
pub struct Driver {
    /// Issues and validates this frame's handle.
    pub bridge: FrameBridge,
    /// Where the driver stands within the current frame.
    pub phase: Phase,
    /// The widgets emitted so far this frame, in emission order.
    pub emitted: Vec<UiCommand>,
    /// Interpreter steps consumed so far this frame.
    pub steps: u64,
    /// How many interpreter steps one frame may consume.
    pub budget: u64,
}

impl Driver {
    /// The driver's invariant: the bridge has a frame open exactly while the
    /// driver is inside one, and nothing has been emitted before the unit
    /// runs.
    pub open spec fn wf(self) -> bool {
        &&& self.bridge.open <==> !(self.phase is Idle)
        &&& self.phase is Compiling ==> self.emitted@.len() == 0
    }

    /// The widgets emitted so far this frame, as their mathematical shadows.
    pub open spec fn emissions(self) -> Seq<Emit> {
        self.emitted@.map_values(|c: UiCommand| c@)
    }

    /// A fresh driver: no frame has ever been opened.
    pub fn new(budget: u64) -> (d: Driver)
        ensures
            d.wf(),
            d.phase is Idle,
            d.bridge.frames == 0,
            d.emissions() == Seq::<Emit>::empty(),
            d.steps == 0,
            d.budget == budget,
    {
        let d = Driver {
            bridge: FrameBridge::new(),
            phase: Phase::Idle,
            emitted: Vec::new(),
            steps: 0,
            budget: budget,
        };
        proof {
            assert(d.emissions() =~= Seq::<Emit>::empty());
        }
        d
    }

    /// Opens a frame: issues the handle scripts will pass to commands this
    /// frame, clears the emission record, and moves to compilation. Every
    /// handle of every earlier frame is invalid from here on.
    pub fn begin_frame(&mut self) -> (h: FrameHandle)
        requires
            old(self).wf(),
            old(self).phase is Idle,
            old(self).bridge.frames < u64::MAX,
        ensures
            final(self).wf(),
            final(self).phase is Compiling,
            final(self).bridge.open,
            final(self).bridge.frames == old(self).bridge.frames + 1,
            h.tag == final(self).bridge.frames,
            final(self).bridge.accepts(h),
            final(self).emissions() == Seq::<Emit>::empty(),
            final(self).steps == 0,
            final(self).budget == old(self).budget,
    {
        let h = self.bridge.begin_frame();
        self.phase = Phase::Compiling;
        self.emitted = Vec::new();
        self.steps = 0;
        proof {
            assert(self.emissions() =~= Seq::<Emit>::empty());
        }
        h
    }

    /// Reports that the source failed to compile. The frame ends at once: a
    /// unit that never compiled never ran, so nothing was emitted and no
    /// command was invoked.
    pub fn compile_failed(&mut self, message: String) -> (o: FrameOutcome)
        requires
            old(self).wf(),
            old(self).phase is Compiling,
        ensures
            final(self).wf(),
            o == FrameOutcome::CompileError(message),
            final(self).phase is Idle,
            !final(self).bridge.open,
            final(self).bridge.frames == old(self).bridge.frames,
            final(self).emissions() == Seq::<Emit>::empty(),
            final(self).budget == old(self).budget,
    {
        self.bridge.end_frame();
        self.phase = Phase::Idle;
        proof {
            assert(self.emissions() =~= Seq::<Emit>::empty());
        }
        FrameOutcome::CompileError(message)
    }

    /// Reports that the source compiled: the unit starts running.
    pub fn compiled(&mut self)
        requires
            old(self).wf(),
            old(self).phase is Compiling,
        ensures
            final(self).wf(),
            final(self).phase is Running,
            final(self).bridge == old(self).bridge,
            final(self).emissions() == Seq::<Emit>::empty(),
            final(self).steps == old(self).steps,
            final(self).budget == old(self).budget,
    {
        self.phase = Phase::Running;
        proof {
            assert(self.emissions() =~= Seq::<Emit>::empty());
        }
    }

    /// Validates one native command call from the running unit.
    ///
    /// An accepted call appends its widget to the emission record and hands
    /// back the text to render; a refused call changes nothing, reports the
    /// exact error `emit_result` assigns, and aborts the rest of the frame's
    /// execution: no further command will be accepted until the next frame.
    pub fn command(&mut self, kind: CommandKind, v0: &ScriptValue, v1: &ScriptValue) -> (r: Result<
        String,
        CommandError,
    >)
        requires
            old(self).wf(),
            old(self).phase is Running,
        ensures
            final(self).wf(),
            final(self).bridge == old(self).bridge,
            final(self).steps == old(self).steps,
            final(self).budget == old(self).budget,
            match emit_result(old(self).bridge, kind, *v0, *v1) {
                Ok(e) => {
                    &&& r is Ok
                    &&& r->Ok_0@ == e.text
                    &&& final(self).phase is Running
                    &&& final(self).emissions() == old(self).emissions().push(e)
                },
                Err(c) => {
                    &&& r is Err
                    &&& r->Err_0 == c
                    &&& final(self).phase is Aborted
                    &&& final(self).emissions() == old(self).emissions()
                },
            },
    {
        match check_command(&self.bridge, kind, v0, v1) {
            Ok(widget) => {
                let text = widget.text.clone();
                proof {
                    lemma_emissions_push(self.emitted@, widget);
                }
                self.emitted.push(widget);
                Ok(text)
            },
            Err(c) => {
                self.phase = Phase::Aborted;
                Err(c)
            },
        }
    }

    /// Charges one interpreter step against this frame's budget. Once the
    /// budget is exhausted the run is aborted: a runaway script never
    /// survives past the end of its frame.
    pub fn consume_step(&mut self) -> (ok: bool)
        requires
            old(self).wf(),
            old(self).phase is Running,
        ensures
            final(self).wf(),
            final(self).bridge == old(self).bridge,
            final(self).emissions() == old(self).emissions(),
            final(self).budget == old(self).budget,
            ok == (old(self).steps < old(self).budget),
            ok ==> final(self).phase is Running && final(self).steps == old(self).steps + 1,
            !ok ==> final(self).phase is Aborted && final(self).steps == old(self).steps,
    {
        if self.steps < self.budget {
            self.steps = self.steps + 1;
            true
        } else {
            self.phase = Phase::Aborted;
            false
        }
    }

    /// Reports that the unit ran to completion. The frame ends: the handle
    /// is invalidated and the emission record of the frame stays readable
    /// until the next frame opens.
    pub fn complete(&mut self, summary: String) -> (o: FrameOutcome)
        requires
            old(self).wf(),
            old(self).phase is Running,
        ensures
            final(self).wf(),
            o == FrameOutcome::Completed(summary),
            final(self).phase is Idle,
            !final(self).bridge.open,
            final(self).bridge.frames == old(self).bridge.frames,
            final(self).emissions() == old(self).emissions(),
            final(self).budget == old(self).budget,
    {
        self.bridge.end_frame();
        self.phase = Phase::Idle;
        FrameOutcome::Completed(summary)
    }

    /// Reports that the unit failed: a script error, a refused command, or
    /// an exhausted budget. The failure is confined to this frame: the
    /// driver returns to its idle state uncorrupted, and the next frame
    /// starts fresh against the possibly edited source.
    pub fn runtime_failed(&mut self, message: String) -> (o: FrameOutcome)
        requires
            old(self).wf(),
            old(self).phase is Running || old(self).phase is Aborted,
        ensures
            final(self).wf(),
            o == FrameOutcome::RuntimeError(message),
            final(self).phase is Idle,
            !final(self).bridge.open,
            final(self).bridge.frames == old(self).bridge.frames,
            final(self).emissions() == old(self).emissions(),
            final(self).budget == old(self).budget,
    {
        self.bridge.end_frame();
        self.phase = Phase::Idle;
        FrameOutcome::RuntimeError(message)
    }

    /// The widgets emitted so far this frame, in emission order.
    pub fn emitted_commands(&self) -> (r: &Vec<UiCommand>)
        ensures
            r@ == self.emitted@,
    {
        &self.emitted
    }

    /// Feeds a whole sequence of command calls to the running unit, stopping
    /// at the first refusal. The emission record afterwards is exactly what
    /// `frame_emissions` assigns to the sequence, and the result is the
    /// first refusal, if any.
    pub fn run_calls(&mut self, calls: &Vec<CallEvent>) -> (r: Result<(), CommandError>)
        requires
            old(self).wf(),
            old(self).phase is Running,
        ensures
            final(self).wf(),
            final(self).bridge == old(self).bridge,
            final(self).steps == old(self).steps,
            final(self).budget == old(self).budget,
            final(self).emissions() == old(self).emissions() + frame_emissions(
                old(self).bridge,
                calls@,
            ),
            match frame_failure(old(self).bridge, calls@) {
                None => r is Ok && final(self).phase is Running,
                Some(c) => r is Err && r->Err_0 == c && final(self).phase is Aborted,
            },
    {
        let mut i: usize = 0;
        while i < calls.len()
            invariant
                self.wf(),
                self.phase is Running,
                self.bridge == old(self).bridge,
                self.steps == old(self).steps,
                self.budget == old(self).budget,
                0 <= i <= calls@.len(),
                self.emissions() == old(self).emissions() + frame_emissions(
                    old(self).bridge,
                    calls@.take(i as int),
                ),
                frame_failure(old(self).bridge, calls@.take(i as int)) is None,
            decreases calls@.len() - i,
        {
            let ghost b = self.bridge;
            let ev = &calls[i];
            proof {
                lemma_frame_snoc(b, calls@.take(i as int), calls@[i as int]);
                assert(calls@.take(i as int).push(calls@[i as int]) =~= calls@.take(
                    i as int + 1,
                ));
            }
            match self.command(ev.kind, &ev.v0, &ev.v1) {
                Ok(_) => {
                    proof {
                        assert(self.emissions() =~= old(self).emissions() + frame_emissions(
                            b,
                            calls@.take(i as int + 1),
                        ));
                    }
                },
                Err(c) => {
                    proof {
                        lemma_frame_stops_at_failure(b, calls@, i as int);
                        assert(self.emissions() =~= old(self).emissions() + frame_emissions(
                            b,
                            calls@,
                        ));
                    }
                    return Err(c);
                },
            }
            i = i + 1;
        }
        proof {
            assert(calls@.take(calls@.len() as int) =~= calls@);
        }
        Ok(())
    }
}

/// A script that calls `label` with the current handle and a text argument
/// some number of times, and calls nothing else, emits exactly one label per
/// call, in call order, each carrying that call's text — and no button.
pub proof fn lemma_label_sequence(b: FrameBridge, s: Seq<CallEvent>, h: FrameHandle)
    requires
        b.accepts(h),
        forall|i: int|
            0 <= i < s.len() ==> s[i].kind == CommandKind::Label && s[i].v0
                == ScriptValue::Handle(h) && s[i].v1 is Text,
    ensures
        frame_emissions(b, s).len() == s.len(),
        forall|i: int|
            0 <= i < s.len() ==> frame_emissions(b, s)[i] == (Emit {
                kind: CommandKind::Label,
                text: s[i].v1.chars(),
            }),
    decreases s.len(),
{
    if s.len() > 0 {
        lemma_label_sequence(b, s.drop_first(), h);
        let e0 = emit_result(b, s[0].kind, s[0].v0, s[0].v1)->Ok_0;
        assert(frame_emissions(b, s) =~= seq![e0] + frame_emissions(b, s.drop_first()));
        assert forall|i: int| 0 <= i < s.len() implies frame_emissions(b, s)[i] == (Emit {
            kind: CommandKind::Label,
            text: s[i].v1.chars(),
        }) by {
            if i > 0 {
                assert(frame_emissions(b, s)[i] == frame_emissions(b, s.drop_first())[i - 1]);
                assert(s.drop_first()[i - 1] == s[i]);
            }
        }
    }
}

/// Replaces every occurrence of the handle tagged `from` in a value by the
/// handle tagged `to`: the shape a script's argument takes when the same
/// script runs again in a later frame against that frame's fresh handle.
pub open spec fn retag(v: ScriptValue, from: u64, to: u64) -> ScriptValue {
    match v {
        ScriptValue::Handle(h) => if h.tag == from {
            ScriptValue::Handle(FrameHandle { tag: to })
        } else {
            v
        },
        _ => v,
    }
}

/// `retag` applied to both arguments of a call.
pub open spec fn retag_event(e: CallEvent, from: u64, to: u64) -> CallEvent {
    CallEvent { kind: e.kind, v0: retag(e.v0, from, to), v1: retag(e.v1, from, to) }
}

/// Rerunning the same script in another frame is idempotent: if a script
/// holds no stashed handle — every handle among its arguments is the
/// current frame's — then the same calls, retagged to the later frame's
/// fresh handle, emit the same widgets and fail in the same way, whatever
/// the two frames' numbers are.
pub proof fn lemma_rerun_same_emissions(b1: FrameBridge, b2: FrameBridge, s: Seq<CallEvent>)
    requires
        b1.open,
        b2.open,
        forall|i: int|
            0 <= i < s.len() ==> (s[i].v0 is Handle ==> s[i].v0->Handle_0.tag == b1.frames) && (
            s[i].v1 is Handle ==> s[i].v1->Handle_0.tag == b1.frames),
    ensures
        frame_emissions(b2, s.map_values(|e: CallEvent| retag_event(e, b1.frames, b2.frames)))
            == frame_emissions(b1, s),
        frame_failure(b2, s.map_values(|e: CallEvent| retag_event(e, b1.frames, b2.frames)))
            == frame_failure(b1, s),
    decreases s.len(),
{
    let s2 = s.map_values(|e: CallEvent| retag_event(e, b1.frames, b2.frames));
    if s.len() == 0 {
        assert(frame_emissions(b2, s2) =~= frame_emissions(b1, s));
    } else {
        lemma_rerun_same_emissions(b1, b2, s.drop_first());
        assert(s2.drop_first() =~= s.drop_first().map_values(
            |e: CallEvent| retag_event(e, b1.frames, b2.frames),
        ));
        assert(s2[0] == retag_event(s[0], b1.frames, b2.frames));
        match emit_result(b1, s[0].kind, s[0].v0, s[0].v1) {
            Ok(e0) => {
                assert(emit_result(b2, s2[0].kind, s2[0].v0, s2[0].v1) == Ok::<
                    Emit,
                    CommandError,
                >(e0));
                assert(frame_emissions(b2, s2) =~= frame_emissions(b1, s));
            },
            Err(c0) => {
                assert(emit_result(b2, s2[0].kind, s2[0].v0, s2[0].v1) == Err::<
                    Emit,
                    CommandError,
                >(c0));
                assert(frame_emissions(b2, s2) =~= frame_emissions(b1, s));
            },
        }
    }
}

/// Appending a widget to the record appends its shadow to the emissions.
proof fn lemma_emissions_push(s: Seq<UiCommand>, c: UiCommand)
    ensures
        s.push(c).map_values(|x: UiCommand| x@) == s.map_values(|x: UiCommand| x@).push(c@),
{
    assert(s.push(c).map_values(|x: UiCommand| x@) =~= s.map_values(|x: UiCommand| x@).push(c@));
}

/// Extending a run that has had no refusal by one more call extends its
/// emissions by that call's widget, or ends it with that call's refusal.
proof fn lemma_frame_snoc(b: FrameBridge, s: Seq<CallEvent>, e: CallEvent)
    requires
        frame_failure(b, s) is None,
    ensures
        frame_emissions(b, s.push(e)) == frame_emissions(b, s) + (match emit_result(
            b,
            e.kind,
            e.v0,
            e.v1,
        ) {
            Ok(em) => seq![em],
            Err(_) => Seq::<Emit>::empty(),
        }),
        frame_failure(b, s.push(e)) == (match emit_result(b, e.kind, e.v0, e.v1) {
            Ok(_) => Option::<CommandError>::None,
            Err(c) => Some(c),
        }),
    decreases s.len(),
{
    if s.len() == 0 {
        assert(s.push(e)[0] == e);
        assert(s.push(e).drop_first() =~= s);
        assert(frame_emissions(b, s) =~= Seq::<Emit>::empty());
        match emit_result(b, e.kind, e.v0, e.v1) {
            Ok(em) => {
                assert(frame_emissions(b, s.push(e)) =~= frame_emissions(b, s) + seq![em]);
            },
            Err(_) => {
                assert(frame_emissions(b, s.push(e)) =~= frame_emissions(b, s)
                    + Seq::<Emit>::empty());
            },
        }
    } else {
        assert(s.push(e)[0] == s[0]);
        assert(s.push(e).drop_first() =~= s.drop_first().push(e));
        lemma_frame_snoc(b, s.drop_first(), e);
        match emit_result(b, s[0].kind, s[0].v0, s[0].v1) {
            Ok(em0) => {
                match emit_result(b, e.kind, e.v0, e.v1) {
                    Ok(em) => {
                        assert(frame_emissions(b, s.push(e)) =~= frame_emissions(b, s)
                            + seq![em]);
                    },
                    Err(_) => {
                        assert(frame_emissions(b, s.push(e)) =~= frame_emissions(b, s)
                            + Seq::<Emit>::empty());
                    },
                }
            },
            Err(_) => {
                assert(false);
            },
        }
    }
}

/// A run's emissions stop exactly at its first refused call: everything the
/// accepted prefix emitted stands, nothing after the refusal emits, and the
/// refusal is the run's failure.
proof fn lemma_frame_stops_at_failure(b: FrameBridge, s: Seq<CallEvent>, i: int)
    requires
        0 <= i < s.len(),
        frame_failure(b, s.take(i)) is None,
        emit_result(b, s[i].kind, s[i].v0, s[i].v1) is Err,
    ensures
        frame_emissions(b, s) == frame_emissions(b, s.take(i)),
        frame_failure(b, s) == Some(emit_result(b, s[i].kind, s[i].v0, s[i].v1)->Err_0),
    decreases s.len(),
{
    if i == 0 {
        assert(s.take(0) =~= Seq::<CallEvent>::empty());
        assert(frame_emissions(b, s.take(0)) =~= Seq::<Emit>::empty());
    } else {
        assert(s.take(i)[0] == s[0]);
        assert(emit_result(b, s[0].kind, s[0].v0, s[0].v1) is Ok);
        assert(s.take(i).drop_first() =~= s.drop_first().take(i - 1));
        assert(s.drop_first()[i - 1] == s[i]);
        lemma_frame_stops_at_failure(b, s.drop_first(), i - 1);
        assert(frame_emissions(b, s) =~= frame_emissions(b, s.take(i)));
    }
}

} // verus!
