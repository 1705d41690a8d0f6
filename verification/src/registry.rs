//! The command registry: the native commands a script may call.
//!
//! Exactly two commands are exposed to script code, `label` and `button`.
//! Both take the current frame's handle and a text argument, and both emit
//! one widget into the host's frame-local UI context. The registry owns the
//! argument checks: a call with anything but a handle in the first position,
//! or anything but a string in the second, fails with a typed error instead
//! of corrupting the frame, and a stale handle is rejected as a violation of
//! handle confinement.

use vstd::prelude::*;

use crate::bridge::FrameBridge;
use crate::bridge::FrameHandle;

verus! {

/// The value shapes a native command can observe in a script argument.
///
/// The interpreter's own value type is garbage-collected and arena-bound;
/// what crosses into the registry is this plain description of it. Shapes
/// the commands never inspect beyond their kind (tables, functions,
/// floating-point numbers, foreign userdata) are all `Opaque`.
pub enum ScriptValue {
    Nil,
    Boolean(bool),
    Integer(i64),
    Text(String),
    Handle(FrameHandle),
    Opaque,
}

impl ScriptValue {
    /// The characters of a `Text` value; empty for every other shape.
    pub open spec fn chars(self) -> Seq<char> {
        match self {
            ScriptValue::Text(s) => s@,
            _ => Seq::empty(),
        }
    }
}

/// Which of the two native commands was called.
#[derive(Clone, Copy, PartialEq, Eq, Structural, Debug)]
pub enum CommandKind {
    Label,
    Button,
}

/// One widget emission into the frame's UI context: a read-only text line,
/// or a clickable button. The click state of a button is discarded by
/// design: the command interface is fire-and-forget.
pub struct UiCommand {
    pub kind: CommandKind,
    pub text: String,
}

/// The mathematical shadow of a `UiCommand`: its kind and its characters.
pub ghost struct Emit {
    pub kind: CommandKind,
    pub text: Seq<char>,
}

impl View for UiCommand {
    type V = Emit;

    open spec fn view(&self) -> Emit {
        Emit { kind: self.kind, text: self.text@ }
    }
}

/// Why a command call was refused.
///
/// `ArgumentType` is an ordinary user-script mistake: the argument in some
/// position has the wrong shape. `InvalidHandle` is graver: the script
/// presented a handle outside the frame that issued it, which the safety
/// layer must refuse outright rather than touch a stale context.
#[derive(Clone, Copy, PartialEq, Eq, Structural, Debug)]
pub enum CommandError {
    InvalidHandle,
    ArgumentType,
}

/// What one command call does, given the bridge state and its two arguments:
/// either the widget to emit, or the error that refuses the call.
///
/// The first argument must be a handle, and a handle the bridge still
/// accepts; the second must be text. Nothing is ever coerced.
pub open spec fn emit_result(
    b: FrameBridge,
    kind: CommandKind,
    v0: ScriptValue,
    v1: ScriptValue,
) -> Result<Emit, CommandError> {
    match v0 {
        ScriptValue::Handle(h) => if !b.accepts(h) {
            Err(CommandError::InvalidHandle)
        } else {
            match v1 {
                ScriptValue::Text(s) => Ok(Emit { kind: kind, text: s@ }),
                _ => Err(CommandError::ArgumentType),
            }
        },
        _ => Err(CommandError::ArgumentType),
    }
}

/// Checks one command call against the bridge and produces the widget to
/// emit, or the exact error `emit_result` assigns to the call.
pub fn check_command(b: &FrameBridge, kind: CommandKind, v0: &ScriptValue, v1: &ScriptValue) -> (r:
    Result<UiCommand, CommandError>)
    ensures
        match emit_result(*b, kind, *v0, *v1) {
            Ok(e) => r is Ok && r->Ok_0@ == e,
            Err(c) => r == Result::<UiCommand, CommandError>::Err(c),
        },
{
    match v0 {
        ScriptValue::Handle(h) => {
            if !b.resolve(*h) {
                Err(CommandError::InvalidHandle)
            } else {
                match v1 {
                    ScriptValue::Text(s) => Ok(UiCommand { kind: kind, text: s.clone() }),
                    _ => Err(CommandError::ArgumentType),
                }
            }
        },
        _ => Err(CommandError::ArgumentType),
    }
}

/// The name under which a command is registered as a script global.
pub fn command_name(kind: CommandKind) -> (r: &'static str)
    ensures
        kind == CommandKind::Label ==> r@ == "label"@,
        kind == CommandKind::Button ==> r@ == "button"@,
{
    match kind {
        CommandKind::Label => "label",
        CommandKind::Button => "button",
    }
}

/// The message a refused command reports to the script runtime.
pub fn error_message(kind: CommandKind, err: CommandError) -> (r: &'static str)
    ensures
        err == CommandError::ArgumentType && kind == CommandKind::Label ==> r@
            == "Expected a string for the label"@,
        err == CommandError::ArgumentType && kind == CommandKind::Button ==> r@
            == "Expected a string for the button label"@,
        err == CommandError::InvalidHandle ==> r@
            == "Invalid handle: used outside its issuing frame"@,
{
    match err {
        CommandError::InvalidHandle => "Invalid handle: used outside its issuing frame",
        CommandError::ArgumentType => match kind {
            CommandKind::Label => "Expected a string for the label",
            CommandKind::Button => "Expected a string for the button label",
        },
    }
}

} // verus!
