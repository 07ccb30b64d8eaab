//! Shared identifiers, status codes and option enums.

use vstd::prelude::*;

use crate::text::str_eq;

verus! {

/// Identifier of an operation, task or node.
pub type MaaId = i64;

/// Identifier of a controller operation.
pub type MaaCtrlId = MaaId;

/// Identifier of a resource operation.
pub type MaaResId = MaaId;

/// Identifier of a task.
pub type MaaTaskId = MaaId;

/// Identifier of a recognition run.
pub type MaaRecoId = MaaId;

/// Identifier of an action run.
pub type MaaActId = MaaId;

/// Identifier of a pipeline node run.
pub type MaaNodeId = MaaId;

/// The identifier that stands for no operation.
pub const MAA_INVALID_ID: MaaId = 0;

/// Status of an asynchronous operation, as the engine reports it.
#[derive(Clone, Copy, Debug, PartialEq, Eq, Structural)]
pub enum Status {
    Invalid,
    Pending,
    Running,
    Succeeded,
    Failed,
}

/// The numeric code of each status in the wire protocol.
pub open spec fn spec_status_code(s: Status) -> i32 {
    match s {
        Status::Invalid => 0,
        Status::Pending => 1000,
        Status::Running => 2000,
        Status::Succeeded => 3000,
        Status::Failed => 4000,
    }
}

/// The status named by a numeric code; unknown codes read as invalid.
pub open spec fn spec_status_of_code(c: i32) -> Status {
    if c == 1000 {
        Status::Pending
    } else if c == 2000 {
        Status::Running
    } else if c == 3000 {
        Status::Succeeded
    } else if c == 4000 {
        Status::Failed
    } else {
        Status::Invalid
    }
}

impl Status {
    /// Whether the operation reached a terminal state.
    pub fn done(&self) -> (r: bool)
        ensures
            r == (*self == Status::Succeeded || *self == Status::Failed),
    {
        matches!(self, Status::Succeeded | Status::Failed)
    }

    /// Whether the operation succeeded.
    pub fn succeeded(&self) -> (r: bool)
        ensures
            r == (*self == Status::Succeeded),
    {
        matches!(self, Status::Succeeded)
    }

    /// Whether the operation failed.
    pub fn failed(&self) -> (r: bool)
        ensures
            r == (*self == Status::Failed),
    {
        matches!(self, Status::Failed)
    }

    /// Whether the operation has not started yet.
    pub fn pending(&self) -> (r: bool)
        ensures
            r == (*self == Status::Pending),
    {
        matches!(self, Status::Pending)
    }

    /// Whether the operation is in progress.
    pub fn running(&self) -> (r: bool)
        ensures
            r == (*self == Status::Running),
    {
        matches!(self, Status::Running)
    }

    /// Decode a numeric status code.
    pub fn from_code(c: i32) -> (r: Status)
        ensures
            r == spec_status_of_code(c),
    {
        if c == 1000 {
            Status::Pending
        } else if c == 2000 {
            Status::Running
        } else if c == 3000 {
            Status::Succeeded
        } else if c == 4000 {
            Status::Failed
        } else {
            Status::Invalid
        }
    }

    /// The numeric code of this status.
    pub fn code(&self) -> (r: i32)
        ensures
            r == spec_status_code(*self),
    {
        match self {
            Status::Invalid => 0,
            Status::Pending => 1000,
            Status::Running => 2000,
            Status::Succeeded => 3000,
            Status::Failed => 4000,
        }
    }
}

/// Verbosity of the engine's logging.
#[derive(Clone, Copy, Debug, PartialEq, Eq, Structural)]
pub enum LoggingLevel {
    Off,
    Fatal,
    Error,
    Warn,
    Info,
    Debug,
    Trace,
    All,
}

/// Process-wide engine options.
#[derive(Clone, Copy, Debug, PartialEq, Eq, Structural)]
pub enum GlobalOption {
    Invalid,
    LogDir,
    SaveDraw,
    StdoutLevel,
    DebugMode,
    SaveOnError,
}

/// Per-controller options.
#[derive(Clone, Copy, Debug, PartialEq, Eq, Structural)]
pub enum CtrlOption {
    Invalid,
    ScreenshotTargetLongSide,
    ScreenshotTargetShortSide,
    ScreenshotUseRawSize,
}

/// Device an inference session runs on.
#[derive(Clone, Copy, Debug, PartialEq, Eq, Structural)]
pub enum InferenceDevice {
    Cpu,
    Auto,
    Gpu0,
    Gpu1,
}

/// Backend an inference session runs with.
#[derive(Clone, Copy, Debug, PartialEq, Eq, Structural)]
pub enum InferenceExecutionProvider {
    Auto,
    Cpu,
    DirectMl,
    CoreMl,
    Cuda,
}

/// Per-resource options.
#[derive(Clone, Copy, Debug, PartialEq, Eq, Structural)]
pub enum ResOption {
    Invalid,
    InferenceDevice,
    InferenceExecutionProvider,
}

/// A rectangle on screen.
#[derive(Clone, Copy, Debug, PartialEq, Eq, Structural)]
pub struct Rect {
    pub x: i32,
    pub y: i32,
    pub width: i32,
    pub height: i32,
}

impl Rect {
    /// A rectangle from its coordinates and size.
    pub fn new(x: i32, y: i32, width: i32, height: i32) -> (r: Self)
        ensures
            r.x == x,
            r.y == y,
            r.width == width,
            r.height == height,
    {
        Self { x, y, width, height }
    }
}

/// A recognition algorithm, as the engine names one in a detail record.
#[derive(Clone, Copy, Debug, PartialEq, Eq, Structural)]
pub enum Algorithm {
    DirectHit,
    TemplateMatch,
    FeatureMatch,
    ColorMatch,
    Ocr,
    NeuralNetworkClassify,
    NeuralNetworkDetect,
    Custom,
}

/// The algorithm named by `s`; unknown names read as `DirectHit`.
pub open spec fn spec_algorithm_of(s: Seq<char>) -> Algorithm {
    if s == ("DirectHit")@ {
        Algorithm::DirectHit
    } else if s == ("TemplateMatch")@ {
        Algorithm::TemplateMatch
    } else if s == ("FeatureMatch")@ {
        Algorithm::FeatureMatch
    } else if s == ("ColorMatch")@ {
        Algorithm::ColorMatch
    } else if s == ("OCR")@ {
        Algorithm::Ocr
    } else if s == ("NeuralNetworkClassify")@ {
        Algorithm::NeuralNetworkClassify
    } else if s == ("NeuralNetworkDetect")@ {
        Algorithm::NeuralNetworkDetect
    } else if s == ("Custom")@ {
        Algorithm::Custom
    } else {
        Algorithm::DirectHit
    }
}

impl Algorithm {
    /// Parse an algorithm name; unknown names read as `DirectHit`.
    pub fn from_name(s: &str) -> (r: Algorithm)
        ensures
            r == spec_algorithm_of(s@),
    {
        if str_eq(s, "DirectHit") {
            Algorithm::DirectHit
        } else if str_eq(s, "TemplateMatch") {
            Algorithm::TemplateMatch
        } else if str_eq(s, "FeatureMatch") {
            Algorithm::FeatureMatch
        } else if str_eq(s, "ColorMatch") {
            Algorithm::ColorMatch
        } else if str_eq(s, "OCR") {
            Algorithm::Ocr
        } else if str_eq(s, "NeuralNetworkClassify") {
            Algorithm::NeuralNetworkClassify
        } else if str_eq(s, "NeuralNetworkDetect") {
            Algorithm::NeuralNetworkDetect
        } else if str_eq(s, "Custom") {
            Algorithm::Custom
        } else {
            Algorithm::DirectHit
        }
    }
}

/// An action, as the engine names one in a detail record.
#[derive(Clone, Copy, Debug, PartialEq, Eq, Structural)]
pub enum Action {
    DoNothing,
    Click,
    LongPress,
    Swipe,
    MultiSwipe,
    ClickKey,
    LongPressKey,
    InputText,
    StartApp,
    StopApp,
    Command,
    Custom,
    StopTask,
}

/// The action named by `s`; unknown names read as `DoNothing`.
pub open spec fn spec_action_of(s: Seq<char>) -> Action {
    if s == ("DoNothing")@ {
        Action::DoNothing
    } else if s == ("Click")@ {
        Action::Click
    } else if s == ("LongPress")@ {
        Action::LongPress
    } else if s == ("Swipe")@ {
        Action::Swipe
    } else if s == ("MultiSwipe")@ {
        Action::MultiSwipe
    } else if s == ("ClickKey")@ {
        Action::ClickKey
    } else if s == ("LongPressKey")@ {
        Action::LongPressKey
    } else if s == ("InputText")@ {
        Action::InputText
    } else if s == ("StartApp")@ {
        Action::StartApp
    } else if s == ("StopApp")@ {
        Action::StopApp
    } else if s == ("Command")@ {
        Action::Command
    } else if s == ("Custom")@ {
        Action::Custom
    } else if s == ("StopTask")@ {
        Action::StopTask
    } else {
        Action::DoNothing
    }
}

impl Action {
    /// Parse an action name; unknown names read as `DoNothing`.
    pub fn from_name(s: &str) -> (r: Action)
        ensures
            r == spec_action_of(s@),
    {
        if str_eq(s, "DoNothing") {
            Action::DoNothing
        } else if str_eq(s, "Click") {
            Action::Click
        } else if str_eq(s, "LongPress") {
            Action::LongPress
        } else if str_eq(s, "Swipe") {
            Action::Swipe
        } else if str_eq(s, "MultiSwipe") {
            Action::MultiSwipe
        } else if str_eq(s, "ClickKey") {
            Action::ClickKey
        } else if str_eq(s, "LongPressKey") {
            Action::LongPressKey
        } else if str_eq(s, "InputText") {
            Action::InputText
        } else if str_eq(s, "StartApp") {
            Action::StartApp
        } else if str_eq(s, "StopApp") {
            Action::StopApp
        } else if str_eq(s, "Command") {
            Action::Command
        } else if str_eq(s, "Custom") {
            Action::Custom
        } else if str_eq(s, "StopTask") {
            Action::StopTask
        } else {
            Action::DoNothing
        }
    }
}

} // verus!
